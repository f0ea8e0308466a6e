//! What the binding decides around its native queries: the set listing, the
//! translation of a failed ID lookup, metadata entries and the members of a set.
use vstd::prelude::*;
use crate::marshal::{decode_native_string, decode_native_strings, lossy_utf8};

verus! {

/// The pair that the native ID lookup gives back for an ID it does not know:
/// an empty set name and member -1.
pub open spec fn is_lookup_sentinel(setname: Seq<char>, member: i32) -> bool {
    setname.len() == 0 && member == -1
}

/// The names of all sets on the native search path, decoded, in the order in
/// which the native library listed them.
pub fn available_pdf_sets(listing: &Vec<Vec<u8>>) -> (r: Vec<String>)
    ensures
        r@.len() == listing@.len(),
        forall|i: int| 0 <= i < r@.len() ==> #[trigger] r@[i]@ == lossy_utf8(listing@[i]@),
{
    decode_native_strings(listing)
}

/// Turns what the native lookup answered for an ID (the set name and the
/// member index) into a set name and member, or `None` where the answer is the
/// sentinel for an unknown ID.
pub fn lookup_pdf(setname: &[u8], memberid: i32) -> (r: Option<(String, i32)>)
    ensures
        r.is_none() <==> is_lookup_sentinel(lossy_utf8(setname@), memberid),
        r matches Some((name, member)) ==> name@ == lossy_utf8(setname@) && member == memberid,
        r matches Some((name, member)) ==> !is_lookup_sentinel(name@, member),
{
    let name = decode_native_string(setname);
    if name.as_str().is_empty() && memberid == -1 {
        None
    } else {
        Some((name, memberid))
    }
}

/// A metadata entry of a set: `stored` is the native value where the set has
/// the key, `None` where it has not. An empty value stays a present entry.
pub fn metadata_entry(stored: Option<&[u8]>) -> (r: Option<String>)
    ensures
        r.is_some() == stored.is_some(),
        stored matches Some(value) ==> r.unwrap()@ == lossy_utf8(value@),
{
    match stored {
        Some(value) => Some(decode_native_string(value)),
        None => None,
    }
}

/// The member indices of a set of `size` members: `0..size` in ascending order.
pub fn member_indices(size: usize) -> (r: Vec<i32>)
    requires
        size <= i32::MAX,
    ensures
        r@.len() == size,
        forall|i: int| 0 <= i < r@.len() ==> #[trigger] r@[i] == i,
{
    let mut r: Vec<i32> = Vec::new();
    let mut i: usize = 0;
    while i < size
        invariant
            i <= size,
            size <= i32::MAX,
            r@.len() == i,
            forall|j: int| 0 <= j < i ==> #[trigger] r@[j] == j,
        decreases size - i,
    {
        r.push(i as i32);
        i = i + 1;
    }
    r
}

} // verus!
