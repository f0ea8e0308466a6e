//! The error that a failed native call is turned into.
use vstd::prelude::*;

verus! {

/// A fault signalled by the native library, carrying its diagnostic text verbatim.
#[derive(Debug, Clone)]
pub struct LhapdfError {
    message: String,
}

impl View for LhapdfError {
    type V = Seq<char>;

    closed spec fn view(&self) -> Seq<char> {
        self.message@
    }
}

impl LhapdfError {
    /// Captures the native diagnostic message as it was given.
    pub fn new(message: String) -> (r: LhapdfError)
        ensures
            r@ == message@,
    {
        LhapdfError { message }
    }

    /// The native diagnostic message, unchanged.
    pub fn message(&self) -> (r: &str)
        ensures
            r@ == self@,
    {
        self.message.as_str()
    }
}

/// Results of calls that the native library may reject.
pub type Result<T> = core::result::Result<T, LhapdfError>;

} // verus!
