//! Host-side logic of a binding to the LHAPDF parton distribution library:
//! decoding of native strings, translation of native lookups and faults, and
//! the library's global configuration held as a value.

pub mod config;
pub mod error;
pub mod marshal;
pub mod query;

pub use config::{set_verbosity, verbosity, GlobalConfig};
pub use error::{LhapdfError, Result};
pub use query::{available_pdf_sets, lookup_pdf, member_indices, metadata_entry};
