//! The entry points for reading a document, and their error.

pub use crate::error::OdsError;
pub use crate::io::read::{read_ods, read_workbook};
