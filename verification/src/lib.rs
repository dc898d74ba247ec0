//! Reading of OpenDocument spreadsheets into an in-memory workbook model.
//!
//! A document is a zip archive with two XML parts. [`io::read::read_ods`]
//! takes the bytes of the archive, reads the structural events of both
//! parts, and builds the [`workbook::WorkBook`] from them: sheets with
//! sparsely stored cells, and the styles, value formats, fonts and page
//! layouts that the document declares.

pub mod archive;
pub mod composit;
pub mod error;
pub mod format;
pub mod io;
pub mod namemap;
pub mod ods;
pub mod refs;
pub mod sheet;
pub mod strs;
pub mod style;
pub mod text;
pub mod value;
pub mod workbook;
pub mod xml;

pub use crate::sheet::{ColRange, RowRange, SCell, Sheet};
pub use crate::value::{Value, ValueType};
pub use crate::workbook::WorkBook;
