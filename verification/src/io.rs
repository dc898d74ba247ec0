//! Reading a document: from the events of its XML parts to the workbook.

pub mod formats;
pub mod layout;
pub mod markup;
pub mod read;
pub mod styles;
pub mod table;
