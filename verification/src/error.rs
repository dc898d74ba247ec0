//! The errors of reading a spreadsheet.

use vstd::prelude::*;

verus! {

/// The error of the archive reader.
#[verifier::external_type_specification]
#[verifier::external_body]
pub struct ExZipError(zip::result::ZipError);

/// The error of the XML reader.
#[verifier::external_type_specification]
#[verifier::external_body]
pub struct ExXmlError(quick_xml::Error);

/// The error of the date and time parser.
#[verifier::external_type_specification]
#[verifier::external_body]
pub struct ExChronoParseError(chrono::ParseError);

/// Why a spreadsheet could not be read.
#[derive(Debug)]
pub enum OdsError {
    /// The document breaks a rule of the format; the text says which.
    Ods(String),
    /// The archive is damaged or lacks a member.
    Zip(zip::result::ZipError),
    /// The XML is not well formed.
    Xml(quick_xml::Error),
    /// The text is not an unsigned 32-bit decimal number.
    ParseInt(String),
    /// The text is not a floating point number.
    ParseFloat(String),
    /// The text is not a date or a timestamp.
    Chrono(chrono::ParseError),
    /// The text is a duration with a field too large to hold.
    Duration(String),
}

/// The model of an [`OdsError`]: its kind and the text it carries.
pub ghost enum OdsErrorView {
    Ods(Seq<char>),
    Zip,
    Xml,
    ParseInt(Seq<char>),
    ParseFloat(Seq<char>),
    Chrono,
    Duration(Seq<char>),
}

impl View for OdsError {
    type V = OdsErrorView;

    open spec fn view(&self) -> OdsErrorView {
        match self {
            OdsError::Ods(m) => OdsErrorView::Ods(m@),
            OdsError::Zip(_) => OdsErrorView::Zip,
            OdsError::Xml(_) => OdsErrorView::Xml,
            OdsError::ParseInt(t) => OdsErrorView::ParseInt(t@),
            OdsError::ParseFloat(t) => OdsErrorView::ParseFloat(t@),
            OdsError::Chrono(_) => OdsErrorView::Chrono,
            OdsError::Duration(t) => OdsErrorView::Duration(t@),
        }
    }
}

} // verus!
