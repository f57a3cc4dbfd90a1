//! The error type of the library.
use vstd::prelude::*;

verus! {

/// `quick_xml::Error`, carried through as it comes: nothing is assumed of
/// what it holds.
#[verifier::external_type_specification]
#[verifier::external_body]
pub struct ExXmlError(quick_xml::Error);

/// `std::io::Error`, carried through as it comes: nothing is assumed of what
/// it holds.
#[verifier::external_type_specification]
#[verifier::external_body]
pub struct ExIoError(std::io::Error);

/// Why a document could not be converted.
#[derive(Debug)]
pub enum XtabMLError {
    /// The markup itself is malformed: unbalanced tags, a bad entity, an
    /// encoding violation, a malformed attribute.
    XmlParse(quick_xml::Error),
    /// The markup is sound but the document breaks a rule of the format. The
    /// message names the rule and, where there is one, the table.
    InvalidStructure(String),
    /// A required element is absent. The message names it.
    MissingElement(String),
    /// The input could not be read.
    Io(std::io::Error),
}

/// An error without what only the outside world can say about it.
pub enum ErrorView {
    XmlParse,
    InvalidStructure(Seq<char>),
    MissingElement(Seq<char>),
    Io,
}

impl DeepView for XtabMLError {
    type V = ErrorView;

    open spec fn deep_view(&self) -> ErrorView {
        match self {
            XtabMLError::XmlParse(_) => ErrorView::XmlParse,
            XtabMLError::InvalidStructure(message) => ErrorView::InvalidStructure(message@),
            XtabMLError::MissingElement(message) => ErrorView::MissingElement(message@),
            XtabMLError::Io(_) => ErrorView::Io,
        }
    }
}

pub type Result<T> = std::result::Result<T, XtabMLError>;

} // verus!
