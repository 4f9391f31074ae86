//! The error kinds of the library.
use vstd::prelude::*;

verus! {

/// What can go wrong when records are built, checked or exchanged.
#[derive(Debug, Clone, PartialEq, Eq)]
pub enum MaecError {
    /// A required builder field was never set; holds the field's name.
    MissingField(&'static str),
    /// A text that had to be an identifier is not one; holds the text.
    InvalidId(String),
    /// A reference does not name a record of the expected kind; holds it.
    InvalidReference(String),
    /// The wire codec could not map a JSON document to or from the records.
    SerializationError(String),
    /// An XML document could not be handled.
    XmlError(String),
    /// An XML document could not be decoded into the records.
    QuickXmlDeError(String),
    /// The records could not be encoded as XML.
    XmlSerializationError(String),
    /// A record-level invariant does not hold; holds the reason.
    ValidationError(String),
    /// Reading or writing the underlying bytes failed.
    IoError(String),
}

} // verus!
