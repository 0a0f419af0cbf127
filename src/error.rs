use vstd::prelude::*;

verus! {

/// Why a text or an element tree could not be read as a document value.
#[derive(Debug, Clone, Copy, PartialEq, Eq, Structural)]
pub enum DecodeError {
    /// The text is not well-formed markup.
    MalformedXml,
    /// A required attribute is absent.
    MissingAttribute,
    /// A required child element is absent.
    MissingElement,
    /// An attribute that should hold a decimal integer does not.
    InvalidNumber,
    /// A decimal integer does not fit the field's width.
    NumericOverflow,
    /// A clock time or a swim duration could not be read.
    InvalidTime,
    /// A calendar date could not be read.
    InvalidDate,
    /// A token outside the closed set of an enumeration without a default.
    UnknownToken,
}

/// Why a file name does not tell how to read the file.
#[derive(Debug, PartialEq, Eq)]
pub enum FileExtensionError {
    /// The file name has no extension.
    UnknownExtension,
    /// The extension is neither of the two that documents are kept under.
    UnsupportedExtension(String),
}

/// Why a document could not be opened.
#[derive(Debug, PartialEq, Eq)]
pub enum Error {
    FileExtension(FileExtensionError),
    /// The file could not be opened or read.
    Io(String),
    /// The archive is corrupt or does not hold exactly one entry.
    Archive(String),
    /// The text could not be read as a document.
    Decode(DecodeError),
}

impl From<FileExtensionError> for Error {
    fn from(value: FileExtensionError) -> (r: Error)
        ensures
            r == Error::FileExtension(value),
    {
        Error::FileExtension(value)
    }
}

impl vstd::std_specs::convert::FromSpecImpl<FileExtensionError> for Error {
    open spec fn obeys_from_spec() -> bool {
        true
    }

    open spec fn from_spec(v: FileExtensionError) -> Error {
        Error::FileExtension(v)
    }
}

impl From<DecodeError> for Error {
    fn from(value: DecodeError) -> (r: Error)
        ensures
            r == Error::Decode(value),
    {
        Error::Decode(value)
    }
}

impl vstd::std_specs::convert::FromSpecImpl<DecodeError> for Error {
    open spec fn obeys_from_spec() -> bool {
        true
    }

    open spec fn from_spec(v: DecodeError) -> Error {
        Error::Decode(v)
    }
}

} // verus!
