//! Reading and writing swim-meet documents in the Lenex XML exchange format.
//!
//! The codecs (numbers with a sentinel for "absent", clock times, swim
//! durations, enumeration tokens and collections of repeated child elements)
//! and the document model built from them are verified with Verus.

pub mod collection;
pub mod document;
pub mod error;
pub mod fields;
pub mod file;
pub mod model;
pub mod number;
pub mod reader;
pub mod text;
pub mod time;
pub mod xml;

pub use collection::{Collection, CollectionItem, XmlRecord};
pub use document::{
    collection_from_xml, collection_to_xml, record_from_xml, record_to_xml, records_from_xml,
    records_to_xml,
};
pub use error::{DecodeError, Error, FileExtensionError};
pub use file::SupportedFileExtension;
pub use time::{ClockTime, Date, SwimDuration};
pub use xml::XmlElement;
