//! Which way a document file is read, from its extension.
use vstd::prelude::*;

use crate::error::FileExtensionError;
use crate::text::same_text;

verus! {

/// The two ways a document is kept on disk.
#[derive(Debug, Clone, Copy, PartialEq, Eq, Structural)]
pub enum SupportedFileExtension {
    /// `.lef`: the document's text as it is.
    Lef,
    /// `.lxf`: an archive whose single entry is the document's text.
    Lxf,
}

impl SupportedFileExtension {
    /// The way a file with this extension is read: `lef` and `lxf` are
    /// known, any other extension is unsupported, and no extension at all is
    /// unknown.
    pub fn from_extension(ext: Option<&str>) -> (r: Result<SupportedFileExtension, FileExtensionError>)
        ensures
            ext is None ==> r == Err::<SupportedFileExtension, FileExtensionError>(
                FileExtensionError::UnknownExtension,
            ),
            ext matches Some(e) ==> {
                if e@ == "lef"@ {
                    r == Ok::<SupportedFileExtension, FileExtensionError>(SupportedFileExtension::Lef)
                } else if e@ == "lxf"@ {
                    r == Ok::<SupportedFileExtension, FileExtensionError>(SupportedFileExtension::Lxf)
                } else {
                    r matches Err(FileExtensionError::UnsupportedExtension(name)) && name@ == e@
                }
            },
    {
        match ext {
            None => Err(FileExtensionError::UnknownExtension),
            Some(e) => {
                if same_text(e, "lef") {
                    Ok(SupportedFileExtension::Lef)
                } else if same_text(e, "lxf") {
                    Ok(SupportedFileExtension::Lxf)
                } else {
                    Err(FileExtensionError::UnsupportedExtension(String::from_str(e)))
                }
            },
        }
    }
}

} // verus!
