//! Option payloads for the host-OS dialog boxes.
//!
//! The dialogs themselves are native facilities; the library only models
//! their request payloads and the small defaulting rules applied to them.

use vstd::prelude::*;

verus! {

/// Options for a plain message dialog.
pub struct DialogOptions {
    pub title: Option<String>,
    pub message: String,
    pub dialog_type: Option<String>,
}

/// Options for the save-file and open-file dialogs.
pub struct SaveDialogOptions {
    pub title: Option<String>,
    pub default_path: Option<String>,
    pub filters: Option<Vec<FileFilter>>,
}

/// One file-type filter of a file dialog.
pub struct FileFilter {
    pub name: String,
    pub extensions: Vec<String>,
}

/// The title a message dialog is shown under when none was supplied.
pub open spec fn spec_effective_title(title: Option<String>) -> Seq<char> {
    match title {
        Some(t) => t@,
        None => "Message"@,
    }
}

impl DialogOptions {
    /// The title the dialog is shown under: the supplied one, or `Message`.
    pub fn effective_title(&self) -> (r: String)
        ensures
            r@ == spec_effective_title(self.title),
    {
        match &self.title {
            Some(t) => t.clone(),
            None => String::from_str("Message"),
        }
    }
}

} // verus!
