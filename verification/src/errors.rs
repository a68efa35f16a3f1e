//! The ways a save can fail, and the display text each failure carries.

use vstd::prelude::*;

verus! {

/// Abstract form of a save error: the variant together with the character
/// sequence of the operating-system reason, where one exists.
pub enum SaveErrorView {
    DirectoryUnavailable,
    DirectoryCreateFailed(Seq<char>),
    WriteFailed(Seq<char>),
}

/// Why a save could not complete.
#[derive(Debug)]
pub enum SaveError {
    /// The platform could not supply the user's documents directory.
    DirectoryUnavailable,
    /// Creating the application subdirectory failed; holds the reason text.
    DirectoryCreateFailed(String),
    /// Writing the document file failed; holds the reason text.
    WriteFailed(String),
}

impl View for SaveError {
    type V = SaveErrorView;

    open spec fn view(&self) -> SaveErrorView {
        match self {
            SaveError::DirectoryUnavailable => SaveErrorView::DirectoryUnavailable,
            SaveError::DirectoryCreateFailed(reason) => SaveErrorView::DirectoryCreateFailed(
                reason@,
            ),
            SaveError::WriteFailed(reason) => SaveErrorView::WriteFailed(reason@),
        }
    }
}

/// The display text that belongs to each failure.
pub open spec fn message_of(e: SaveErrorView) -> Seq<char> {
    match e {
        SaveErrorView::DirectoryUnavailable => "Could not find documents directory"@,
        SaveErrorView::DirectoryCreateFailed(reason) => "Could not create DocForge directory: "@
            + reason,
        SaveErrorView::WriteFailed(reason) => "Could not save file: "@ + reason,
    }
}

impl SaveError {
    /// Human-readable reason, descriptive enough to display directly.
    pub fn message(&self) -> (r: String)
        ensures
            r@ == message_of(self@),
    {
        match self {
            SaveError::DirectoryUnavailable => "Could not find documents directory".to_owned(),
            SaveError::DirectoryCreateFailed(reason) => {
                let mut out = "Could not create DocForge directory: ".to_owned();
                out.append(reason.as_str());
                out
            },
            SaveError::WriteFailed(reason) => {
                let mut out = "Could not save file: ".to_owned();
                out.append(reason.as_str());
                out
            },
        }
    }
}

} // verus!
