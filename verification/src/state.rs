//! The application's modes and the messages exchanged with the background
//! worker. Exactly one mode is active at a time; transitions are the only
//! way the mode changes.

use vstd::prelude::*;
use vstd::string::*;

use crate::cache::ThumbImageMsg;

verus! {

/// The mutually exclusive modes of the user interface.
#[derive(Debug, PartialEq, Eq)]
pub enum AppState {
    Browser,
    Editor { filepath: String },
    RenameConfirm { filepath: String, newfilepath: String },
    ShowError { message: String, next_state: Option<Box<AppState>> },
    DeletePrompt(String),
    UploadPrompt(String),
    Uploading(String),
    Configuration,
}

/// One message on the channel pair between the foreground controller and
/// the background worker. Requests travel forward, responses travel back;
/// both directions share this one type.
#[derive(Debug, PartialEq, Eq)]
pub enum AppMsg {
    LoadImage(ThumbImageMsg),
    ThumbImageResponse(ThumbImageMsg),
    ImageLoadFailed { filename: String, error: String },
    NewAppState(AppState),
    Echo(String),
    UploadImage(String),
    UploadAborted(String),
    UploadComplete(String),
    Error(String),
}

/// The keys the controller reacts to; everything else is `Other`.
#[derive(Clone, Copy, Debug, PartialEq, Eq, Structural)]
pub enum KeyInput {
    Delete,
    Enter,
    Escape,
    ArrowLeft,
    ArrowRight,
    Other,
}

/// What the user asked for through the interface.
#[derive(Clone, Debug, PartialEq, Eq)]
pub enum UserAction {
    /// A thumbnail was clicked in the browser.
    SelectImage { filepath: String },
    /// The configuration screen was opened from the browser.
    OpenConfiguration,
    /// The error screen was acknowledged.
    ErrorContinue,
    /// First-page navigation in the browser.
    PageFirst,
    /// Previous-page navigation in the browser.
    PagePrev,
    /// Next-page navigation in the browser.
    PageNext,
    /// The search box was reset.
    SearchReset,
    /// The editor was left for the browser.
    EditorBack,
    /// Deletion was requested from the editor.
    EditorDelete,
    /// An upload was requested from the editor.
    EditorUpload,
    /// A rename to the given path was requested from the editor.
    EditorRename { newfilepath: String },
    /// The pending prompt (rename, delete or upload) was confirmed.
    Confirm,
    /// The pending prompt was cancelled.
    Cancel,
    /// The configuration screen was left for the browser.
    ConfigBack,
}

/// The outside work a state transition asks for; the controller itself
/// performs none of it.
#[derive(Clone, Debug, PartialEq, Eq)]
pub enum Effect {
    Nothing,
    /// Rename the file on disk, then report the result back.
    RenameFile { from: String, to: String },
    /// Delete the file on disk, then report the result back.
    DeleteFile { filepath: String },
    /// Hand an upload request for the file to the background worker.
    SendUpload { filepath: String },
    /// Write the configuration out, then report the result back.
    SaveConfiguration,
}

/// Builds the string `prefix + rest`.
pub fn prefixed(prefix: &str, rest: &str) -> (r: String)
    ensures
        r@ == prefix@ + rest@,
{
    let mut s = prefix.to_owned();
    s.append(rest);
    s
}

} // verus!
