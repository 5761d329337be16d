//! The failures that the library's entry points report.

use vstd::prelude::*;
use vstd::string::*;

verus! {

/// Why an entry point failed. Each carries the descriptive text that the
/// caller is shown.
pub enum VoiceError {
    /// The connection to the provider could not be set up.
    RemoteUnavailable(String),
    /// The provider refused or failed the call.
    RemoteCallFailed(String),
    /// No preview clip lies at the expected place; holds its file name.
    PreviewNotFound(String),
    /// Reading an existing file failed.
    IoFailure(String),
}

/// The text that a caller is shown for an error.
pub open spec fn error_message(e: VoiceError) -> Seq<char> {
    match e {
        VoiceError::RemoteUnavailable(m) => m@,
        VoiceError::RemoteCallFailed(m) => m@,
        VoiceError::PreviewNotFound(file_name) => "Voice preview file not found: "@ + file_name@,
        VoiceError::IoFailure(m) => m@,
    }
}

impl VoiceError {
    /// The text that a caller is shown for this error.
    pub fn message(&self) -> (r: String)
        ensures
            r@ == error_message(*self),
    {
        match self {
            VoiceError::RemoteUnavailable(m) => m.clone(),
            VoiceError::RemoteCallFailed(m) => m.clone(),
            VoiceError::PreviewNotFound(file_name) => {
                let mut r = String::from_str("Voice preview file not found: ");
                r.append(file_name.as_str());
                r
            },
            VoiceError::IoFailure(m) => m.clone(),
        }
    }
}

} // verus!
