//! Where a voice's preview clip is cached, and what reading it gives.

use crate::error::{error_message, VoiceError};
use vstd::prelude::*;
use vstd::string::*;

verus! {

/// The directory, under the resource root, that holds the preview clips.
pub const PREVIEW_CACHE_DIR: &'static str = "preview_cache";

/// The file name of a voice's preview clip.
pub open spec fn preview_file_name_of(voice_name: Seq<char>) -> Seq<char> {
    "voice_"@ + voice_name + ".mp3"@
}

/// The path of a voice's preview clip relative to the resource directory.
pub open spec fn preview_resource_path_of(voice_name: Seq<char>) -> Seq<char> {
    "../resources/preview_cache/"@ + preview_file_name_of(voice_name)
}

/// The file name of a voice's preview clip: `voice_<voice_name>.mp3`.
pub fn preview_file_name(voice_name: &str) -> (r: String)
    ensures
        r@ == preview_file_name_of(voice_name@),
{
    let mut r = String::from_str("voice_");
    r.append(voice_name);
    r.append(".mp3");
    r
}

/// The path of a voice's preview clip relative to the resource directory,
/// as the catalog resolves it.
pub fn preview_resource_path(voice_name: &str) -> (r: String)
    ensures
        r@ == preview_resource_path_of(voice_name@),
{
    let mut r = String::from_str("../resources/preview_cache/");
    let file_name = preview_file_name(voice_name);
    r.append(file_name.as_str());
    proof {
        assert(r@ =~= preview_resource_path_of(voice_name@));
    }
    r
}

/// The path of a preview clip depends on the voice name alone: equal names
/// give equal file names and equal paths.
pub proof fn preview_path_deterministic(a: Seq<char>, b: Seq<char>)
    requires
        a == b,
    ensures
        preview_file_name_of(a) == preview_file_name_of(b),
        preview_resource_path_of(a) == preview_resource_path_of(b),
{
}

/// What a direct preview fetch returns, given what reading the file gave:
/// `None` when no file lies at the expected place, else the read's outcome.
/// The bytes read are returned as they are; a missing file is reported with
/// the file name that was looked for.
pub fn preview_fetch_result(voice_name: &str, read: Option<Result<Vec<u8>, String>>) -> (r: Result<
    Vec<u8>,
    VoiceError,
>)
    ensures
        read is None ==> (r matches Err(VoiceError::PreviewNotFound(f)) && f@
            == preview_file_name_of(voice_name@)),
        read is None ==> (r matches Err(e) && error_message(e)
            == "Voice preview file not found: "@ + preview_file_name_of(voice_name@)),
        read matches Some(Ok(bytes)) ==> (r matches Ok(out) && out@ == bytes@),
        read matches Some(Err(m)) ==> (r matches Err(VoiceError::IoFailure(out)) && out@ == m@),
{
    match read {
        None => Err(VoiceError::PreviewNotFound(preview_file_name(voice_name))),
        Some(Ok(bytes)) => Ok(bytes),
        Some(Err(m)) => Err(VoiceError::IoFailure(m)),
    }
}

} // verus!
