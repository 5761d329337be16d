//! The gender of a voice, decoded from the provider's numeric code.

use gcloud_sdk::google::cloud::texttospeech::v1::SsmlVoiceGender;
use vstd::prelude::*;
use vstd::string::*;

verus! {

/// The genders a catalog entry can show.
#[derive(Clone, Copy, Debug, PartialEq, Eq, Structural)]
pub enum Gender {
    Unspecified,
    Male,
    Female,
    Neutral,
}

/// The gender that a provider code names, if it names one.
pub open spec fn gender_of_code(code: i32) -> Option<Gender> {
    if code == 0 {
        Some(Gender::Unspecified)
    } else if code == 1 {
        Some(Gender::Male)
    } else if code == 2 {
        Some(Gender::Female)
    } else if code == 3 {
        Some(Gender::Neutral)
    } else {
        None
    }
}

/// The gender shown for a provider code: an unknown code shows as neutral.
pub open spec fn decoded_gender(code: i32) -> Gender {
    match gender_of_code(code) {
        Some(g) => g,
        None => Gender::Neutral,
    }
}

/// The label of a gender, as the catalog shows it.
pub open spec fn gender_label(g: Gender) -> Seq<char> {
    match g {
        Gender::Unspecified => "Unspecified"@,
        Gender::Male => "Male"@,
        Gender::Female => "Female"@,
        Gender::Neutral => "Neutral"@,
    }
}

/// Relies on the `TryFrom<i32>` impl of gcloud-sdk's `SsmlVoiceGender`
/// (derived by prost): codes 0 to 3 give its four variants, any other code
/// gives an error.
#[verifier::external_body]
fn ssml_gender_from_code(code: i32) -> (r: Option<Gender>)
    ensures
        r == gender_of_code(code),
{
    match SsmlVoiceGender::try_from(code) {
        Ok(SsmlVoiceGender::Unspecified) => Some(Gender::Unspecified),
        Ok(SsmlVoiceGender::Male) => Some(Gender::Male),
        Ok(SsmlVoiceGender::Female) => Some(Gender::Female),
        Ok(SsmlVoiceGender::Neutral) => Some(Gender::Neutral),
        Err(_) => None,
    }
}

/// Decodes a provider gender code. This never fails: a code that names no
/// gender decodes to `Gender::Neutral`.
pub fn decode_gender(code: i32) -> (g: Gender)
    ensures
        g == decoded_gender(code),
{
    match ssml_gender_from_code(code) {
        Some(g) => g,
        None => Gender::Neutral,
    }
}

/// A code that names no gender always decodes to neutral.
pub proof fn undecodable_gender_is_neutral(code: i32)
    requires
        gender_of_code(code) is None,
    ensures
        decoded_gender(code) == Gender::Neutral,
        gender_label(decoded_gender(code)) == "Neutral"@,
{
}

impl Gender {
    /// The label of this gender: `"Male"`, `"Female"`, `"Neutral"` or
    /// `"Unspecified"`.
    pub fn label(&self) -> (r: String)
        ensures
            r@ == gender_label(*self),
    {
        match self {
            Gender::Unspecified => String::from_str("Unspecified"),
            Gender::Male => String::from_str("Male"),
            Gender::Female => String::from_str("Female"),
            Gender::Neutral => String::from_str("Neutral"),
        }
    }
}

} // verus!
