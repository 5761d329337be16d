//! Voice catalog resolution and speech synthesis requests for a cloud
//! text-to-speech provider: which voices are offered, how they are labelled,
//! what a synthesis request asks for, and where a voice's preview clip lives.

pub mod text;
pub mod locale;
pub mod gender;
pub mod catalog;
pub mod error;
pub mod preview;
pub mod synthesis;
