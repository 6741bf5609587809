//! Configuration values the assistant runs with.
//!
//! The credentials for the transcription/reply and synthesis collaborators.
//! Locating and parsing the on-disk secrets file is the surrounding
//! application's concern; the library only defines the shape the rest of
//! the code consumes.

use vstd::prelude::*;

verus! {

/// The two collaborator credentials.
#[derive(Clone, Debug)]
pub struct Secrets {
    pub openai_api_key: String,
    pub google_tts_api_key: String,
}

} // verus!
