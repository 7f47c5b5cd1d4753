//! The two text-to-speech backends a user can choose between.
use vstd::prelude::*;

verus! {

/// Which backend synthesizes a user's messages.
#[derive(Debug, Clone, Copy, PartialEq, Eq, Structural)]
pub enum TTSType {
    GCP,
    VOICEVOX,
}

} // verus!
