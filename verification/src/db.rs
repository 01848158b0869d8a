//! The persisted transcript record, as the storage collaborator hands
//! it back: created on successful transcription, never mutated.

use vstd::prelude::*;

verus! {

/// One persisted transcription.
pub struct Transcription {
    pub _id: i64,
    pub text: String,
    pub created_at: String,
}

} // verus!
