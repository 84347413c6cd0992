use vstd::prelude::*;

verus! {

/// The credentials that every run reads: an API key and the experience that
/// tasks run in. Stored by the login command, never changed by a run.
pub struct Secrets {
    pub key: String,
    pub universe_id: u64,
    pub place_id: u64,
}

} // verus!
