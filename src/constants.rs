use vstd::prelude::*;

verus! {

/// Longest contract title, in UTF-8 bytes.
pub const TITLE_MAX_LENGTH: usize = 100;

/// Longest contract topic, in UTF-8 bytes.
pub const TOPIC_MAX_LENGTH: usize = 500;

} // verus!
