//! A small store of quotes: records are captured from the user and appended
//! to a pretty-printed JSON collection file, which is quarantined to a
//! timestamped backup when it cannot be read.
use vstd::prelude::*;

pub mod backup;
pub mod config;
pub mod json;
pub mod prompt;
pub mod record;
pub mod store;
pub mod text;

verus! {

} // verus!
