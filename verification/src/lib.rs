//! A sandboxed embedding boundary for a document-typesetting engine.
//!
//! The crate hosts the engine behind a small capability surface (source
//! text, binary assets, fonts, the current date) and converts engine
//! results (documents, diagnostics, rendered pages) into flat,
//! ownership-transferable records for a caller on the far side of an
//! ABI boundary.

pub mod clock;
pub mod compiler;
pub mod host;
pub mod lines;
pub mod memory;
pub mod sandbox;
pub mod textfmt;
pub mod types;
pub mod typst_backend;

use vstd::prelude::*;

verus! {

/// Evicts entries of the engine's process-wide memoization cache that are
/// older than `max_age` compilations; 0 evicts everything.
///
/// Relies on comemo::evict, which only touches the global cache and is
/// safe to call at any time.
pub assume_specification[ comemo::evict ](max_age: usize);

/// Resets the process-wide compilation cache, evicting entries older than
/// `max_age_seconds` generations (0 evicts everything). Safe to call at
/// any time, also with no session live.
pub fn typst_net_reset_cache(max_age_seconds: usize) {
    comemo::evict(max_age_seconds);
}

} // verus!
