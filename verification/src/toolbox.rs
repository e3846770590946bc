//! The minimal command surface kept alongside the engine: the
//! name/image pair commands operate on, and the session entry point.

use vstd::prelude::*;

verus! {

/// A toolbox container named by the caller: the pair the simple
/// command surface passes around.
#[derive(Debug)]
pub struct RtBox {
    pub name: String,
    pub image: String,
}

/// Enters a session in the named container.  The interactive session
/// handoff is performed by the surrounding binary; the engine itself
/// has nothing to decide for it.
pub fn enter(name: String) {
    let _ = name;
}

} // verus!
