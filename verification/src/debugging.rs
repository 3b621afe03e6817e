//! Build-mode flag.
//!
//! Whether diagnostics are wanted is an explicit value handed to the engine
//! at construction time, not a process-global flag.

use vstd::prelude::*;

verus! {

/// Whether the engine runs with diagnostics (validation layers and the
/// debug messenger) or without them.
#[derive(Clone, Copy, Debug, PartialEq, Eq, Structural)]
pub enum BuildMode {
    Debug,
    Release,
}

pub fn is_in_release_mode(mode: BuildMode) -> (r: bool)
    ensures
        r == (mode is Release),
{
    match mode {
        BuildMode::Release => true,
        BuildMode::Debug => false,
    }
}

pub fn is_in_debug_mode(mode: BuildMode) -> (r: bool)
    ensures
        r == (mode is Debug),
{
    !is_in_release_mode(mode)
}

} // verus!
