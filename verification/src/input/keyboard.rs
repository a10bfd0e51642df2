//! Key identifiers as the input system sees them.

use vstd::prelude::*;

verus! {

/// Code of the Escape key.
pub const KEY_ESCAPE: u32 = 36;

/// A physical key, identified by the number the windowing layer gives it.
#[derive(Clone, Copy, Debug, PartialEq, Eq, Structural)]
pub struct KeyCode {
    pub code: u32,
}

impl KeyCode {
    /// The key with the given number.
    pub fn new(code: u32) -> (key: KeyCode)
        ensures
            key.code == code,
    {
        KeyCode { code }
    }

    /// The Escape key.
    pub fn escape() -> (key: KeyCode)
        ensures
            key.code == KEY_ESCAPE,
    {
        KeyCode { code: KEY_ESCAPE }
    }

    /// Whether this is the Escape key.
    pub fn is_escape(&self) -> (b: bool)
        ensures
            b == (self.code == KEY_ESCAPE),
    {
        self.code == KEY_ESCAPE
    }
}

} // verus!
