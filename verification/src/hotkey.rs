//! Hotkey hook stub for platforms without global hotkey support:
//! registration always succeeds and does nothing.
use vstd::prelude::*;

verus! {

/// Hotkey error; this platform stub never produces one.
#[derive(Clone, Copy, PartialEq, Eq, Structural, Debug)]
pub struct HookError;

/// A key identifier; this platform stub distinguishes none.
#[derive(PartialEq, Eq, Structural, Clone, Copy, Debug, Hash)]
pub struct KeyCode;

/// A global hotkey hook; this platform stub never fires a callback.
pub struct Hook;

impl Hook {
    /// Installs the hook; on this platform there is nothing to install.
    pub fn new() -> (r: Result<Hook, HookError>)
        ensures
            r is Ok,
    {
        Ok(Hook)
    }

    /// Registers a callback for a key; on this platform it never fires.
    pub fn register<F: FnMut() + Send + 'static>(&self, _key: KeyCode, _callback: F) -> (r:
        Result<(), HookError>)
        ensures
            r is Ok,
    {
        Ok(())
    }

    /// Unregisters a key's callback.
    pub fn unregister(&self, _key: KeyCode) -> (r: Result<(), HookError>)
        ensures
            r is Ok,
    {
        Ok(())
    }
}

impl core::str::FromStr for KeyCode {
    type Err = ();

    /// Every name parses to the one key this platform stub knows.
    fn from_str(_s: &str) -> Result<KeyCode, ()> {
        Ok(KeyCode)
    }
}

} // verus!
