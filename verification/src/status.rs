//! Accumulated degraded-mode flags.
//!
//! `InitStatus` is written only during bring-up and read-only afterwards: it
//! records every recoverable fault that was absorbed by substitution (a
//! volatile storage fallback, a skipped migration, a missing NFC chip) so
//! that later policy and UI layers can react without the device crashing.

use vstd::prelude::*;

verus! {

/// The set of degraded-mode flags accumulated during bring-up.
///
/// Flags are only ever raised, never cleared: each setter adds one flag and
/// leaves the others untouched.
#[derive(Clone, Copy, Debug, PartialEq, Eq, Structural)]
pub struct InitStatus {
    /// External flash hardware could not be brought up; a volatile
    /// substitute backs the external store.
    pub external_flash_error: bool,
    /// A one-time data migration failed; the device continues on old data.
    pub migration_error: bool,
    /// The NFC frontend chip could not be configured.
    pub nfc_error: bool,
}

impl InitStatus {
    /// True when no degraded-mode flag is set.
    pub open spec fn is_empty(self) -> bool {
        !self.external_flash_error && !self.migration_error && !self.nfc_error
    }

    /// The clean status every boot starts from.
    pub fn empty() -> (r: InitStatus)
        ensures
            r.is_empty(),
    {
        InitStatus { external_flash_error: false, migration_error: false, nfc_error: false }
    }

    /// Records that external flash bring-up failed.
    pub fn set_external_flash_error(&mut self)
        ensures
            *final(self) == (InitStatus { external_flash_error: true, ..*old(self) }),
    {
        self.external_flash_error = true;
    }

    /// Records that a data migration failed.
    pub fn set_migration_error(&mut self)
        ensures
            *final(self) == (InitStatus { migration_error: true, ..*old(self) }),
    {
        self.migration_error = true;
    }

    /// Records that the NFC chip could not be configured.
    pub fn set_nfc_error(&mut self)
        ensures
            *final(self) == (InitStatus { nfc_error: true, ..*old(self) }),
    {
        self.nfc_error = true;
    }
}

} // verus!
