//! Fatal bring-up faults.
//!
//! A fatal fault is a violated security or configuration invariant for which
//! no safe substitute exists; the device halts rather than continue in an
//! undefined cryptographic state. Everything recoverable is absorbed into
//! [`crate::status::InitStatus`] instead.

use vstd::prelude::*;

verus! {

/// A configuration fault that aborts bring-up immediately.
#[derive(Clone, Copy, Debug, PartialEq, Eq, Structural)]
pub enum FatalError {
    /// The encryption key slot required for the internal filesystem is not
    /// provisioned.
    KeyNotProvisioned,
    /// The secure companion chip answered its synchronization handshake with
    /// an unexpected response.
    SecureElementHandshake,
}

impl FatalError {
    /// A short diagnostic label for the fault.
    pub fn label(&self) -> (r: String)
        ensures
            r@.len() > 0,
    {
        match self {
            FatalError::KeyNotProvisioned => {
                let s: String = "required encryption key slot not provisioned".to_string();
                proof {
                    reveal_strlit("required encryption key slot not provisioned");
                }
                s
            },
            FatalError::SecureElementHandshake => {
                let s: String = "unexpected secure element handshake response".to_string();
                proof {
                    reveal_strlit("unexpected secure element handshake response");
                }
                s
            },
        }
    }
}

} // verus!
