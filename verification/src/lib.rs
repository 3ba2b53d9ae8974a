//! Runtime core of a battery/USB/NFC-powered security-key controller.
//!
//! The crate models the two safety-critical parts of the firmware runner:
//! the staged, ownership-checked hardware bring-up sequence (clock and power
//! strategy, anti-rollback version validation, storage assembly with
//! degraded-mode fallback, data migration, transport and crypto-service
//! construction) and the steady-state priority scheduler that services the
//! USB and NFC transports against the crypto service under a canonical lock
//! order.
//!
//! Register-level peripheral drivers, byte-level transport framing and the
//! cryptographic algorithms themselves are collaborators outside this crate:
//! they enter the model only as the plain values they produce (a sampled
//! input line, a handshake response, the success or failure of a flash
//! probe).

pub mod clock;
pub mod error;
pub mod locks;
pub mod monotonic;
pub mod runtime;
pub mod sched;
pub mod stages;
pub mod service;
pub mod status;
pub mod store;
pub mod tasks;
pub mod transport;
pub mod version;
