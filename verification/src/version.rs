//! Anti-rollback version guard.
//!
//! A persisted record `{counter, secure_fw_version, ns_fw_version}` ratchets
//! the firmware version forward: whenever either stored component is
//! strictly below the running firmware's candidate version, the record is
//! rewritten atomically to `{counter + 1, candidate, candidate}`; otherwise
//! it is left untouched. The write counter strictly increases on every
//! write, and on the boot paths a real device allows (candidate at or above
//! both stored components) the stored versions never decrease.

use vstd::prelude::*;

verus! {

/// The persisted anti-rollback record.
#[derive(Clone, Copy, Debug, PartialEq, Eq, Structural)]
pub struct VersionRecord {
    /// Monotonic write counter; strictly increases on every rewrite.
    pub counter: u32,
    /// Version of the secure firmware image recorded at the last rewrite.
    pub secure_fw_version: u32,
    /// Version of the non-secure firmware image recorded at the last rewrite.
    pub ns_fw_version: u32,
}

/// The record must be rewritten: one of its components is strictly below
/// the running firmware's candidate version.
pub open spec fn needs_update(rec: VersionRecord, candidate: u32) -> bool {
    rec.secure_fw_version < candidate || rec.ns_fw_version < candidate
}

/// What the record holds after validation against `candidate`.
pub open spec fn validated_record(rec: VersionRecord, candidate: Option<u32>) -> VersionRecord {
    match candidate {
        Some(c) => if needs_update(rec, c) {
            VersionRecord {
                counter: (rec.counter + 1) as u32,
                secure_fw_version: c,
                ns_fw_version: c,
            }
        } else {
            rec
        },
        None => rec,
    }
}

/// Validates the persisted record against the running firmware's candidate
/// version and advances it monotonically when appropriate.
///
/// Returns the secure firmware version the record held before validation;
/// later migration policy is keyed on it.
pub fn validate_version(rec: &mut VersionRecord, candidate: Option<u32>) -> (old_version: u32)
    requires
        (match candidate {
            Some(c) => needs_update(*old(rec), c) ==> old(rec).counter < u32::MAX,
            None => true,
        }),
    ensures
        old_version == old(rec).secure_fw_version,
        *final(rec) == validated_record(*old(rec), candidate),
{
    let old_version = rec.secure_fw_version;
    if let Some(c) = candidate {
        if rec.secure_fw_version < c || rec.ns_fw_version < c {
            rec.counter = rec.counter + 1;
            rec.secure_fw_version = c;
            rec.ns_fw_version = c;
        }
    }
    old_version
}

/// The write counter strictly increases on every rewrite, and a rewrite
/// always happens under a larger candidate.
///
/// Law: for any record and candidate, validation either leaves the record
/// untouched or produces `{counter + 1, candidate, candidate}` — never any
/// third shape.
pub proof fn lemma_validate_shape(rec: VersionRecord, candidate: Option<u32>)
    requires
        (match candidate {
            Some(c) => needs_update(rec, c) ==> rec.counter < u32::MAX,
            None => true,
        }),
    ensures
        validated_record(rec, candidate) == rec || (match candidate {
            Some(c) => validated_record(rec, candidate) == (VersionRecord {
                counter: (rec.counter + 1) as u32,
                secure_fw_version: c,
                ns_fw_version: c,
            }) && validated_record(rec, candidate).counter > rec.counter,
            None => false,
        }),
{
}

/// The anti-rollback ratchet: on every boot path a real device allows — the
/// running firmware's version is never below either persisted component,
/// since boot code refuses rolled-back images — validation never decreases
/// a stored version component.
pub proof fn lemma_ratchet_monotonic(rec: VersionRecord, candidate: u32)
    requires
        candidate >= rec.secure_fw_version,
        candidate >= rec.ns_fw_version,
        needs_update(rec, candidate) ==> rec.counter < u32::MAX,
    ensures
        validated_record(rec, Some(candidate)).secure_fw_version >= rec.secure_fw_version,
        validated_record(rec, Some(candidate)).ns_fw_version >= rec.ns_fw_version,
        validated_record(rec, Some(candidate)).counter >= rec.counter,
{
}

} // verus!
