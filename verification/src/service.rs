//! The crypto processing service and the application dispatch table.
//!
//! The service itself — algorithms, credentials, request handling — is an
//! external collaborator. This core instantiates it once at the end of
//! bring-up, bound to the finished store, a generator seeded from the
//! hardware entropy source, a device-unique key for the application
//! dispatcher, and the user-interface sink; afterwards the scheduler only
//! drains its pending operation queue and advances its UI state.

use vstd::prelude::*;

use crate::status::InitStatus;
use crate::store::Store;

verus! {

/// The user-interface sink handed to the crypto service.
#[derive(Clone, Copy, Debug, PartialEq, Eq, Structural)]
pub struct UiState {
    /// Buttons are wired up (absent on the field-powered path).
    pub has_buttons: bool,
    /// The RGB LED is wired up (absent on the field-powered path).
    pub has_rgb: bool,
    /// The device runs the provisioning firmware flavour.
    pub provisioner: bool,
    /// The idle status was shown once bring-up finished.
    pub idle_status_set: bool,
}

impl UiState {
    /// Builds the user-interface sink over whatever input and output
    /// hardware the power path left available.
    pub fn new(has_buttons: bool, has_rgb: bool, provisioner: bool) -> (r: UiState)
        ensures
            r == (UiState { has_buttons, has_rgb, provisioner, idle_status_set: false }),
    {
        UiState { has_buttons, has_rgb, provisioner, idle_status_set: false }
    }

    /// Shows the idle status.
    pub fn set_status_idle(&mut self)
        ensures
            *final(self) == (UiState { idle_status_set: true, ..*old(self) }),
    {
        self.idle_status_set = true;
    }
}

/// The instantiated crypto processing service.
pub struct CryptoService {
    /// The seed drawn from the hardware entropy source at bring-up.
    pub seed: u64,
    /// The device-unique key material handed to the application
    /// dispatcher, where the board provides one.
    pub hw_key: Option<Vec<u8>>,
    /// The unified store the service is bound to.
    pub store: Store,
    /// The user-interface sink.
    pub ui: UiState,
    /// Queued operation identifiers awaiting processing.
    pub pending_ops: Vec<u32>,
    /// How many UI animation ticks have advanced, on the wrapping counter.
    pub ui_ticks: u64,
}

/// Instantiates the crypto service: binds the finished store, the seeded
/// generator, the optional device-unique key and the UI sink. Created
/// exactly once, at the end of bring-up.
pub fn bind_crypto_service(seed: u64, hw_key: Option<Vec<u8>>, store: Store, ui: UiState) -> (r:
    CryptoService)
    ensures
        r.seed == seed,
        r.hw_key == hw_key,
        r.store == store,
        r.ui == ui,
        r.pending_ops@ == Seq::<u32>::empty(),
        r.ui_ticks == 0,
{
    let r = CryptoService { seed, hw_key, store, ui, pending_ops: Vec::new(), ui_ticks: 0 };
    proof {
        assert(r.pending_ops@ =~= Seq::<u32>::empty());
    }
    r
}

/// The application dispatch table, built over the service and the store.
pub struct AppTable {
    /// The bring-up status handed to the applications, read-only, so
    /// policy can react to degraded modes.
    pub status: InitStatus,
    /// The applications were configured for the field-powered path.
    pub nfc_powered: bool,
}

/// Builds the application dispatch table over the running service. The
/// accumulated bring-up status is frozen into it; the service itself is
/// only borrowed for registration and left as it was.
pub fn init_apps(trussed: &mut CryptoService, status: InitStatus, nfc_powered: bool) -> (r:
    AppTable)
    ensures
        *final(trussed) == *old(trussed),
        r.status == status,
        r.nfc_powered == nfc_powered,
{
    AppTable { status, nfc_powered }
}

/// A word of the device-unique key registers, split into its four bytes,
/// most significant first.
pub open spec fn word_be_byte(w: u32, j: int) -> u8 {
    if j == 0 {
        (w >> 24) as u8
    } else if j == 1 {
        (w >> 16) as u8
    } else if j == 2 {
        (w >> 8) as u8
    } else {
        w as u8
    }
}

/// The device-unique key bytes: each register word in order, big-endian.
pub open spec fn device_key_spec(er: Seq<u32>) -> Seq<u8>
    decreases er.len(),
{
    if er.len() == 0 {
        Seq::empty()
    } else {
        device_key_spec(er.drop_last()) + seq![
            word_be_byte(er.last(), 0),
            word_be_byte(er.last(), 1),
            word_be_byte(er.last(), 2),
            word_be_byte(er.last(), 3),
        ]
    }
}

/// Serializes the device-unique key registers into the byte string the
/// application dispatcher is keyed with.
pub fn device_key_bytes(er: &Vec<u32>) -> (r: Vec<u8>)
    requires
        er@.len() * 4 <= usize::MAX,
    ensures
        r@ == device_key_spec(er@),
{
    let mut r: Vec<u8> = Vec::new();
    let mut i: usize = 0;
    proof {
        assert(er@.take(0) =~= Seq::<u32>::empty());
        assert(r@ =~= device_key_spec(er@.take(0)));
    }
    while i < er.len()
        invariant
            i <= er@.len(),
            er@.len() * 4 <= usize::MAX,
            r@ == device_key_spec(er@.take(i as int)),
            r@.len() == i * 4,
        decreases er@.len() - i,
    {
        let w = er[i];
        r.push((w >> 24) as u8);
        r.push((w >> 16) as u8);
        r.push((w >> 8) as u8);
        r.push(w as u8);
        proof {
            assert(er@.take(i as int + 1).drop_last() =~= er@.take(i as int));
            assert(er@.take(i as int + 1).last() == er@[i as int]);
            assert(r@ =~= device_key_spec(er@.take(i as int + 1)));
        }
        i = i + 1;
    }
    proof {
        assert(er@.take(er@.len() as int) =~= er@);
    }
    r
}

} // verus!
