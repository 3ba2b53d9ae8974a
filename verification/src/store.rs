//! Storage assembly and data migration.
//!
//! The unified store combines an always-present internal (optionally
//! encrypted) component with an external component that is either backed by
//! physical flash or by a volatile in-memory substitute. The substitute is
//! functionally transparent — callers above the store see one interface
//! regardless of backing — but has no durability across reset; only an
//! [`crate::status::InitStatus`] flag reveals the degraded mode.
//!
//! The path-addressed typed file store is modelled as a journal: a write
//! appends one entry, and the current value of a path is the payload of the
//! last entry carrying it. The block device below the journal is a
//! collaborator; its success or failure enters here as a plain boolean.

use vstd::prelude::*;

use crate::status::InitStatus;

verus! {

/// One appended journal entry: a path and the payload written under it.
pub struct FileEntry {
    /// The path the object was written under.
    pub path: Vec<u8>,
    /// The payload of the write.
    pub data: Vec<u8>,
}

/// A path-addressed typed file store, modelled as an append-only journal.
pub struct FileStore {
    entries: Vec<FileEntry>,
}

/// The current value of `path` in the journal `log`: the payload of the
/// last entry carrying `path`, if any.
pub open spec fn current_object(log: Seq<(Seq<u8>, Seq<u8>)>, path: Seq<u8>) -> Option<Seq<u8>>
    decreases log.len(),
{
    if log.len() == 0 {
        None
    } else if log.last().0 == path {
        Some(log.last().1)
    } else {
        current_object(log.drop_last(), path)
    }
}

/// Why a store write was refused.
#[derive(Clone, Copy, Debug, PartialEq, Eq, Structural)]
pub enum StoreError {
    /// The backing block device reported a failure.
    MediaFailure,
}

impl FileStore {
    /// The journal as a sequence of `(path, payload)` pairs.
    pub closed spec fn view(&self) -> Seq<(Seq<u8>, Seq<u8>)> {
        self.entries@.map(|i: int, e: FileEntry| (e.path@, e.data@))
    }

    /// An empty store, as a freshly formatted filesystem presents it.
    pub fn new() -> (r: FileStore)
        ensures
            r@ == Seq::<(Seq<u8>, Seq<u8>)>::empty(),
    {
        let r = FileStore { entries: Vec::new() };
        proof {
            assert(r@ =~= Seq::<(Seq<u8>, Seq<u8>)>::empty());
        }
        r
    }

    /// Writes `data` under `path`. `media_ok` is the backing block
    /// device's report: on failure nothing is appended and the write
    /// surfaces the error.
    pub fn write_object(&mut self, path: Vec<u8>, data: Vec<u8>, media_ok: bool) -> (r: Result<
        (),
        StoreError,
    >)
        ensures
            media_ok ==> r is Ok && final(self)@ == old(self)@.push((path@, data@)),
            !media_ok ==> r == Result::<(), StoreError>::Err(StoreError::MediaFailure)
                && *final(self) == *old(self),
    {
        if media_ok {
            let ghost prior = self@;
            self.entries.push(FileEntry { path, data });
            proof {
                assert(self@ =~= prior.push((self.entries@.last().path@,
                self.entries@.last().data@)));
            }
            Ok(())
        } else {
            Err(StoreError::MediaFailure)
        }
    }

    /// Reads the current value of `path`, scanning the journal from the
    /// newest entry backwards.
    pub fn read_object(&self, path: &Vec<u8>) -> (r: Option<&Vec<u8>>)
        ensures
            match r {
                Some(d) => current_object(self@, path@) == Some(d@),
                None => current_object(self@, path@) is None,
            },
    {
        let mut i: usize = self.entries.len();
        proof {
            assert(self@.take(self.entries@.len() as int) =~= self@);
        }
        while i > 0
            invariant
                i <= self.entries@.len(),
                current_object(self@, path@) == current_object(self@.take(i as int), path@),
            decreases i,
        {
            i = i - 1;
            proof {
                assert(self@.take(i as int + 1).drop_last() =~= self@.take(i as int));
                assert(self@.take(i as int + 1).last() == self@[i as int]);
            }
            if self.entries[i].path == *path {
                proof {
                    assert(self.entries@[i as int].path@ =~= path@);
                }
                return Some(&self.entries[i].data);
            }
            proof {
                assert(self.entries@[i as int].path@ != path@) by {
                    if self.entries@[i as int].path@ == path@ {
                        assert(self.entries@[i as int].path@ =~= path@);
                    }
                }
            }
        }
        proof {
            assert(self@.take(0) =~= Seq::<(Seq<u8>, Seq<u8>)>::empty());
        }
        None
    }
}

/// What backs the external store component.
#[derive(Clone, Copy, Debug, PartialEq, Eq, Structural)]
pub enum ExternalBacking {
    /// Physical external flash was brought up.
    Physical,
    /// A volatile in-memory substitute; identical interface, no durability
    /// across reset.
    Volatile,
}

/// The internal store component: always present, optionally encrypted in
/// place by the flash controller.
pub struct InternalFs {
    /// The filesystem sits on transparently encrypted flash.
    pub encrypted: bool,
    /// The typed file store on this component.
    pub fs: FileStore,
}

impl InternalFs {
    /// A fresh internal component.
    pub fn new(encrypted: bool) -> (r: InternalFs)
        ensures
            r.encrypted == encrypted,
            r.fs@ == Seq::<(Seq<u8>, Seq<u8>)>::empty(),
    {
        InternalFs { encrypted, fs: FileStore::new() }
    }
}

/// The external store component with its backing.
pub struct ExternalFs {
    /// What backs this component.
    pub backing: ExternalBacking,
    /// The typed file store on this component.
    pub fs: FileStore,
}

impl ExternalFs {
    /// An external component on physical flash.
    pub fn physical() -> (r: ExternalFs)
        ensures
            r.backing == ExternalBacking::Physical,
            r.fs@ == Seq::<(Seq<u8>, Seq<u8>)>::empty(),
    {
        ExternalFs { backing: ExternalBacking::Physical, fs: FileStore::new() }
    }

    /// A volatile in-memory substitute of identical interface.
    pub fn volatile() -> (r: ExternalFs)
        ensures
            r.backing == ExternalBacking::Volatile,
            r.fs@ == Seq::<(Seq<u8>, Seq<u8>)>::empty(),
    {
        ExternalFs { backing: ExternalBacking::Volatile, fs: FileStore::new() }
    }

    /// The component is the volatile simulation, not physical flash.
    pub fn is_ram(&self) -> (r: bool)
        ensures
            r == (self.backing == ExternalBacking::Volatile),
    {
        match self.backing {
            ExternalBacking::Volatile => true,
            ExternalBacking::Physical => false,
        }
    }
}

/// Brings up the external store component. `probe_ok` is the outcome of
/// the physical driver probe; on failure the volatile substitute steps in
/// and the degradation is recorded — never fatal.
pub fn setup_external_flash(probe_ok: bool, status: &mut InitStatus) -> (r: ExternalFs)
    ensures
        r.fs@ == Seq::<(Seq<u8>, Seq<u8>)>::empty(),
        probe_ok ==> r.backing == ExternalBacking::Physical && *final(status) == *old(status),
        !probe_ok ==> r.backing == ExternalBacking::Volatile && *final(status) == (InitStatus {
            external_flash_error: true,
            ..*old(status)
        }),
{
    if probe_ok {
        ExternalFs::physical()
    } else {
        status.set_external_flash_error();
        ExternalFs::volatile()
    }
}

/// Which store component a path addresses.
#[derive(Clone, Copy, Debug, PartialEq, Eq, Structural)]
pub enum StorageLocation {
    /// The always-present internal component.
    Internal,
    /// The external component, physical or volatile.
    External,
}

/// The unified persistent store: one interface over both components,
/// whatever backs the external one.
pub struct Store {
    /// The always-present internal component.
    pub internal: InternalFs,
    /// The external component, physical or volatile.
    pub external: ExternalFs,
}

impl Store {
    /// Writes `data` under `path` on the addressed component. The contract
    /// is the same for every backing: only the flags of bring-up reveal a
    /// degraded external component.
    pub fn write(
        &mut self,
        location: StorageLocation,
        path: Vec<u8>,
        data: Vec<u8>,
        media_ok: bool,
    ) -> (r: Result<(), StoreError>)
        ensures
            media_ok ==> r is Ok,
            !media_ok ==> r == Result::<(), StoreError>::Err(StoreError::MediaFailure)
                && *final(self) == *old(self),
            location == StorageLocation::Internal ==> final(self).external == old(self).external
                && final(self).internal.encrypted == old(self).internal.encrypted && (media_ok
                ==> final(self).internal.fs@ == old(self).internal.fs@.push((path@, data@))),
            location == StorageLocation::External ==> final(self).internal == old(self).internal
                && final(self).external.backing == old(self).external.backing && (media_ok
                ==> final(self).external.fs@ == old(self).external.fs@.push((path@, data@))),
    {
        match location {
            StorageLocation::Internal => self.internal.fs.write_object(path, data, media_ok),
            StorageLocation::External => self.external.fs.write_object(path, data, media_ok),
        }
    }

    /// Reads the current value of `path` from the addressed component.
    pub fn read(&self, location: StorageLocation, path: &Vec<u8>) -> (r: Option<&Vec<u8>>)
        ensures
            match r {
                Some(d) => current_object(self.component_log(location), path@) == Some(d@),
                None => current_object(self.component_log(location), path@) is None,
            },
    {
        match location {
            StorageLocation::Internal => self.internal.fs.read_object(path),
            StorageLocation::External => self.external.fs.read_object(path),
        }
    }

    /// The journal of the addressed component.
    pub open spec fn component_log(&self, location: StorageLocation) -> Seq<(Seq<u8>, Seq<u8>)> {
        match location {
            StorageLocation::Internal => self.internal.fs@,
            StorageLocation::External => self.external.fs@,
        }
    }
}

/// Assembles the unified store from its finished components and mounts it.
/// `simulated_efs` tells the mount path that the external component is the
/// volatile simulation, so it skips the consistency pass physical media
/// would get; it must agree with the component's actual backing.
pub fn init_store(
    internal: InternalFs,
    external: ExternalFs,
    simulated_efs: bool,
    status: &mut InitStatus,
) -> (r: Store)
    requires
        simulated_efs == (external.backing == ExternalBacking::Volatile),
    ensures
        r.internal == internal,
        r.external == external,
        *final(status) == *old(status),
{
    Store { internal, external }
}

/// Size in bytes of one internal flash page.
pub const FLASH_PAGE_SIZE: usize = 512;

/// A page reads as undefined: every byte is zero. With the transparent
/// flash encryption off, genuinely written data never decrypts to all
/// zeroes.
pub open spec fn page_undefined(p: Seq<u8>) -> bool {
    forall|j: int| 0 <= j < p.len() ==> p[j] == 0
}

/// The defined pattern a reset page is rewritten with: a single leading
/// one, so the filesystem layer decrypts it to a known state.
pub open spec fn defined_page() -> Seq<u8> {
    Seq::new(FLASH_PAGE_SIZE as nat, |j: int| if j == 0 { 1u8 } else { 0u8 })
}

/// True when every byte of the page is zero.
fn is_page_undefined(p: &Vec<u8>) -> (r: bool)
    ensures
        r == page_undefined(p@),
{
    let mut j: usize = 0;
    while j < p.len()
        invariant
            j <= p@.len(),
            forall|k: int| 0 <= k < j ==> p@[k] == 0,
        decreases p@.len() - j,
    {
        if p[j] != 0 {
            return false;
        }
        j = j + 1;
    }
    true
}

/// Builds the defined replacement pattern for one page.
fn make_defined_page() -> (r: Vec<u8>)
    ensures
        r@ == defined_page(),
{
    let mut v: Vec<u8> = Vec::new();
    v.push(1u8);
    while v.len() < FLASH_PAGE_SIZE
        invariant
            1 <= v@.len() <= FLASH_PAGE_SIZE,
            v@[0] == 1,
            forall|k: int| 1 <= k < v@.len() ==> v@[k] == 0,
        decreases FLASH_PAGE_SIZE - v@.len(),
    {
        v.push(0u8);
    }
    proof {
        assert(v@ =~= defined_page());
    }
    v
}

/// One-time pass over the filesystem region of internal flash, needed when
/// transparent encryption is enabled for the first time after provisioning:
/// a page that still reads as all zeroes is undefined and would fault on a
/// read through the decrypting controller, so it is rewritten with a
/// defined pattern. Defined pages are left exactly as they are.
pub fn initialize_fs_flash(pages: &mut Vec<Vec<u8>>)
    requires
        forall|i: int| 0 <= i < old(pages)@.len() ==> (#[trigger] old(pages)@[i])@.len()
            == FLASH_PAGE_SIZE,
    ensures
        final(pages)@.len() == old(pages)@.len(),
        forall|i: int|
            0 <= i < old(pages)@.len() ==> if page_undefined((#[trigger] old(pages)@[i])@) {
                final(pages)@[i]@ == defined_page()
            } else {
                final(pages)@[i] == old(pages)@[i]
            },
{
    let ghost initial = pages@;
    let mut i: usize = 0;
    while i < pages.len()
        invariant
            i <= pages@.len(),
            pages@.len() == initial.len(),
            forall|k: int|
                0 <= k < i ==> if page_undefined((#[trigger] initial[k])@) {
                    pages@[k]@ == defined_page()
                } else {
                    pages@[k] == initial[k]
                },
            forall|k: int| i <= k < initial.len() ==> pages@[k] == initial[k],
        decreases pages@.len() - i,
    {
        if is_page_undefined(&pages[i]) {
            let fresh = make_defined_page();
            pages[i] = fresh;
        }
        i = i + 1;
    }
}

/// Firmware versions at or below this threshold carry the attestation
/// certificate that a later release re-provisions.
pub const MIGRATION_VERSION_THRESHOLD: u32 = 4194306;

/// The recorded prior firmware version is old enough that the one-time
/// migration applies.
pub open spec fn migration_applies(prior_version: u32) -> bool {
    prior_version <= MIGRATION_VERSION_THRESHOLD
}

/// The internal path of the attestation certificate the migration
/// re-provisions.
pub open spec fn attestation_cert_path() -> Seq<u8> {
    seq![102u8, 105u8, 100u8, 111u8, 47u8, 120u8, 53u8, 99u8, 47u8, 48u8, 48u8]
}

/// Builds the attestation certificate path as bytes.
pub fn fido_cert_path() -> (r: Vec<u8>)
    ensures
        r@ == attestation_cert_path(),
{
    let mut v: Vec<u8> = Vec::new();
    v.push(102u8);
    v.push(105u8);
    v.push(100u8);
    v.push(111u8);
    v.push(47u8);
    v.push(120u8);
    v.push(53u8);
    v.push(99u8);
    v.push(47u8);
    v.push(48u8);
    v.push(48u8);
    proof {
        assert(v@ =~= attestation_cert_path());
    }
    v
}

/// Runs the one-time data migrations, once, right after the store is
/// mounted. With a prior firmware version at or below the threshold the
/// designated attestation certificate is overwritten on the internal
/// component; above the threshold nothing is touched. A failed write is
/// recorded as a status flag — the boot continues on the old data, never
/// fatally.
pub fn perform_data_migrations(
    store: &mut Store,
    status: &mut InitStatus,
    prior_version: u32,
    cert: Vec<u8>,
    media_ok: bool,
)
    ensures
        !migration_applies(prior_version) ==> final(store).internal == old(store).internal
            && final(store).external == old(store).external && *final(status) == *old(status),
        migration_applies(prior_version) && media_ok ==> final(store).internal.fs@ == old(
            store,
        ).internal.fs@.push((attestation_cert_path(), cert@)) && final(store).internal.encrypted
            == old(store).internal.encrypted && final(store).external == old(store).external
            && *final(status) == *old(status),
        migration_applies(prior_version) && !media_ok ==> final(store).internal == old(
            store,
        ).internal && final(store).external == old(store).external && *final(status) == (InitStatus {
            migration_error: true,
            ..*old(status)
        }),
{
    if prior_version <= MIGRATION_VERSION_THRESHOLD {
        let path = fido_cert_path();
        let res = store.write(StorageLocation::Internal, path, cert, media_ok);
        if res.is_err() {
            status.set_migration_error();
        }
    }
}

} // verus!
