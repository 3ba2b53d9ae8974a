use embedded_runner::clock::ClockConfig;
use embedded_runner::clock::DynamicClockController;
use embedded_runner::error::FatalError;
use embedded_runner::stages::Adc;
use embedded_runner::stages::Anactrl;
use embedded_runner::stages::BringupAbort;
use embedded_runner::stages::Ctimer0;
use embedded_runner::stages::Ctimer1;
use embedded_runner::stages::Ctimer2;
use embedded_runner::stages::Ctimer3;
use embedded_runner::stages::Ctimer4;
use embedded_runner::stages::FlashDevice;
use embedded_runner::stages::Flexcomm0;
use embedded_runner::stages::Flexcomm5;
use embedded_runner::stages::GpioPort;
use embedded_runner::stages::InputMux;
use embedded_runner::stages::Iocon;
use embedded_runner::stages::PfrDevice;
use embedded_runner::stages::Pint;
use embedded_runner::stages::Pmc;
use embedded_runner::stages::PollSample;
use embedded_runner::stages::PrinceDevice;
use embedded_runner::stages::RngDevice;
use embedded_runner::stages::RtcDevice;
use embedded_runner::stages::Syscon;
use embedded_runner::stages::UsbHs;
use embedded_runner::stages::resync_command;
use embedded_runner::stages::run_bringup;
use embedded_runner::stages::start;
use embedded_runner::status::InitStatus;
use embedded_runner::store::ExternalBacking;
use embedded_runner::store::FileStore;
use embedded_runner::store::StorageLocation;
use embedded_runner::store::StoreError;
use embedded_runner::store::fido_cert_path;
use embedded_runner::store::initialize_fs_flash;
use embedded_runner::version::VersionRecord;
use embedded_runner::version::validate_version;

struct BootConfig {
    nfc_irq_low: bool,
    secure_firmware_version: Option<u32>,
    require_prince: bool,
    prince_provisioned: bool,
    boot_to_bootrom: bool,
    button_samples: Vec<PollSample>,
    nfc_enabled: bool,
    provisioner: bool,
    resync_response: Vec<u8>,
    nfc_hw_ok: bool,
    ext_flash_probe_ok: bool,
    encrypted_storage: bool,
    entropy_seed: u64,
    cert: Vec<u8>,
    migration_media_ok: bool,
}

impl BootConfig {
    fn external_power() -> BootConfig {
        BootConfig {
            nfc_irq_low: false,
            secure_firmware_version: Some(4_200_000),
            require_prince: true,
            prince_provisioned: true,
            boot_to_bootrom: false,
            button_samples: Vec::new(),
            nfc_enabled: false,
            provisioner: false,
            resync_response: vec![0xa5, 0xe0],
            nfc_hw_ok: true,
            ext_flash_probe_ok: true,
            encrypted_storage: true,
            entropy_seed: 7,
            cert: vec![0x30, 0x82, 0x01, 0x02],
            migration_media_ok: true,
        }
    }
}

fn boot(
    cfpa: &mut VersionRecord,
    config: BootConfig,
) -> Result<embedded_runner::stages::All, BringupAbort> {
    run_bringup(
        Syscon::claim(),
        Pmc::claim(),
        Anactrl::claim(),
        Iocon::claim(),
        GpioPort::claim(),
        Adc::claim(),
        Ctimer0::claim(),
        Ctimer1::claim(),
        Ctimer2::claim(),
        Ctimer3::claim(),
        Ctimer4::claim(),
        PfrDevice::claim(),
        Flexcomm0::claim(),
        Flexcomm5::claim(),
        InputMux::claim(),
        Pint::claim(),
        UsbHs::claim(),
        RngDevice::claim(),
        PrinceDevice::claim(),
        FlashDevice::claim(),
        RtcDevice::claim(),
        config.nfc_irq_low,
        cfpa,
        config.secure_firmware_version,
        config.require_prince,
        config.prince_provisioned,
        config.boot_to_bootrom,
        &config.button_samples,
        config.nfc_enabled,
        config.provisioner,
        &config.resync_response,
        config.nfc_hw_ok,
        config.ext_flash_probe_ok,
        config.encrypted_storage,
        config.entropy_seed,
        config.cert,
        config.migration_media_ok,
    )
}

#[test]
fn version_updates_when_secure_component_behind() {
    let mut rec = VersionRecord { counter: 5, secure_fw_version: 3, ns_fw_version: 7 };
    let old = validate_version(&mut rec, Some(7));
    assert_eq!(old, 3);
    assert_eq!(rec, VersionRecord { counter: 6, secure_fw_version: 7, ns_fw_version: 7 });
}

#[test]
fn version_updates_when_ns_component_behind() {
    let mut rec = VersionRecord { counter: 10, secure_fw_version: 9, ns_fw_version: 3 };
    let old = validate_version(&mut rec, Some(5));
    assert_eq!(old, 9);
    assert_eq!(rec, VersionRecord { counter: 11, secure_fw_version: 5, ns_fw_version: 5 });
}

#[test]
fn version_unchanged_when_equal() {
    let mut rec = VersionRecord { counter: 5, secure_fw_version: 7, ns_fw_version: 7 };
    let old = validate_version(&mut rec, Some(7));
    assert_eq!(old, 7);
    assert_eq!(rec, VersionRecord { counter: 5, secure_fw_version: 7, ns_fw_version: 7 });
}

#[test]
fn version_unchanged_when_greater() {
    let mut rec = VersionRecord { counter: 5, secure_fw_version: 9, ns_fw_version: 8 };
    let old = validate_version(&mut rec, Some(7));
    assert_eq!(old, 9);
    assert_eq!(rec, VersionRecord { counter: 5, secure_fw_version: 9, ns_fw_version: 8 });
}

#[test]
fn version_unchanged_without_candidate() {
    let mut rec = VersionRecord { counter: 1, secure_fw_version: 2, ns_fw_version: 3 };
    let old = validate_version(&mut rec, None);
    assert_eq!(old, 2);
    assert_eq!(rec, VersionRecord { counter: 1, secure_fw_version: 2, ns_fw_version: 3 });
}

#[test]
fn full_chain_reaches_runtime_context() {
    let mut cfpa =
        VersionRecord { counter: 1, secure_fw_version: 4_200_000, ns_fw_version: 4_200_000 };
    let all = boot(&mut cfpa, BootConfig::external_power()).unwrap();
    assert!(all.usb_nfc.usb_classes.is_some());
    assert!(all.usb_nfc.iso14443.is_none());
    assert!(all.clock_controller.is_none());
    assert!(!all.apps.nfc_powered);
    assert_eq!(
        all.apps.status,
        InitStatus { external_flash_error: false, migration_error: false, nfc_error: false }
    );
    assert_eq!(all.trussed.seed, 7);
    assert_eq!(all.trussed.store.external.backing, ExternalBacking::Physical);
}

#[test]
fn external_flash_failure_degrades_but_boots() {
    // Externally powered, no external flash hardware answers the probe.
    let mut config = BootConfig::external_power();
    config.ext_flash_probe_ok = false;
    let mut cfpa =
        VersionRecord { counter: 1, secure_fw_version: 4_200_000, ns_fw_version: 4_200_000 };
    let all = boot(&mut cfpa, config).unwrap();
    assert!(all.apps.status.external_flash_error);
    assert!(!all.apps.status.migration_error);
    assert_eq!(all.trussed.store.external.backing, ExternalBacking::Volatile);
    assert!(all.usb_nfc.usb_classes.is_some());
}

#[test]
fn missing_key_provisioning_is_fatal() {
    let mut config = BootConfig::external_power();
    config.prince_provisioned = false;
    let mut cfpa =
        VersionRecord { counter: 1, secure_fw_version: 4_200_000, ns_fw_version: 4_200_000 };
    let r = boot(&mut cfpa, config);
    assert!(matches!(r, Err(BringupAbort::Fatal(FatalError::KeyNotProvisioned))));
}

#[test]
fn bad_handshake_is_fatal() {
    let mut config = BootConfig::external_power();
    config.resync_response = vec![0xa5, 0xe1];
    let mut cfpa =
        VersionRecord { counter: 1, secure_fw_version: 4_200_000, ns_fw_version: 4_200_000 };
    let r = boot(&mut cfpa, config);
    assert!(matches!(r, Err(BringupAbort::Fatal(FatalError::SecureElementHandshake))));
}

#[test]
fn held_buttons_jump_to_bootrom() {
    let mut config = BootConfig::external_power();
    config.boot_to_bootrom = true;
    config.button_samples = vec![
        PollSample { all_pressed: true, timer_expired: false },
        PollSample { all_pressed: true, timer_expired: true },
    ];
    let mut cfpa =
        VersionRecord { counter: 1, secure_fw_version: 4_200_000, ns_fw_version: 4_200_000 };
    let r = boot(&mut cfpa, config);
    assert!(matches!(r, Err(BringupAbort::BootToBootrom)));
}

#[test]
fn released_button_cancels_bootrom_request() {
    let mut config = BootConfig::external_power();
    config.boot_to_bootrom = true;
    config.button_samples = vec![
        PollSample { all_pressed: true, timer_expired: false },
        PollSample { all_pressed: false, timer_expired: false },
    ];
    let mut cfpa =
        VersionRecord { counter: 1, secure_fw_version: 4_200_000, ns_fw_version: 4_200_000 };
    assert!(boot(&mut cfpa, config).is_ok());
}

#[test]
fn chain_validates_record_on_the_way() {
    let mut config = BootConfig::external_power();
    config.secure_firmware_version = Some(4_300_000);
    let mut cfpa =
        VersionRecord { counter: 4, secure_fw_version: 4_200_000, ns_fw_version: 4_200_000 };
    boot(&mut cfpa, config).unwrap();
    assert_eq!(
        cfpa,
        VersionRecord { counter: 5, secure_fw_version: 4_300_000, ns_fw_version: 4_300_000 }
    );
}

#[test]
fn migration_overwrites_cert_at_threshold() {
    // Prior firmware version exactly at the migration threshold.
    let mut config = BootConfig::external_power();
    config.secure_firmware_version = Some(4_200_000);
    config.cert = vec![0xde, 0xad, 0xbe, 0xef];
    let mut cfpa =
        VersionRecord { counter: 0, secure_fw_version: 4_194_306, ns_fw_version: 4_194_306 };
    let all = boot(&mut cfpa, config).unwrap();
    let path = fido_cert_path();
    let data = all.trussed.store.read(StorageLocation::Internal, &path);
    assert_eq!(data, Some(&vec![0xde, 0xad, 0xbe, 0xef]));
    assert!(!all.apps.status.migration_error);
}

#[test]
fn migration_skipped_above_threshold() {
    let mut config = BootConfig::external_power();
    config.secure_firmware_version = Some(4_300_000);
    let mut cfpa =
        VersionRecord { counter: 0, secure_fw_version: 4_194_307, ns_fw_version: 4_194_307 };
    let all = boot(&mut cfpa, config).unwrap();
    let path = fido_cert_path();
    assert_eq!(all.trussed.store.read(StorageLocation::Internal, &path), None);
}

#[test]
fn migration_write_failure_sets_flag_only() {
    let mut config = BootConfig::external_power();
    config.migration_media_ok = false;
    let mut cfpa =
        VersionRecord { counter: 0, secure_fw_version: 4_194_306, ns_fw_version: 4_194_306 };
    let all = boot(&mut cfpa, config).unwrap();
    assert!(all.apps.status.migration_error);
    let path = fido_cert_path();
    assert_eq!(all.trussed.store.read(StorageLocation::Internal, &path), None);
}

#[test]
fn field_powered_boot_arms_clock_controller() {
    let mut config = BootConfig::external_power();
    config.nfc_irq_low = true;
    config.nfc_enabled = true;
    let mut cfpa =
        VersionRecord { counter: 1, secure_fw_version: 4_200_000, ns_fw_version: 4_200_000 };
    let all = boot(&mut cfpa, config).unwrap();
    assert!(all.usb_nfc.usb_classes.is_none());
    assert!(all.usb_nfc.iso14443.is_some());
    assert!(all.apps.nfc_powered);
    let controller = all.clock_controller.unwrap();
    assert!(controller.high_voltage_compare_started);
}

#[test]
fn failed_nfc_chip_flags_and_boots() {
    let mut config = BootConfig::external_power();
    config.nfc_irq_low = true;
    config.nfc_enabled = true;
    config.nfc_hw_ok = false;
    let mut cfpa =
        VersionRecord { counter: 1, secure_fw_version: 4_200_000, ns_fw_version: 4_200_000 };
    let all = boot(&mut cfpa, config).unwrap();
    assert!(all.apps.status.nfc_error);
    assert!(all.usb_nfc.iso14443.is_none());
}

#[test]
fn initial_clock_tracks_power_source() {
    let passive = ClockConfig::configure_initial(true);
    assert_eq!(passive.frequency_mhz, 4);
    let powered = ClockConfig::configure_initial(false);
    assert_eq!(powered.frequency_mhz, 96);
}

#[test]
fn mount_boost_and_restore_on_passive_path() {
    let mut cfg = ClockConfig::configure_initial(true);
    cfg.boost_for_mount();
    assert_eq!(cfg.frequency_mhz, 48);
    cfg.restore_after_mount();
    assert_eq!(cfg.frequency_mhz, 12);
}

#[test]
fn mount_boost_is_noop_under_external_power() {
    let mut cfg = ClockConfig::configure_initial(false);
    cfg.boost_for_mount();
    assert_eq!(cfg.frequency_mhz, 96);
    cfg.restore_after_mount();
    assert_eq!(cfg.frequency_mhz, 96);
}

#[test]
fn voltage_sag_steps_clock_down() {
    let controller = DynamicClockController::new();
    let mut cfg = ClockConfig::configure_initial(true);
    controller.on_voltage_sample(&mut cfg, false);
    assert_eq!(cfg.frequency_mhz, 4);
    controller.on_voltage_sample(&mut cfg, true);
    assert_eq!(cfg.frequency_mhz, 12);
}

#[test]
fn resync_command_bytes() {
    assert_eq!(resync_command(), vec![0x5a, 0xc0, 0x00, 0xff, 0xfc]);
}

#[test]
fn fatal_error_labels_are_nonempty() {
    assert!(!FatalError::KeyNotProvisioned.label().is_empty());
    assert!(!FatalError::SecureElementHandshake.label().is_empty());
}

#[test]
fn file_store_reads_latest_write() {
    let mut fs = FileStore::new();
    assert!(fs.write_object(vec![1, 2], vec![10], true).is_ok());
    assert!(fs.write_object(vec![3], vec![20], true).is_ok());
    assert!(fs.write_object(vec![1, 2], vec![30, 31], true).is_ok());
    assert_eq!(fs.read_object(&vec![1, 2]), Some(&vec![30, 31]));
    assert_eq!(fs.read_object(&vec![3]), Some(&vec![20]));
    assert_eq!(fs.read_object(&vec![9]), None);
}

#[test]
fn file_store_failed_write_changes_nothing() {
    let mut fs = FileStore::new();
    let r = fs.write_object(vec![1], vec![10], false);
    assert_eq!(r, Err(StoreError::MediaFailure));
    assert_eq!(fs.read_object(&vec![1]), None);
}

#[test]
fn undefined_flash_pages_get_reset() {
    let zero_page = vec![0u8; 512];
    let mut written_page = vec![0u8; 512];
    written_page[3] = 7;
    let mut pages = vec![zero_page, written_page.clone()];
    initialize_fs_flash(&mut pages);
    let mut expected_reset = vec![0u8; 512];
    expected_reset[0] = 1;
    assert_eq!(pages[0], expected_reset);
    assert_eq!(pages[1], written_page);
}

#[test]
fn chain_stages_cannot_be_skipped() {
    // The only way to a Stage1 is through Stage0::next; the chain runs in
    // order or not at all.
    let stage0 = start(Syscon::claim(), Pmc::claim(), Anactrl::claim());
    assert_eq!(
        stage0.status,
        InitStatus { external_flash_error: false, migration_error: false, nfc_error: false }
    );
    let stage1 = stage0.next(Iocon::claim(), GpioPort::claim(), false);
    assert!(!stage1.clocks.is_nfc_passive);
    assert_eq!(stage1.clocks.frequency_mhz, 96);
}
