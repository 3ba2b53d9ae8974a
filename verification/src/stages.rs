//! The staged, ownership-checked bring-up chain.
//!
//! Each stage owns exactly the peripheral handles not yet consumed; its
//! single `next` operation consumes the stage and the raw inputs it needs
//! and returns the following stage. The chain is forward-only and total:
//! for any valid raw input set it produces exactly one terminal [`All`],
//! except on its two escape paths — a physical-input hold jumps
//! permanently into the boot ROM, and an unrecoverable configuration
//! fault aborts outright. Skipping a stage is impossible to construct:
//! every stage holds a private field of a private type, so only the
//! previous stage's `next` can build it, and a consumed handle cannot be
//! referenced again.
//!
//! Hardware samples and collaborator outcomes enter as plain values: the
//! NFC interrupt line level, the persisted version record, button poll
//! samples, the secure element's handshake response, the external flash
//! probe and the migration write outcome.

use vstd::prelude::*;

use crate::clock::ClockConfig;
use crate::clock::DynamicClockController;
use crate::error::FatalError;
use crate::service::AppTable;
use crate::service::CryptoService;
use crate::service::UiState;
use crate::service::bind_crypto_service;
use crate::service::init_apps;
use crate::status::InitStatus;
use crate::store::ExternalBacking;
use crate::store::ExternalFs;
use crate::store::InternalFs;
use crate::store::Store;
use crate::store::init_store;
use crate::store::migration_applies;
use crate::store::perform_data_migrations;
use crate::store::setup_external_flash;
use crate::transport::UsbNfcInit;
use crate::transport::init_usb_nfc;
use crate::version::VersionRecord;
use crate::version::needs_update;
use crate::version::validate_version;
use crate::version::validated_record;

verus! {

// ---------------------------------------------------------------------
// Raw peripheral handles. Each is a move-only token the board hands out
// once at reset; a transition consumes it and it cannot be referenced
// afterwards.
// ---------------------------------------------------------------------

/// The system configuration controller.
pub struct Syscon {
    claimed: bool,
}

impl Syscon {
    /// Claims the handle from the board, once.
    pub fn claim() -> Syscon {
        Syscon { claimed: true }
    }
}

/// The power management controller.
pub struct Pmc {
    claimed: bool,
}

impl Pmc {
    /// Claims the handle from the board, once.
    pub fn claim() -> Pmc {
        Pmc { claimed: true }
    }
}

/// The analog control block.
pub struct Anactrl {
    claimed: bool,
}

impl Anactrl {
    /// Claims the handle from the board, once.
    pub fn claim() -> Anactrl {
        Anactrl { claimed: true }
    }
}

/// The pin multiplexer.
pub struct Iocon {
    claimed: bool,
}

impl Iocon {
    /// Claims the handle from the board, once.
    pub fn claim() -> Iocon {
        Iocon { claimed: true }
    }
}

/// The GPIO port block.
pub struct GpioPort {
    claimed: bool,
}

impl GpioPort {
    /// Claims the handle from the board, once.
    pub fn claim() -> GpioPort {
        GpioPort { claimed: true }
    }
}

/// The NFC field-detect interrupt input pin, configured by the first
/// stage.
pub struct NfcIrqPin {
    claimed: bool,
}

/// The analog-to-digital converter.
pub struct Adc {
    claimed: bool,
}

impl Adc {
    /// Claims the handle from the board, once.
    pub fn claim() -> Adc {
        Adc { claimed: true }
    }
}

/// Counter/timer 0, used as the delay timer.
pub struct Ctimer0 {
    claimed: bool,
}

impl Ctimer0 {
    /// Claims the handle from the board, once.
    pub fn claim() -> Ctimer0 {
        Ctimer0 { claimed: true }
    }
}

/// Counter/timer 1, used by the buttons.
pub struct Ctimer1 {
    claimed: bool,
}

impl Ctimer1 {
    /// Claims the handle from the board, once.
    pub fn claim() -> Ctimer1 {
        Ctimer1 { claimed: true }
    }
}

/// Counter/timer 2, reserved for the secure element.
pub struct Ctimer2 {
    claimed: bool,
}

impl Ctimer2 {
    /// Claims the handle from the board, once.
    pub fn claim() -> Ctimer2 {
        Ctimer2 { claimed: true }
    }
}

/// Counter/timer 3, used for the LED PWM.
pub struct Ctimer3 {
    claimed: bool,
}

impl Ctimer3 {
    /// Claims the handle from the board, once.
    pub fn claim() -> Ctimer3 {
        Ctimer3 { claimed: true }
    }
}

/// Counter/timer 4, used as the performance timer.
pub struct Ctimer4 {
    claimed: bool,
}

impl Ctimer4 {
    /// Claims the handle from the board, once.
    pub fn claim() -> Ctimer4 {
        Ctimer4 { claimed: true }
    }
}

/// The protected flash region controller holding the version record.
pub struct PfrDevice {
    claimed: bool,
}

impl PfrDevice {
    /// Claims the handle from the board, once.
    pub fn claim() -> PfrDevice {
        PfrDevice { claimed: true }
    }
}

/// Flexcomm 0, enabled as the SPI bus.
pub struct Flexcomm0 {
    claimed: bool,
}

impl Flexcomm0 {
    /// Claims the handle from the board, once.
    pub fn claim() -> Flexcomm0 {
        Flexcomm0 { claimed: true }
    }
}

/// Flexcomm 5, enabled as the secure element's I2C bus.
pub struct Flexcomm5 {
    claimed: bool,
}

impl Flexcomm5 {
    /// Claims the handle from the board, once.
    pub fn claim() -> Flexcomm5 {
        Flexcomm5 { claimed: true }
    }
}

/// The input multiplexer.
pub struct InputMux {
    claimed: bool,
}

impl InputMux {
    /// Claims the handle from the board, once.
    pub fn claim() -> InputMux {
        InputMux { claimed: true }
    }
}

/// The pin interrupt block.
pub struct Pint {
    claimed: bool,
}

impl Pint {
    /// Claims the handle from the board, once.
    pub fn claim() -> Pint {
        Pint { claimed: true }
    }
}

/// The high-speed USB device controller.
pub struct UsbHs {
    claimed: bool,
}

impl UsbHs {
    /// Claims the handle from the board, once.
    pub fn claim() -> UsbHs {
        UsbHs { claimed: true }
    }
}

/// The hardware random number generator.
pub struct RngDevice {
    claimed: bool,
}

impl RngDevice {
    /// Claims the handle from the board, once.
    pub fn claim() -> RngDevice {
        RngDevice { claimed: true }
    }
}

/// The transparent flash encryption engine.
pub struct PrinceDevice {
    claimed: bool,
}

impl PrinceDevice {
    /// Claims the handle from the board, once.
    pub fn claim() -> PrinceDevice {
        PrinceDevice { claimed: true }
    }
}

/// The internal flash controller.
pub struct FlashDevice {
    claimed: bool,
}

impl FlashDevice {
    /// Claims the handle from the board, once.
    pub fn claim() -> FlashDevice {
        FlashDevice { claimed: true }
    }
}

/// The real-time counter.
pub struct RtcDevice {
    claimed: bool,
}

impl RtcDevice {
    /// Claims the handle from the board, once.
    pub fn claim() -> RtcDevice {
        RtcDevice { claimed: true }
    }
}

/// An enabled SPI bus, produced inside the chain.
pub struct Spi {
    enabled: bool,
}

/// An enabled USB bus, produced inside the chain.
pub struct UsbBus {
    enabled: bool,
}

/// A configured NFC frontend chip, produced inside the chain.
pub struct NfcChip {
    enabled: bool,
}

/// An enabled I2C bus to the secure element, produced inside the chain.
pub struct I2cBus {
    enabled: bool,
}

/// An enabled timer, produced inside the chain.
pub struct Timer {
    enabled: bool,
}

/// The three-button input device.
pub struct ThreeButtons {
    enabled: bool,
}

/// The RGB status LED.
pub struct RgbLed {
    enabled: bool,
}

/// What the SPI bus was configured for.
#[derive(Clone, Copy, Debug, PartialEq, Eq, Structural)]
pub enum SpiConfig {
    /// Wired to the NFC frontend chip.
    Nfc,
    /// Wired to the external flash.
    ExternalFlash,
}

// ---------------------------------------------------------------------
// Stage-internal aggregates.
// ---------------------------------------------------------------------

/// The power and clock controllers a stage still owns. Opaque: only the
/// chain itself can build or open one, so a stage cannot be forged.
pub struct Peripherals {
    syscon: Syscon,
    pmc: Pmc,
    anactrl: Anactrl,
}

/// The configured pin hardware a stage still owns. Opaque, as
/// [`Peripherals`] is.
pub struct Pins {
    iocon: Iocon,
    gpio: GpioPort,
    nfc_irq: Option<NfcIrqPin>,
}

/// The enabled flash machinery a stage still owns. Opaque, as
/// [`Peripherals`] is.
pub struct FlashParts {
    flash: FlashDevice,
    prince: PrinceDevice,
    rng: RngDevice,
}

/// The basics every later stage carries: timers, optional input/output
/// hardware, and the firmware version recorded before validation.
pub struct Basic {
    /// The general-purpose delay timer.
    pub delay_timer: Timer,
    /// The boot performance timer.
    pub perf_timer: Timer,
    /// The ADC, kept for the dynamic clock controller.
    pub adc: Option<Adc>,
    /// The buttons; absent on the field-powered path.
    pub three_buttons: Option<ThreeButtons>,
    /// The RGB LED, until the UI takes it.
    pub rgb: Option<RgbLed>,
    /// The secure firmware version the record held before validation.
    pub old_firmware_version: u32,
}

/// How the bring-up chain escapes without reaching [`All`].
#[derive(Clone, Copy, Debug, PartialEq, Eq, Structural)]
pub enum BringupAbort {
    /// The physical-input hold timeout fired: permanent jump into the
    /// boot ROM; the device never returns to normal sequencing.
    BootToBootrom,
    /// An unrecoverable configuration fault: halt immediately, no retry.
    Fatal(FatalError),
}

// ---------------------------------------------------------------------
// Button-hold sampling.
// ---------------------------------------------------------------------

/// One poll of the three buttons against the hold timer.
#[derive(Clone, Copy, Debug, PartialEq, Eq, Structural)]
pub struct PollSample {
    /// All three buttons read pressed.
    pub all_pressed: bool,
    /// The hold timer has expired.
    pub timer_expired: bool,
}

/// The sample settles the poll loop: a released button or an expired
/// timer.
pub open spec fn sample_decides(s: PollSample) -> bool {
    !s.all_pressed || s.timer_expired
}

/// What the poll loop decides at the first deciding sample: jump to the
/// boot ROM only when the buttons were still held when the timer expired.
pub open spec fn bootrom_decision(samples: Seq<PollSample>) -> bool
    decreases samples.len(),
{
    if samples.len() == 0 {
        false
    } else if sample_decides(samples[0]) {
        samples[0].all_pressed && samples[0].timer_expired
    } else {
        bootrom_decision(samples.drop_first())
    }
}

/// Some sample settles the loop, so it terminates.
pub open spec fn eventually_decided(samples: Seq<PollSample>) -> bool {
    exists|i: int| 0 <= i < samples.len() && sample_decides(#[trigger] samples[i])
}

// ---------------------------------------------------------------------
// The stages.
// ---------------------------------------------------------------------

/// The first stage: owns the bare power and clock controllers.
pub struct Stage0 {
    /// The accumulating bring-up status.
    pub status: InitStatus,
    /// Hardware the chain still owns; opaque.
    pub peripherals: Peripherals,
}

/// Opens the chain over the raw power and clock controllers.
pub fn start(syscon: Syscon, pmc: Pmc, anactrl: Anactrl) -> (r: Stage0)
    ensures
        r.status.is_empty(),
{
    let status = InitStatus::empty();
    let peripherals = Peripherals { syscon, pmc, anactrl };
    Stage0 { status, peripherals }
}

impl Stage0 {
    /// Configures the NFC interrupt input with its pull-up and samples
    /// it: a low line means the device hangs in a passive NFC field.
    fn enable_low_speed_for_passive_nfc(&mut self, iocon: Iocon, gpio: &mut GpioPort,
        nfc_irq_low: bool) -> (r: (Iocon, NfcIrqPin, bool))
        ensures
            r.2 == nfc_irq_low,
            *final(self) == *old(self),
    {
        let _ = gpio;
        let pin = NfcIrqPin { claimed: true };
        (iocon, pin, nfc_irq_low)
    }

    /// Selects the initial system clock from the sampled power source:
    /// slow under a passive field's power budget, full speed otherwise.
    fn enable_clocks(&mut self, is_nfc_passive: bool) -> (r: ClockConfig)
        ensures
            r.is_nfc_passive == is_nfc_passive,
            r.frequency_mhz == crate::clock::initial_frequency(is_nfc_passive),
            *final(self) == *old(self),
    {
        ClockConfig::configure_initial(is_nfc_passive)
    }

    /// Determines the power source from the sampled NFC interrupt line,
    /// fixes the initial clock frequency accordingly, and hands the pin
    /// hardware on.
    pub fn next(self, iocon: Iocon, gpio: GpioPort, nfc_irq_low: bool) -> (r: Stage1)
        ensures
            r.status == self.status,
            r.clocks.is_nfc_passive == nfc_irq_low,
            r.clocks.frequency_mhz == crate::clock::initial_frequency(nfc_irq_low),
    {
        let mut this = self;
        let mut gpio = gpio;
        let (iocon, nfc_irq, is_nfc_passive) = this.enable_low_speed_for_passive_nfc(
            iocon,
            &mut gpio,
            nfc_irq_low,
        );
        let clocks = this.enable_clocks(is_nfc_passive);
        Stage1 {
            status: this.status,
            peripherals: this.peripherals,
            clocks,
            pins: Pins { iocon, gpio, nfc_irq: Some(nfc_irq) },
        }
    }
}

/// The second stage: clocks selected, pins configured.
pub struct Stage1 {
    /// The accumulating bring-up status.
    pub status: InitStatus,
    /// The selected clock configuration.
    pub clocks: ClockConfig,
    /// Hardware the chain still owns; opaque.
    pub peripherals: Peripherals,
    /// Hardware the chain still owns; opaque.
    pub pins: Pins,
}

impl Stage1 {
    /// Validates the persisted anti-rollback record against the running
    /// firmware's candidate version, advancing it monotonically when
    /// appropriate, and checks that the encryption key slot the internal
    /// filesystem needs is provisioned. Returns the secure version the
    /// record held before validation; a missing key provisioning is an
    /// unrecoverable configuration fault.
    pub fn validate_cfpa(
        cfpa: &mut VersionRecord,
        current_version: Option<u32>,
        require_prince: bool,
        prince_provisioned: bool,
    ) -> (r: Result<u32, FatalError>)
        requires
            (match current_version {
                Some(c) => needs_update(*old(cfpa), c) ==> old(cfpa).counter < u32::MAX,
                None => true,
            }),
        ensures
            *final(cfpa) == validated_record(*old(cfpa), current_version),
            r == if require_prince && !prince_provisioned {
                Result::<u32, FatalError>::Err(FatalError::KeyNotProvisioned)
            } else {
                Result::<u32, FatalError>::Ok(old(cfpa).secure_fw_version)
            },
    {
        let old_version = validate_version(cfpa, current_version);
        if require_prince && !prince_provisioned {
            return Err(FatalError::KeyNotProvisioned);
        }
        Ok(old_version)
    }

    /// Walks the button poll samples as the hold loop does: gives up as
    /// soon as a button is released, jumps to the boot ROM if all three
    /// were still held when the hold timer expired.
    pub fn is_bootrom_requested(&self, samples: &Vec<PollSample>) -> (r: bool)
        requires
            eventually_decided(samples@),
        ensures
            r == bootrom_decision(samples@),
    {
        let mut i: usize = 0;
        proof {
            assert(samples@.skip(0) =~= samples@);
        }
        while i < samples.len()
            invariant
                i <= samples@.len(),
                bootrom_decision(samples@) == bootrom_decision(samples@.skip(i as int)),
                eventually_decided(samples@.skip(i as int)),
            decreases samples@.len() - i,
        {
            let s = samples[i];
            proof {
                assert(samples@.skip(i as int)[0] == samples@[i as int]);
            }
            if !s.all_pressed {
                return false;
            }
            if s.timer_expired {
                return true;
            }
            proof {
                assert(samples@.skip(i as int).drop_first() =~= samples@.skip(i as int + 1));
                assert(eventually_decided(samples@.skip(i as int + 1))) by {
                    let k = choose|k: int|
                        0 <= k < samples@.skip(i as int).len() && sample_decides(
                            #[trigger] samples@.skip(i as int)[k],
                        );
                    assert(k != 0);
                    assert(samples@.skip(i as int + 1)[k - 1] == samples@.skip(i as int)[k]);
                    assert(sample_decides(samples@.skip(i as int + 1)[k - 1]));
                }
            }
            i = i + 1;
        }
        proof {
            assert(samples@.skip(samples@.len() as int).len() == 0);
            assert(false);
        }
        false
    }

    /// Enables the LED PWM over its timer.
    fn init_rgb(&mut self, ctimer: Ctimer3) -> (r: RgbLed)
        ensures
            *final(self) == *old(self),
    {
        let _ = ctimer;
        RgbLed { enabled: true }
    }

    /// Enables the three-button input over its timer.
    fn init_buttons(&mut self, ctimer: Ctimer1) -> (r: ThreeButtons)
        ensures
            *final(self) == *old(self),
    {
        let _ = ctimer;
        ThreeButtons { enabled: true }
    }

    /// Enables the timers, ADC, LED and (when externally powered) the
    /// buttons; validates the anti-rollback record through `cfpa`, which
    /// models the persistent cell behind the protected flash controller;
    /// and honours a boot ROM request held through the buttons. A missing
    /// key provisioning aborts fatally; the boot ROM jump never returns
    /// to the chain.
    pub fn next(
        self,
        adc: Adc,
        delay_timer: Ctimer0,
        ctimer1: Ctimer1,
        ctimer2: Ctimer2,
        ctimer3: Ctimer3,
        perf_timer: Ctimer4,
        pfr: PfrDevice,
        cfpa: &mut VersionRecord,
        secure_firmware_version: Option<u32>,
        require_prince: bool,
        prince_provisioned: bool,
        boot_to_bootrom: bool,
        button_samples: &Vec<PollSample>,
    ) -> (r: Result<Stage2, BringupAbort>)
        requires
            (match secure_firmware_version {
                Some(c) => needs_update(*old(cfpa), c) ==> old(cfpa).counter < u32::MAX,
                None => true,
            }),
            boot_to_bootrom && !self.clocks.is_nfc_passive ==> eventually_decided(
                button_samples@,
            ),
        ensures
            *final(cfpa) == validated_record(*old(cfpa), secure_firmware_version),
            require_prince && !prince_provisioned ==> r == Result::<Stage2, BringupAbort>::Err(
                BringupAbort::Fatal(FatalError::KeyNotProvisioned),
            ),
            !(require_prince && !prince_provisioned) && boot_to_bootrom
                && !self.clocks.is_nfc_passive && bootrom_decision(button_samples@) ==> r
                == Result::<Stage2, BringupAbort>::Err(BringupAbort::BootToBootrom),
            !(require_prince && !prince_provisioned) && !(boot_to_bootrom
                && !self.clocks.is_nfc_passive && bootrom_decision(button_samples@)) ==> (
            match r {
                Ok(s2) => {
                    &&& s2.status == self.status
                    &&& s2.clocks == self.clocks
                    &&& s2.basic.old_firmware_version == old(cfpa).secure_fw_version
                    &&& s2.basic.adc is Some
                    &&& s2.basic.rgb is Some
                    &&& (s2.basic.three_buttons is Some <==> !self.clocks.is_nfc_passive)
                },
                Err(_) => false,
            }),
    {
        let mut this = self;
        let _ = pfr;
        let _ = ctimer2;

        let adc_enabled = Some(adc);
        let _ = delay_timer;
        let delay = Timer { enabled: true };
        let perf = Timer { enabled: true };
        let _ = perf_timer;

        let rgb = this.init_rgb(ctimer3);

        let three_buttons = if !this.clocks.is_nfc_passive {
            Some(this.init_buttons(ctimer1))
        } else {
            let _ = ctimer1;
            None
        };

        let validated = Stage1::validate_cfpa(
            cfpa,
            secure_firmware_version,
            require_prince,
            prince_provisioned,
        );
        let old_firmware_version = match validated {
            Ok(v) => v,
            Err(e) => {
                return Err(BringupAbort::Fatal(e));
            },
        };

        if boot_to_bootrom && three_buttons.is_some() {
            if this.is_bootrom_requested(button_samples) {
                return Err(BringupAbort::BootToBootrom);
            }
        }

        let basic = Basic {
            delay_timer: delay,
            perf_timer: perf,
            adc: adc_enabled,
            three_buttons,
            rgb: Some(rgb),
            old_firmware_version,
        };
        Ok(
            Stage2 {
                status: this.status,
                peripherals: this.peripherals,
                clocks: this.clocks,
                pins: this.pins,
                basic,
                se050_timer: Timer { enabled: true },
            },
        )
    }
}

/// The third stage: timers and inputs live, version record validated.
pub struct Stage2 {
    /// The accumulating bring-up status.
    pub status: InitStatus,
    /// The selected clock configuration.
    pub clocks: ClockConfig,
    /// Timers, inputs and the pre-validation firmware version.
    pub basic: Basic,
    /// Hardware the chain still owns; opaque.
    pub peripherals: Peripherals,
    /// Hardware the chain still owns; opaque.
    pub pins: Pins,
    /// Hardware the chain still owns; opaque.
    pub se050_timer: Timer,
}

/// The synchronization command sent to the secure companion chip.
pub open spec fn resync_command_spec() -> Seq<u8> {
    seq![0x5au8, 0xc0u8, 0x00u8, 0xffu8, 0xfcu8]
}

/// The only handshake response the secure companion chip may give.
pub open spec fn resync_response_ok(response: Seq<u8>) -> bool {
    response == seq![0xa5u8, 0xe0u8]
}

/// Builds the synchronization command for the secure companion chip.
pub fn resync_command() -> (r: Vec<u8>)
    ensures
        r@ == resync_command_spec(),
{
    let mut v: Vec<u8> = Vec::new();
    v.push(0x5au8);
    v.push(0xc0u8);
    v.push(0x00u8);
    v.push(0xffu8);
    v.push(0xfcu8);
    proof {
        assert(v@ =~= resync_command_spec());
    }
    v
}

impl Stage2 {
    /// Enables the SPI bus for its configured wiring.
    fn setup_spi(&mut self, flexcomm0: Flexcomm0, config: SpiConfig) -> (r: Spi)
        ensures
            *final(self) == *old(self),
    {
        let _ = flexcomm0;
        let _ = config;
        Spi { enabled: true }
    }

    /// Enables the USB device controller and hands out the bus.
    fn setup_usb_bus(&mut self, usbhs: UsbHs) -> (r: UsbBus)
        ensures
            *final(self) == *old(self),
    {
        let _ = usbhs;
        UsbBus { enabled: true }
    }

    /// Tries to configure the NFC frontend chip over the SPI bus; a chip
    /// that cannot be configured is recorded as a status flag and the
    /// boot continues without a contactless transport.
    fn setup_fm11nc08(
        &mut self,
        spi: Spi,
        mux: InputMux,
        pint: Pint,
        nfc_hw_ok: bool,
    ) -> (r: Option<NfcChip>)
        ensures
            r is Some <==> nfc_hw_ok,
            final(self).status == (InitStatus {
                nfc_error: old(self).status.nfc_error || !nfc_hw_ok,
                ..old(self).status
            }),
            final(self).clocks == old(self).clocks,
            final(self).basic == old(self).basic,
    {
        let _ = spi;
        let _ = mux;
        let _ = pint;
        if nfc_hw_ok {
            Some(NfcChip { enabled: true })
        } else {
            self.status.set_nfc_error();
            None
        }
    }

    /// Brings up the I2C bus to the secure companion chip and checks its
    /// synchronization handshake: any unexpected response is an
    /// unrecoverable configuration fault.
    fn get_se050_i2c(&mut self, flexcomm5: Flexcomm5, resync_response: &Vec<u8>) -> (r: Result<
        I2cBus,
        FatalError,
    >)
        ensures
            resync_response_ok(resync_response@) ==> r is Ok,
            !resync_response_ok(resync_response@) ==> r == Result::<I2cBus, FatalError>::Err(
                FatalError::SecureElementHandshake,
            ),
            *final(self) == *old(self),
    {
        let _ = flexcomm5;
        if resync_response.len() == 2 && resync_response[0] == 0xa5 && resync_response[1] == 0xe0 {
            proof {
                assert(resync_response@ =~= seq![0xa5u8, 0xe0u8]);
            }
            Ok(I2cBus { enabled: true })
        } else {
            Err(FatalError::SecureElementHandshake)
        }
    }

    /// Checks the secure companion chip's handshake, configures the SPI
    /// bus for the NFC chip or the external flash, and builds the USB
    /// stack when externally powered. The NFC path is taken only when
    /// enabled and either field-powered or running the provisioning
    /// flavour.
    pub fn next(
        self,
        flexcomm0: Flexcomm0,
        flexcomm5: Flexcomm5,
        mux: InputMux,
        pint: Pint,
        usbhs: UsbHs,
        nfc_enabled: bool,
        provisioner: bool,
        resync_response: &Vec<u8>,
        nfc_hw_ok: bool,
    ) -> (r: Result<Stage3, FatalError>)
        ensures
            !resync_response_ok(resync_response@) ==> r == Result::<Stage3, FatalError>::Err(
                FatalError::SecureElementHandshake,
            ),
            resync_response_ok(resync_response@) ==> (match r {
                Ok(s3) => {
                    let use_nfc = nfc_enabled && (provisioner || self.clocks.is_nfc_passive);
                    &&& s3.status == (InitStatus {
                        nfc_error: self.status.nfc_error || (use_nfc && !nfc_hw_ok),
                        ..self.status
                    })
                    &&& s3.clocks == self.clocks
                    &&& s3.basic == self.basic
                    &&& (s3.usb_nfc.usb_classes is Some <==> !self.clocks.is_nfc_passive)
                    &&& (s3.usb_nfc.iso14443 is Some <==> use_nfc && nfc_hw_ok)
                    &&& !s3.usb_nfc.apdu_dispatch.usb_pending
                    &&& !s3.usb_nfc.apdu_dispatch.nfc_pending
                    &&& !s3.usb_nfc.ctaphid_dispatch.pending
                    &&& (s3.has_spi() <==> !use_nfc)
                },
                Err(_) => false,
            }),
    {
        let mut this = self;
        let se050_i2c = match this.get_se050_i2c(flexcomm5, resync_response) {
            Ok(bus) => bus,
            Err(e) => {
                return Err(e);
            },
        };

        let use_nfc = nfc_enabled && (provisioner || this.clocks.is_nfc_passive);
        let (nfc_chip, spi) = if use_nfc {
            let spi = this.setup_spi(flexcomm0, SpiConfig::Nfc);
            let chip = this.setup_fm11nc08(spi, mux, pint, nfc_hw_ok);
            (chip, None)
        } else {
            let _ = mux;
            let _ = pint;
            let spi = this.setup_spi(flexcomm0, SpiConfig::ExternalFlash);
            (None, Some(spi))
        };

        let usb_bus = if !this.clocks.is_nfc_passive {
            Some(this.setup_usb_bus(usbhs))
        } else {
            let _ = usbhs;
            None
        };

        let usb_nfc = init_usb_nfc(usb_bus.is_some(), nfc_chip.is_some());
        Ok(
            Stage3 {
                status: this.status,
                peripherals: this.peripherals,
                clocks: this.clocks,
                pins: this.pins,
                basic: this.basic,
                usb_nfc,
                spi,
                se050_timer: this.se050_timer,
                se050_i2c,
            },
        )
    }
}

/// The fourth stage: transports constructed, SPI possibly kept for the
/// external flash.
pub struct Stage3 {
    /// The accumulating bring-up status.
    pub status: InitStatus,
    /// The selected clock configuration.
    pub clocks: ClockConfig,
    /// Timers, inputs and the pre-validation firmware version.
    pub basic: Basic,
    /// The constructed transport stacks.
    pub usb_nfc: UsbNfcInit,
    /// Hardware the chain still owns; opaque.
    pub peripherals: Peripherals,
    /// Hardware the chain still owns; opaque.
    pub pins: Pins,
    /// Hardware the chain still owns; opaque.
    pub spi: Option<Spi>,
    /// Hardware the chain still owns; opaque.
    pub se050_timer: Timer,
    /// Hardware the chain still owns; opaque.
    pub se050_i2c: I2cBus,
}

impl Stage3 {
    /// The SPI bus is still available for the external flash.
    pub closed spec fn has_spi(&self) -> bool {
        self.spi is Some
    }

    /// Enables the random number generator, the transparent flash
    /// encryption engine and the internal flash controller.
    pub fn next(self, rng: RngDevice, prince: PrinceDevice, flash: FlashDevice) -> (r: Stage4)
        ensures
            r.status == self.status,
            r.clocks == self.clocks,
            r.basic == self.basic,
            r.usb_nfc == self.usb_nfc,
            r.has_spi() == self.has_spi(),
    {
        Stage4 {
            status: self.status,
            peripherals: self.peripherals,
            clocks: self.clocks,
            pins: self.pins,
            basic: self.basic,
            usb_nfc: self.usb_nfc,
            spi: self.spi,
            flash: FlashParts { flash, prince, rng },
            se050_timer: self.se050_timer,
            se050_i2c: self.se050_i2c,
        }
    }
}

/// The fifth stage: flash machinery enabled, ready to assemble storage.
pub struct Stage4 {
    /// The accumulating bring-up status.
    pub status: InitStatus,
    /// The selected clock configuration.
    pub clocks: ClockConfig,
    /// Timers, inputs and the pre-validation firmware version.
    pub basic: Basic,
    /// The constructed transport stacks.
    pub usb_nfc: UsbNfcInit,
    /// Hardware the chain still owns; opaque.
    pub peripherals: Peripherals,
    /// Hardware the chain still owns; opaque.
    pub pins: Pins,
    /// Hardware the chain still owns; opaque.
    pub spi: Option<Spi>,
    /// Hardware the chain still owns; opaque.
    pub flash: FlashParts,
    /// Hardware the chain still owns; opaque.
    pub se050_timer: Timer,
    /// Hardware the chain still owns; opaque.
    pub se050_i2c: I2cBus,
}

impl Stage4 {
    /// The SPI bus is still available for the external flash.
    pub closed spec fn has_spi(&self) -> bool {
        self.spi is Some
    }

    /// Assembles the unified store. The external component comes up on
    /// physical flash only where the SPI bus was kept and the probe
    /// answered; otherwise the volatile substitute steps in, flagged only
    /// when configured hardware failed. The clock is boosted for the
    /// mount and restored to the power-appropriate frequency afterwards.
    pub fn next(self, ext_flash_probe_ok: bool, encrypted_storage: bool) -> (r: Stage5)
        ensures
            r.status == (InitStatus {
                external_flash_error: self.status.external_flash_error || (self.has_spi()
                    && !ext_flash_probe_ok),
                ..self.status
            }),
            r.clocks.is_nfc_passive == self.clocks.is_nfc_passive,
            r.clocks.frequency_mhz == if self.clocks.is_nfc_passive {
                crate::clock::PASSIVE_RUN_MHZ
            } else {
                self.clocks.frequency_mhz
            },
            r.basic == self.basic,
            r.store.internal.encrypted == encrypted_storage,
            r.store.internal.fs@ == Seq::<(Seq<u8>, Seq<u8>)>::empty(),
            r.store.external.fs@ == Seq::<(Seq<u8>, Seq<u8>)>::empty(),
            r.store.external.backing == if self.has_spi() && ext_flash_probe_ok {
                ExternalBacking::Physical
            } else {
                ExternalBacking::Volatile
            },
            r.usb_nfc.usb_classes == self.usb_nfc.usb_classes,
            r.usb_nfc.apdu_dispatch == self.usb_nfc.apdu_dispatch,
            r.usb_nfc.ctaphid_dispatch == self.usb_nfc.ctaphid_dispatch,
            r.usb_nfc.iso14443 == (match self.usb_nfc.iso14443 {
                Some(i) => Some(crate::transport::Iso14443 { pending_frame: false, ..i }),
                None => None,
            }),
    {
        let Stage4 {
            status,
            peripherals,
            clocks,
            pins,
            basic,
            usb_nfc,
            spi,
            flash,
            se050_timer,
            se050_i2c,
        } = self;
        let mut status = status;
        let mut clocks = clocks;
        let mut usb_nfc = usb_nfc;
        let FlashParts { flash: flash_controller, prince, rng } = flash;
        let _ = flash_controller;
        let _ = prince;

        let external = match spi {
            Some(spi) => {
                let _ = spi;
                setup_external_flash(ext_flash_probe_ok, &mut status)
            },
            None => ExternalFs::volatile(),
        };

        let internal = InternalFs::new(encrypted_storage);

        // Temporarily raise the clock for the mount, or it takes too long
        // on the passive path.
        clocks.boost_for_mount();
        let simulated_efs = external.is_ram();
        let store = init_store(internal, external, simulated_efs, &mut status);
        clocks.restore_after_mount();

        match usb_nfc.iso14443 {
            Some(mut iso) => {
                iso.poll();
                usb_nfc.iso14443 = Some(iso);
            },
            None => {},
        };

        Stage5 {
            status,
            peripherals,
            clocks,
            pins,
            basic,
            usb_nfc,
            rng,
            store,
            se050_timer,
            se050_i2c,
        }
    }
}

/// The sixth stage: the unified store is mounted.
pub struct Stage5 {
    /// The accumulating bring-up status.
    pub status: InitStatus,
    /// The selected clock configuration.
    pub clocks: ClockConfig,
    /// Timers, inputs and the pre-validation firmware version.
    pub basic: Basic,
    /// The constructed transport stacks.
    pub usb_nfc: UsbNfcInit,
    /// The mounted unified store.
    pub store: Store,
    /// Hardware the chain still owns; opaque.
    pub peripherals: Peripherals,
    /// Hardware the chain still owns; opaque.
    pub pins: Pins,
    /// Hardware the chain still owns; opaque.
    pub rng: RngDevice,
    /// Hardware the chain still owns; opaque.
    pub se050_timer: Timer,
    /// Hardware the chain still owns; opaque.
    pub se050_i2c: I2cBus,
}

impl Stage5 {
    /// Binds the crypto processing service: the mounted store, a
    /// generator seeded from the hardware entropy source, and the
    /// user-interface sink built over whatever input and output hardware
    /// the power path left available, shown idle.
    pub fn next(self, rtc: RtcDevice, entropy_seed: u64, provisioner: bool) -> (r: Stage6)
        ensures
            r.status == self.status,
            r.clocks == self.clocks,
            r.usb_nfc == self.usb_nfc,
            r.trussed.seed == entropy_seed,
            r.trussed.hw_key is None,
            r.trussed.store == self.store,
            r.trussed.pending_ops@ == Seq::<u32>::empty(),
            r.trussed.ui_ticks == 0,
            r.trussed.ui.provisioner == provisioner,
            r.trussed.ui.idle_status_set,
            r.trussed.ui.has_buttons == self.basic.three_buttons is Some,
            r.trussed.ui.has_rgb == (!self.clocks.is_nfc_passive && self.basic.rgb is Some),
            r.basic.three_buttons is None,
            r.basic.rgb is None,
            r.basic.old_firmware_version == self.basic.old_firmware_version,
            r.basic.adc is Some <==> self.basic.adc is Some,
    {
        let _ = rtc;
        let Stage5 {
            status,
            peripherals,
            clocks,
            pins,
            basic,
            usb_nfc,
            rng,
            store,
            se050_timer,
            se050_i2c,
        } = self;
        let _ = rng;
        let Basic { delay_timer, perf_timer, adc, three_buttons, rgb, old_firmware_version } =
            basic;

        let rgb_for_ui = if clocks.is_nfc_passive {
            None
        } else {
            rgb
        };

        let has_buttons = three_buttons.is_some();
        let has_rgb = rgb_for_ui.is_some();
        let _ = three_buttons;
        let _ = rgb_for_ui;

        let mut ui = UiState::new(has_buttons, has_rgb, provisioner);
        ui.set_status_idle();

        let trussed = bind_crypto_service(entropy_seed, None, store, ui);

        Stage6 {
            status,
            peripherals,
            clocks,
            pins,
            basic: Basic {
                delay_timer,
                perf_timer,
                adc,
                three_buttons: None,
                rgb: None,
                old_firmware_version,
            },
            usb_nfc,
            trussed,
            se050_timer,
            se050_i2c,
        }
    }
}

/// The seventh stage: the crypto service is live.
pub struct Stage6 {
    /// The accumulating bring-up status.
    pub status: InitStatus,
    /// The selected clock configuration.
    pub clocks: ClockConfig,
    /// Timers and the pre-validation firmware version.
    pub basic: Basic,
    /// The constructed transport stacks.
    pub usb_nfc: UsbNfcInit,
    /// The bound crypto processing service, owning the store.
    pub trussed: CryptoService,
    /// Hardware the chain still owns; opaque.
    pub peripherals: Peripherals,
    /// Hardware the chain still owns; opaque.
    pub pins: Pins,
    /// Hardware the chain still owns; opaque.
    pub se050_timer: Timer,
    /// Hardware the chain still owns; opaque.
    pub se050_i2c: I2cBus,
}

impl Stage6 {
    /// Runs the one-time data migrations against the service's store,
    /// keyed on the firmware version recorded before validation. `cert`
    /// is the attestation certificate payload to re-provision;
    /// `media_ok` is the block device's report on the write.
    pub fn perform_data_migrations(&mut self, cert: Vec<u8>, media_ok: bool)
        ensures
            final(self).clocks == old(self).clocks,
            final(self).basic == old(self).basic,
            final(self).usb_nfc == old(self).usb_nfc,
            final(self).trussed.seed == old(self).trussed.seed,
            final(self).trussed.hw_key == old(self).trussed.hw_key,
            final(self).trussed.ui == old(self).trussed.ui,
            final(self).trussed.pending_ops@ == old(self).trussed.pending_ops@,
            final(self).trussed.ui_ticks == old(self).trussed.ui_ticks,
            final(self).trussed.store.external == old(self).trussed.store.external,
            final(self).trussed.store.internal.encrypted == old(
                self,
            ).trussed.store.internal.encrypted,
            !migration_applies(old(self).basic.old_firmware_version) ==> final(self).trussed.store == old(self).trussed.store && final(self).status == old(self).status,
            migration_applies(old(self).basic.old_firmware_version) && media_ok ==> final(self).trussed.store.internal.fs@ == old(self).trussed.store.internal.fs@.push(
                (crate::store::attestation_cert_path(), cert@),
            ) && final(self).trussed.store.external == old(self).trussed.store.external && final(self).status == old(self).status,
            migration_applies(old(self).basic.old_firmware_version) && !media_ok ==> final(self).trussed.store == old(self).trussed.store && final(self).status == (InitStatus {
                migration_error: true,
                ..old(self).status
            }),
    {
        perform_data_migrations(
            &mut self.trussed.store,
            &mut self.status,
            self.basic.old_firmware_version,
            cert,
            media_ok,
        );
    }

    /// Runs the migrations, builds the application dispatch table over
    /// the service, and — only on the field-powered path — arms the
    /// dynamic clock controller. Produces the terminal runtime context.
    pub fn next(self, cert: Vec<u8>, migration_media_ok: bool) -> (r: All)
        ensures
            r.usb_nfc == self.usb_nfc,
            r.apps.nfc_powered == self.clocks.is_nfc_passive,
            r.apps.status == (if migration_applies(self.basic.old_firmware_version)
                && !migration_media_ok {
                InitStatus { migration_error: true, ..self.status }
            } else {
                self.status
            }),
            !migration_applies(self.basic.old_firmware_version) ==> r.trussed.store
                == self.trussed.store,
            migration_applies(self.basic.old_firmware_version) && migration_media_ok
                ==> r.trussed.store.internal.fs@ == self.trussed.store.internal.fs@.push(
                (crate::store::attestation_cert_path(), cert@),
            ),
            migration_applies(self.basic.old_firmware_version) && !migration_media_ok
                ==> r.trussed.store == self.trussed.store,
            r.trussed.store.external == self.trussed.store.external,
            r.trussed.store.internal.encrypted == self.trussed.store.internal.encrypted,
            r.trussed.seed == self.trussed.seed,
            r.clock_controller matches Some(c) ==> c.high_voltage_compare_started,
            r.clock_controller is Some <==> self.clocks.is_nfc_passive,
    {
        let mut this = self;
        this.perform_data_migrations(cert, migration_media_ok);

        let Stage6 {
            status,
            peripherals,
            clocks,
            pins,
            basic,
            usb_nfc,
            trussed,
            se050_timer,
            se050_i2c,
        } = this;
        let _ = peripherals;
        let _ = pins;
        let _ = se050_timer;
        let _ = se050_i2c;

        let mut trussed = trussed;
        let apps = init_apps(&mut trussed, status, clocks.is_nfc_passive);

        let mut basic = basic;
        let clock_controller = if clocks.is_nfc_passive {
            let _adc = basic.adc.take();
            let mut controller = DynamicClockController::new();
            controller.start_high_voltage_compare();
            Some(controller)
        } else {
            None
        };

        All { basic, usb_nfc, trussed, apps, clock_controller }
    }
}

/// Runs the whole bring-up chain, consuming every raw peripheral handle
/// exactly once. The chain is total: for any valid raw input set it
/// produces exactly one terminal [`All`], unless a missing key
/// provisioning aborts fatally, a held button hold-out jumps permanently
/// into the boot ROM, or the secure companion chip fails its handshake —
/// and it says exactly which. Degraded storage, NFC or migration outcomes
/// never stop it: they surface only as status flags on the produced
/// context.
pub fn run_bringup(
    syscon: Syscon,
    pmc: Pmc,
    anactrl: Anactrl,
    iocon: Iocon,
    gpio: GpioPort,
    adc: Adc,
    ctimer0: Ctimer0,
    ctimer1: Ctimer1,
    ctimer2: Ctimer2,
    ctimer3: Ctimer3,
    ctimer4: Ctimer4,
    pfr: PfrDevice,
    flexcomm0: Flexcomm0,
    flexcomm5: Flexcomm5,
    mux: InputMux,
    pint: Pint,
    usbhs: UsbHs,
    rng: RngDevice,
    prince: PrinceDevice,
    flash: FlashDevice,
    rtc: RtcDevice,
    nfc_irq_low: bool,
    cfpa: &mut VersionRecord,
    secure_firmware_version: Option<u32>,
    require_prince: bool,
    prince_provisioned: bool,
    boot_to_bootrom: bool,
    button_samples: &Vec<PollSample>,
    nfc_enabled: bool,
    provisioner: bool,
    resync_response: &Vec<u8>,
    nfc_hw_ok: bool,
    ext_flash_probe_ok: bool,
    encrypted_storage: bool,
    entropy_seed: u64,
    cert: Vec<u8>,
    migration_media_ok: bool,
) -> (r: Result<All, BringupAbort>)
    requires
        (match secure_firmware_version {
            Some(c) => needs_update(*old(cfpa), c) ==> old(cfpa).counter < u32::MAX,
            None => true,
        }),
        boot_to_bootrom && !nfc_irq_low ==> eventually_decided(button_samples@),
    ensures
        *final(cfpa) == validated_record(*old(cfpa), secure_firmware_version),
        require_prince && !prince_provisioned ==> r == Result::<All, BringupAbort>::Err(
            BringupAbort::Fatal(FatalError::KeyNotProvisioned),
        ),
        !(require_prince && !prince_provisioned) && (boot_to_bootrom && !nfc_irq_low
            && bootrom_decision(button_samples@)) ==> r == Result::<All, BringupAbort>::Err(
            BringupAbort::BootToBootrom,
        ),
        !(require_prince && !prince_provisioned) && !(boot_to_bootrom && !nfc_irq_low
            && bootrom_decision(button_samples@)) && !resync_response_ok(resync_response@) ==> r
            == Result::<All, BringupAbort>::Err(
            BringupAbort::Fatal(FatalError::SecureElementHandshake),
        ),
        !(require_prince && !prince_provisioned) && !(boot_to_bootrom && !nfc_irq_low
            && bootrom_decision(button_samples@)) && resync_response_ok(resync_response@) ==> (
        match r {
            Ok(all) => {
                let use_nfc = nfc_enabled && (provisioner || nfc_irq_low);
                let expected_status = InitStatus {
                    external_flash_error: !use_nfc && !ext_flash_probe_ok,
                    migration_error: migration_applies(old(cfpa).secure_fw_version)
                        && !migration_media_ok,
                    nfc_error: use_nfc && !nfc_hw_ok,
                };
                &&& all.apps.status == expected_status
                &&& all.apps.nfc_powered == nfc_irq_low
                &&& (all.usb_nfc.usb_classes is Some <==> !nfc_irq_low)
                &&& (all.usb_nfc.iso14443 is Some <==> use_nfc && nfc_hw_ok)
                &&& all.trussed.seed == entropy_seed
                &&& all.trussed.store.internal.encrypted == encrypted_storage
                &&& all.trussed.store.external.backing == (if !use_nfc && ext_flash_probe_ok {
                    ExternalBacking::Physical
                } else {
                    ExternalBacking::Volatile
                })
                &&& all.trussed.store.internal.fs@ == (if migration_applies(
                    old(cfpa).secure_fw_version,
                ) && migration_media_ok {
                    Seq::<(Seq<u8>, Seq<u8>)>::empty().push(
                        (crate::store::attestation_cert_path(), cert@),
                    )
                } else {
                    Seq::<(Seq<u8>, Seq<u8>)>::empty()
                })
                &&& (all.clock_controller is Some <==> nfc_irq_low)
                &&& (all.clock_controller matches Some(c) ==> c.high_voltage_compare_started)
            },
            Err(_) => false,
        }),
{
    let stage0 = start(syscon, pmc, anactrl);
    let stage1 = stage0.next(iocon, gpio, nfc_irq_low);
    let stage2 = match stage1.next(
        adc,
        ctimer0,
        ctimer1,
        ctimer2,
        ctimer3,
        ctimer4,
        pfr,
        cfpa,
        secure_firmware_version,
        require_prince,
        prince_provisioned,
        boot_to_bootrom,
        button_samples,
    ) {
        Ok(s) => s,
        Err(abort) => {
            return Err(abort);
        },
    };
    let stage3 = match stage2.next(
        flexcomm0,
        flexcomm5,
        mux,
        pint,
        usbhs,
        nfc_enabled,
        provisioner,
        resync_response,
        nfc_hw_ok,
    ) {
        Ok(s) => s,
        Err(fault) => {
            return Err(BringupAbort::Fatal(fault));
        },
    };
    let stage4 = stage3.next(rng, prince, flash);
    let stage5 = stage4.next(ext_flash_probe_ok, encrypted_storage);
    let stage6 = stage5.next(rtc, entropy_seed, provisioner);
    Ok(stage6.next(cert, migration_media_ok))
}

/// The terminal runtime context: created exactly once at the end of
/// bring-up, alive until reset or power loss.
pub struct All {
    /// Timers and the pre-validation firmware version.
    pub basic: Basic,
    /// The transport stacks and dispatch tables.
    pub usb_nfc: UsbNfcInit,
    /// The crypto processing service, owning the store.
    pub trussed: CryptoService,
    /// The application dispatch table.
    pub apps: AppTable,
    /// The dynamic clock controller; armed only on the field-powered
    /// path, never instantiated under external power.
    pub clock_controller: Option<DynamicClockController>,
}

} // verus!
