//! Clock and power strategy.
//!
//! The power source is determined at the earliest bring-up phase by sampling
//! a dedicated input line: a low NFC interrupt line means the device is
//! running from a passive NFC field and must respect its tight power budget.
//! The clock frequency is owned at three defined checkpoints — initial
//! selection, a temporary boost while the filesystems mount, and the restore
//! afterwards — and, only on the field-powered path, by a continuing
//! voltage-monitoring controller that steps the clock to avoid brownout
//! while harvesting field power.

use vstd::prelude::*;

verus! {

/// System frequency in MHz selected at boot when running from a passive
/// NFC field.
pub const PASSIVE_BOOT_MHZ: u32 = 4;

/// System frequency in MHz selected at boot when externally powered.
pub const FULL_SPEED_MHZ: u32 = 96;

/// Temporary frequency in MHz used on the field-powered path while the
/// filesystems mount, to keep mount latency acceptable.
pub const MOUNT_BOOST_MHZ: u32 = 48;

/// Steady-state frequency in MHz on the field-powered path after mount.
pub const PASSIVE_RUN_MHZ: u32 = 12;

/// The initial system frequency fixed by the power source: low under a
/// passive field's power budget, full when externally powered.
pub open spec fn initial_frequency(is_nfc_passive: bool) -> u32 {
    if is_nfc_passive {
        PASSIVE_BOOT_MHZ
    } else {
        FULL_SPEED_MHZ
    }
}

/// The clock configuration owned by bring-up and, later, by the dynamic
/// clock controller.
#[derive(Clone, Copy, Debug, PartialEq, Eq, Structural)]
pub struct ClockConfig {
    /// The device runs from a passive NFC field (no external power).
    pub is_nfc_passive: bool,
    /// The configured system frequency in MHz.
    pub frequency_mhz: u32,
}

impl ClockConfig {
    /// Selects the initial clock frequency from the sampled power source.
    pub fn configure_initial(is_nfc_passive: bool) -> (r: ClockConfig)
        ensures
            r.is_nfc_passive == is_nfc_passive,
            r.frequency_mhz == initial_frequency(is_nfc_passive),
    {
        let frequency_mhz = if is_nfc_passive {
            PASSIVE_BOOT_MHZ
        } else {
            FULL_SPEED_MHZ
        };
        ClockConfig { is_nfc_passive, frequency_mhz }
    }

    /// Temporarily raises the clock for the storage mount. Only the
    /// field-powered path runs slow enough to need the boost; external
    /// power already runs at full speed.
    pub fn boost_for_mount(&mut self)
        ensures
            final(self).is_nfc_passive == old(self).is_nfc_passive,
            final(self).frequency_mhz == if old(self).is_nfc_passive {
                MOUNT_BOOST_MHZ
            } else {
                old(self).frequency_mhz
            },
    {
        if self.is_nfc_passive {
            self.frequency_mhz = MOUNT_BOOST_MHZ;
        }
    }

    /// Restores the power-appropriate frequency once the mount is done.
    pub fn restore_after_mount(&mut self)
        ensures
            final(self).is_nfc_passive == old(self).is_nfc_passive,
            final(self).frequency_mhz == if old(self).is_nfc_passive {
                PASSIVE_RUN_MHZ
            } else {
                old(self).frequency_mhz
            },
    {
        if self.is_nfc_passive {
            self.frequency_mhz = PASSIVE_RUN_MHZ;
        }
    }
}

/// The runtime voltage-monitoring control loop. Instantiated only on the
/// field-powered path; an externally powered device never constructs one.
#[derive(Clone, Copy, Debug, PartialEq, Eq, Structural)]
pub struct DynamicClockController {
    /// The analog comparator watching the harvested supply voltage has been
    /// armed.
    pub high_voltage_compare_started: bool,
}

impl DynamicClockController {
    /// Builds the controller; the comparator is not armed yet.
    pub fn new() -> (r: DynamicClockController)
        ensures
            !r.high_voltage_compare_started,
    {
        DynamicClockController { high_voltage_compare_started: false }
    }

    /// Arms the analog comparator that reports whether the harvested
    /// voltage is healthy.
    pub fn start_high_voltage_compare(&mut self)
        ensures
            final(self).high_voltage_compare_started,
    {
        self.high_voltage_compare_started = true;
    }

    /// Reacts to one comparator sample: steps the clock down to the boot
    /// floor while the harvested voltage sags, back up to the steady-state
    /// frequency once it is healthy again.
    pub fn on_voltage_sample(&self, cfg: &mut ClockConfig, voltage_high: bool)
        requires
            old(cfg).is_nfc_passive,
        ensures
            final(cfg).is_nfc_passive,
            final(cfg).frequency_mhz == if voltage_high {
                PASSIVE_RUN_MHZ
            } else {
                PASSIVE_BOOT_MHZ
            },
    {
        if voltage_high {
            cfg.frequency_mhz = PASSIVE_RUN_MHZ;
        } else {
            cfg.frequency_mhz = PASSIVE_BOOT_MHZ;
        }
    }
}

} // verus!
