//! The capability distributor. The whole hardware set lives in one slot that
//! the entry point creates once and threads through the program; the slot
//! hands the set out on the first take and refuses every take after that.
use vstd::prelude::*;
use crate::drivers::{
    AdcDriver, AmbientLightSensor, BleAdvertisingDriver, BleScanningDriver, ButtonDriver,
    ConsoleDriver, GpioDriver, HumiditySensor, LedDriver, NinedofDriver, RngDriver,
    TemperatureDriver, TemperatureSensor,
};
use crate::result::{OtherError, TockError};
use crate::timer::{DriverContext, TimerState};

verus! {

/// One instance of every capability tag, and the timer context.
pub struct Hardware {
    pub console_driver: ConsoleDriver,
    pub led_driver: LedDriver,
    pub timer_context: DriverContext,
    pub gpio_driver: GpioDriver,
    pub temperature_driver: TemperatureDriver,
    pub button_driver: ButtonDriver,
    pub adc_driver: AdcDriver,
    pub rng_driver: RngDriver,
    pub ble_advertising_driver: BleAdvertisingDriver,
    pub ble_scanning_driver: BleScanningDriver,
    pub ambient_light_sensor: AmbientLightSensor,
    pub temperature_sensor: TemperatureSensor,
    pub humidity_sensor: HumiditySensor,
    pub ninedof_driver: NinedofDriver,
}

impl Hardware {
    /// A set as it is built: its timer context well formed, with no callback
    /// registered and no token issued.
    pub open spec fn is_fresh(&self) -> bool {
        &&& self.timer_context.wf()
        &&& self.timer_context@.state == TimerState::Unregistered
        &&& self.timer_context@.issued == 0
    }
}

/// Builds a complete hardware set. Only this crate can.
fn build_hardware() -> (h: Hardware)
    ensures
        h.is_fresh(),
{
    Hardware {
        console_driver: ConsoleDriver { _unconstructible: () },
        led_driver: LedDriver { _unconstructible: () },
        timer_context: DriverContext::new(),
        gpio_driver: GpioDriver { _unconstructible: () },
        temperature_driver: TemperatureDriver { _unconstructible: () },
        button_driver: ButtonDriver { _unconstructible: () },
        adc_driver: AdcDriver { _unconstructible: () },
        rng_driver: RngDriver { _unconstructible: () },
        ble_advertising_driver: BleAdvertisingDriver { _unconstructible: () },
        ble_scanning_driver: BleScanningDriver { _unconstructible: () },
        ambient_light_sensor: AmbientLightSensor { _unconstructible: () },
        temperature_sensor: TemperatureSensor { _unconstructible: () },
        humidity_sensor: HumiditySensor { _unconstructible: () },
        ninedof_driver: NinedofDriver { _unconstructible: () },
    }
}

/// Whether a take from a slot that holds the set (`present`) succeeds.
pub open spec fn take_succeeds(present: bool) -> bool {
    present
}

/// Whether the slot holds the set after a take: never.
pub open spec fn present_after_take(present: bool) -> bool {
    false
}

/// Success of each of `n` takes in a row, from a slot that holds the set
/// exactly when `present`.
pub open spec fn take_outcomes(present: bool, n: nat) -> Seq<bool>
    decreases n,
{
    if n == 0 {
        Seq::empty()
    } else {
        seq![take_succeeds(present)].add(take_outcomes(present_after_take(present), (n - 1) as nat))
    }
}

/// The process-wide slot for the hardware set. Its view is whether it still
/// holds the set.
pub struct HardwareSlot {
    hardware: Option<Hardware>,
}

impl View for HardwareSlot {
    type V = bool;

    closed spec fn view(&self) -> bool {
        self.hardware is Some
    }
}

impl HardwareSlot {
    /// What the slot holds is a set as it is built.
    pub closed spec fn wf(&self) -> bool {
        self.hardware matches Some(h) ==> h.is_fresh()
    }

    /// A slot that holds the set; the entry point creates it once.
    pub fn new() -> (s: HardwareSlot)
        ensures
            s@,
            s.wf(),
    {
        HardwareSlot { hardware: Some(build_hardware()) }
    }

    /// Puts a fresh set back, so that the next take succeeds again. For tests:
    /// in production nothing refills the slot.
    pub fn reset(&mut self)
        ensures
            final(self)@,
            final(self).wf(),
    {
        self.hardware = Some(build_hardware());
    }
}

/// Takes the hardware set out of the slot. Succeeds exactly when the slot still
/// holds it, and leaves the slot empty either way.
pub fn retrieve_hardware(slot: &mut HardwareSlot) -> (r: Result<Hardware, TockError>)
    requires
        old(slot).wf(),
    ensures
        r is Ok == take_succeeds(old(slot)@),
        final(slot)@ == present_after_take(old(slot)@),
        final(slot).wf(),
        r matches Ok(h) ==> h.is_fresh(),
        r matches Err(e) ==> e == TockError::Other(OtherError::DriverAlreadyTaken),
{
    match slot.hardware.take() {
        Some(hardware) => Ok(hardware),
        None => Err(TockError::Other(OtherError::DriverAlreadyTaken)),
    }
}

/// Escape hatch for contexts that cannot be handed the set, such as a fault
/// handler: returns a fresh set without looking at any slot. Misused, it puts
/// two live sets of capability tags in one process, which breaks single
/// ownership.
pub fn retrieve_hardware_unsafe() -> (h: Hardware)
    ensures
        h.is_fresh(),
{
    build_hardware()
}

/// From a slot that holds the set, the first take succeeds and every later
/// one fails, however many are made.
pub proof fn lemma_retrieved_once(n: nat)
    ensures
        take_outcomes(true, n).len() == n,
        n > 0 ==> take_outcomes(true, n)[0],
        forall|i: int| 1 <= i < n ==> !#[trigger] take_outcomes(true, n)[i],
    decreases n,
{
    lemma_empty_slot_refuses(n);
    if n > 0 {
        lemma_empty_slot_refuses((n - 1) as nat);
        assert(take_outcomes(true, n) =~= seq![true].add(take_outcomes(false, (n - 1) as nat)));
    }
}

/// From a slot that no longer holds the set, every take fails.
proof fn lemma_empty_slot_refuses(n: nat)
    ensures
        take_outcomes(false, n).len() == n,
        forall|i: int| 0 <= i < n ==> !#[trigger] take_outcomes(false, n)[i],
    decreases n,
{
    if n > 0 {
        lemma_empty_slot_refuses((n - 1) as nat);
        assert(take_outcomes(false, n) =~= seq![false].add(take_outcomes(false, (n - 1) as nat)));
    }
}

} // verus!
