//! Capability tags: possessing one is the only evidence that its holder may use
//! the peripheral. None is `Clone` or `Copy`, and their private field keeps code
//! outside this crate from building one.
use vstd::prelude::*;

verus! {

/// Permission to write to the console.
pub struct ConsoleDriver {
    pub(crate) _unconstructible: (),
}

/// Permission to switch the LEDs.
pub struct LedDriver {
    pub(crate) _unconstructible: (),
}

/// Permission to use the GPIO pins.
pub struct GpioDriver {
    pub(crate) _unconstructible: (),
}

/// Permission to read the temperature driver.
pub struct TemperatureDriver {
    pub(crate) _unconstructible: (),
}

/// Permission to read the buttons.
pub struct ButtonDriver {
    pub(crate) _unconstructible: (),
}

/// Permission to sample the ADC.
pub struct AdcDriver {
    pub(crate) _unconstructible: (),
}

/// Permission to draw from the random number generator.
pub struct RngDriver {
    pub(crate) _unconstructible: (),
}

/// Permission to send BLE advertisements.
pub struct BleAdvertisingDriver {
    pub(crate) _unconstructible: (),
}

/// Permission to scan for BLE advertisements.
pub struct BleScanningDriver {
    pub(crate) _unconstructible: (),
}

/// Permission to read the ambient light sensor.
pub struct AmbientLightSensor {
    pub(crate) _unconstructible: (),
}

/// Permission to read the temperature sensor.
pub struct TemperatureSensor {
    pub(crate) _unconstructible: (),
}

/// Permission to read the humidity sensor.
pub struct HumiditySensor {
    pub(crate) _unconstructible: (),
}

/// Permission to read the nine-degrees-of-freedom sensor.
pub struct NinedofDriver {
    pub(crate) _unconstructible: (),
}

} // verus!
