//! Host-side driver core for the CP2130 USB-to-SPI/GPIO bridge.
use vstd::prelude::*;

pub mod codec;
pub mod device;
pub mod endpoint;
pub mod gpio;
pub mod transfer;

verus! {

/// Failures that the driver core reports.
#[derive(Clone, Copy, Debug, PartialEq, Eq, Structural)]
pub enum Error {
    /// The device offers no string-descriptor language.
    NoLanguages,
    /// The device does not expose exactly one configuration.
    Configurations,
    /// The read or write endpoint is missing from the descriptor tree.
    Endpoint,
    /// The GPIO pin is already claimed by a live handle.
    GpioInUse,
}

} // verus!
