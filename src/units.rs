//! The selectors of a temperature unit and of a reading's scale.
use vstd::prelude::*;

verus! {

/// The temperature unit to report in.
#[derive(Clone, Copy, Debug, PartialEq, Eq, Structural)]
pub enum Unit {
    /// Degrees Celsius.
    Celsius,
    /// Degrees Fahrenheit.
    Fahrenheit,
    /// Kelvin.
    Kelvin,
}

/// Which of the chip's two measurements a raw count comes from; this
/// decides the size of one count.
#[derive(Clone, Copy, Debug, PartialEq, Eq, Structural)]
pub enum Reading {
    /// The attached thermocouple: a quarter of a degree Celsius per count.
    Thermocouple,
    /// The internal reference junction: a sixteenth of a degree Celsius per count.
    Internal,
}

} // verus!
