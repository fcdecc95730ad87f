//! The error that a driver returns: a transport failure or a fault of the chip.
use vstd::prelude::*;

use crate::frame::IoLessError;

verus! {

/// What can go wrong on a read: the transport failed (carrying the
/// transport's own error `E`), or the chip reported a fault.
#[derive(Debug)]
pub enum Error<E> {
    /// The transfer over the bus failed.
    SpiError(E),
    /// The fault bit was set; the kind of fault is not known.
    Fault,
    /// The thermocouple is shorted to VCC.
    VccShortFault,
    /// The thermocouple is shorted to ground.
    GroundShortFault,
    /// No thermocouple is connected (open circuit).
    MissingThermocoupleFault,
}

/// The driver error that stands for a fault read from a frame.
pub open spec fn error_of_fault<E>(value: IoLessError) -> Error<E> {
    match value {
        IoLessError::Fault => Error::Fault,
        IoLessError::VccShortFault => Error::VccShortFault,
        IoLessError::GroundShortFault => Error::GroundShortFault,
        IoLessError::MissingThermocoupleFault => Error::MissingThermocoupleFault,
    }
}

impl<E> From<IoLessError> for Error<E> {
    fn from(value: IoLessError) -> (r: Self)
        ensures
            r == error_of_fault::<E>(value),
    {
        match value {
            IoLessError::Fault => Error::Fault,
            IoLessError::VccShortFault => Error::VccShortFault,
            IoLessError::GroundShortFault => Error::GroundShortFault,
            IoLessError::MissingThermocoupleFault => Error::MissingThermocoupleFault,
        }
    }
}

impl<E> vstd::std_specs::convert::FromSpecImpl<IoLessError> for Error<E> {
    open spec fn obeys_from_spec() -> bool {
        true
    }

    open spec fn from_spec(value: IoLessError) -> Self {
        error_of_fault::<E>(value)
    }
}

} // verus!
