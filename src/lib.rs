//! Decoding of the frames sent by a MAX31855 thermocouple-to-digital converter.
//!
//! The library turns the two-byte (thermocouple only) and four-byte
//! (thermocouple, reference junction and fault detail) frames of the chip into
//! signed raw counts, or into the fault that the frame reports. Moving the
//! bytes over the bus is left to the caller.

pub mod bits;
pub mod error;
pub mod fixed_point;
pub mod frame;
pub mod units;

pub use error::Error;
pub use fixed_point::bits_to_i16;
pub use frame::{read_all_raw, read_thermocouple_raw, FullResultRaw, IoLessError};
pub use units::{Reading, Unit};
