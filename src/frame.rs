//! Parsing of the 16-bit and 32-bit frames into raw counts or a fault.
use vstd::arithmetic::power2::{lemma2_to64, pow2};
use vstd::prelude::*;

use crate::bits::{bit_range, bit_set, get_bit, get_bits};
use crate::fixed_point::{bits_to_i16, field_value};

verus! {

/// Lowest bit of the thermocouple field in the first word.
pub const THERMOCOUPLE_LO: usize = 2;
/// Highest bit of the thermocouple field in the first word.
pub const THERMOCOUPLE_HI: usize = 15;
/// Bit of the first word that says that some fault was detected.
pub const FAULT_BIT: usize = 0;
/// Lowest bit of the internal (reference junction) field in the second word.
pub const INTERNAL_LO: usize = 4;
/// Highest bit of the internal field in the second word.
pub const INTERNAL_HI: usize = 15;
/// Bit of the second word that reports a short to VCC.
pub const FAULT_VCC_SHORT_BIT: usize = 2;
/// Bit of the second word that reports a short to ground.
pub const FAULT_GROUND_SHORT_BIT: usize = 1;
/// Bit of the second word that reports a missing thermocouple.
pub const FAULT_NO_THERMOCOUPLE_BIT: usize = 0;

/// A fault reported by the chip, as read from a frame.
#[derive(Clone, Copy, Debug, PartialEq, Eq, Structural)]
pub enum IoLessError {
    /// The fault bit was set; the 16-bit frame cannot tell which fault it is.
    Fault,
    /// The thermocouple is shorted to VCC.
    VccShortFault,
    /// The thermocouple is shorted to ground.
    GroundShortFault,
    /// No thermocouple is connected (open circuit).
    MissingThermocoupleFault,
}

/// The raw ADC counts of a fault-free 32-bit frame.
#[derive(Clone, Copy, Debug, PartialEq, Eq, Structural)]
pub struct FullResultRaw {
    /// The thermocouple temperature, in quarters of a degree Celsius.
    pub thermocouple: i16,
    /// The reference junction temperature, in sixteenths of a degree Celsius.
    pub internal: i16,
}

/// The 16-bit word made of two bytes, most significant first.
pub open spec fn word(hi: u8, lo: u8) -> int {
    hi as int * 256 + lo as int
}

/// The thermocouple count held in the first word of a frame: a 14-bit
/// two's-complement field at bits 2 to 15.
pub open spec fn thermocouple_count(first: int) -> int {
    field_value(bit_range(first, THERMOCOUPLE_LO as nat, THERMOCOUPLE_HI as nat), 14)
}

/// The internal count held in the second word of a 32-bit frame: a 12-bit
/// two's-complement field at bits 4 to 15.
pub open spec fn internal_count(second: int) -> int {
    field_value(bit_range(second, INTERNAL_LO as nat, INTERNAL_HI as nat), 12)
}

/// The fault that the second word of a 32-bit frame names, checking the
/// missing-thermocouple bit first, then the ground-short bit, then the
/// VCC-short bit.
pub open spec fn fault_kind(second: int) -> IoLessError {
    if bit_set(second, FAULT_NO_THERMOCOUPLE_BIT as nat) {
        IoLessError::MissingThermocoupleFault
    } else if bit_set(second, FAULT_GROUND_SHORT_BIT as nat) {
        IoLessError::GroundShortFault
    } else if bit_set(second, FAULT_VCC_SHORT_BIT as nat) {
        IoLessError::VccShortFault
    } else {
        IoLessError::Fault
    }
}

/// What a 16-bit frame decodes to.
pub open spec fn thermocouple_outcome(buffer: [u8; 2]) -> Result<i16, IoLessError> {
    if bit_set(buffer[1] as int, FAULT_BIT as nat) {
        Err(IoLessError::Fault)
    } else {
        Ok(thermocouple_count(word(buffer[0], buffer[1])) as i16)
    }
}

/// What a 32-bit frame decodes to.
pub open spec fn all_outcome(buffer: [u8; 4]) -> Result<FullResultRaw, IoLessError> {
    if bit_set(buffer[1] as int, FAULT_BIT as nat) {
        Err(fault_kind(word(buffer[2], buffer[3])))
    } else {
        Ok(
            FullResultRaw {
                thermocouple: thermocouple_count(word(buffer[0], buffer[1])) as i16,
                internal: internal_count(word(buffer[2], buffer[3])) as i16,
            },
        )
    }
}

/// When the fault bit of a 32-bit frame is set and several kinds are named at
/// once, a missing thermocouple wins over a short to ground, which wins over a
/// short to VCC.
pub proof fn lemma_fault_priority(buffer: [u8; 4])
    requires
        bit_set(buffer[1] as int, 0),
    ensures
        bit_set(word(buffer[2], buffer[3]), 0) ==> all_outcome(buffer) == Err::<FullResultRaw, IoLessError>(
            IoLessError::MissingThermocoupleFault,
        ),
        !bit_set(word(buffer[2], buffer[3]), 0) && bit_set(word(buffer[2], buffer[3]), 1)
            ==> all_outcome(buffer) == Err::<FullResultRaw, IoLessError>(IoLessError::GroundShortFault),
        !bit_set(word(buffer[2], buffer[3]), 0) && !bit_set(word(buffer[2], buffer[3]), 1) && bit_set(
            word(buffer[2], buffer[3]),
            2,
        ) ==> all_outcome(buffer) == Err::<FullResultRaw, IoLessError>(IoLessError::VccShortFault),
{
}

/// Joins two bytes, most significant first, into a word.
fn join(hi: u8, lo: u8) -> (r: u16)
    ensures
        r == word(hi, lo),
{
    let r = (hi as u16) << 8 | (lo as u16);
    assert(r == hi as int * 256 + lo as int) by (bit_vector)
        requires
            r == (hi as u16) << 8 | (lo as u16),
    ;
    r
}

/// Decodes the thermocouple field of a fault-free first word.
fn thermocouple_of(first: u16) -> (r: i16)
    ensures
        r == thermocouple_count(first as int),
{
    proof {
        lemma2_to64();
    }
    let field = get_bits(first, THERMOCOUPLE_LO, THERMOCOUPLE_HI);
    bits_to_i16(field, 14, 4, 2)
}

/// Decodes the internal field of the second word.
fn internal_of(second: u16) -> (r: i16)
    ensures
        r == internal_count(second as int),
{
    proof {
        lemma2_to64();
    }
    let field = get_bits(second, INTERNAL_LO, INTERNAL_HI);
    bits_to_i16(field, 12, 16, 4)
}

/// Reads the thermocouple count of a 16-bit frame. A set fault bit gives
/// `IoLessError::Fault`: this frame does not say which fault it is.
pub fn read_thermocouple_raw(buffer: [u8; 2]) -> (r: Result<i16, IoLessError>)
    ensures
        r == thermocouple_outcome(buffer),
        r is Err <==> bit_set(buffer[1] as int, 0),
        r matches Ok(t) ==> t == thermocouple_count(word(buffer[0], buffer[1])),
{
    if get_bit(buffer[1] as u16, FAULT_BIT) {
        return Err(IoLessError::Fault);
    }
    let raw = join(buffer[0], buffer[1]);
    let thermocouple = thermocouple_of(raw);
    Ok(thermocouple)
}

/// Reads both counts of a 32-bit frame, or resolves its fault to the kind
/// that the second word names.
pub fn read_all_raw(buffer: [u8; 4]) -> (r: Result<FullResultRaw, IoLessError>)
    ensures
        r == all_outcome(buffer),
        r is Err <==> bit_set(buffer[1] as int, 0),
        r matches Err(e) ==> e == fault_kind(word(buffer[2], buffer[3])),
        r matches Ok(v) ==> v.thermocouple == thermocouple_count(word(buffer[0], buffer[1]))
            && v.internal == internal_count(word(buffer[2], buffer[3])),
{
    let fault = get_bit(buffer[1] as u16, FAULT_BIT);
    if fault {
        let raw = join(buffer[2], buffer[3]);
        if get_bit(raw, FAULT_NO_THERMOCOUPLE_BIT) {
            return Err(IoLessError::MissingThermocoupleFault);
        } else if get_bit(raw, FAULT_GROUND_SHORT_BIT) {
            return Err(IoLessError::GroundShortFault);
        } else if get_bit(raw, FAULT_VCC_SHORT_BIT) {
            return Err(IoLessError::VccShortFault);
        } else {
            // The fault bit is set with no kind named: report the fault alone.
            return Err(IoLessError::Fault);
        }
    }
    let first_u16 = join(buffer[0], buffer[1]);
    let second_u16 = join(buffer[2], buffer[3]);
    let thermocouple = thermocouple_of(first_u16);
    let internal = internal_of(second_u16);
    Ok(FullResultRaw { thermocouple, internal })
}

} // verus!
