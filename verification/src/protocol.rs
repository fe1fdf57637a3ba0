//! Core traits for device operations, and the bit-level access to state bytes

use vstd::prelude::*;

use bitvec::order::Lsb0;

use crate::error::Result;
use crate::types::{AcMode, FanSpeed, SwingH, SwingV};
use bitvec::view::BitView;

verus! {

/// Trait for common device operations
pub trait Device {
    /// Set the device power state
    fn set_power(&mut self, on: bool) -> Result<()>;

    /// Get the current power state
    fn get_power(&self) -> bool;

    /// Turn the device on: by default this is `set_power(true)`, with its
    /// result and its effect on the device.
    fn turn_on(&mut self) -> (r: Result<()>)
        default_ensures
            exists|s: &mut Self|
                &*s == &*old(self) && &*final(s) == &*final(self) && #[trigger] call_ensures(
                    Self::set_power,
                    (s, true),
                    r,
                ),
    {
        self.set_power(true)
    }

    /// Turn the device off: by default this is `set_power(false)`, with its
    /// result and its effect on the device.
    fn turn_off(&mut self) -> (r: Result<()>)
        default_ensures
            exists|s: &mut Self|
                &*s == &*old(self) && &*final(s) == &*final(self) && #[trigger] call_ensures(
                    Self::set_power,
                    (s, false),
                    r,
                ),
    {
        self.set_power(false)
    }

    /// Send the current state to the device
    fn send(&self) -> Result<()>;

    /// Get the raw state data
    fn get_raw(&self) -> Vec<u8>;

    /// Set the state from raw data
    fn set_raw(&mut self, data: &[u8]) -> Result<()>;
}

/// Trait for AC device specific operations
pub trait AcDevice: Device {
    /// Set the operation mode
    fn set_mode(&mut self, mode: AcMode) -> Result<()>;

    /// Get the current operation mode
    fn get_mode(&self) -> Result<AcMode>;

    /// Set the temperature
    fn set_temp(&mut self, celsius: u8) -> Result<()>;

    /// Get the current temperature setting
    fn get_temp(&self) -> u8;

    /// Set the fan speed
    fn set_fan(&mut self, speed: FanSpeed) -> Result<()>;

    /// Get the current fan speed
    fn get_fan(&self) -> Result<FanSpeed>;

    /// Set the vertical swing position
    fn set_swing_v(&mut self, position: SwingV) -> Result<()>;

    /// Get the current vertical swing position
    fn get_swing_v(&self) -> Result<SwingV>;

    /// Set the horizontal swing position
    fn set_swing_h(&mut self, position: SwingH) -> Result<()>;

    /// Get the current horizontal swing position
    fn get_swing_h(&self) -> Result<SwingH>;

    /// Set quiet mode
    fn set_quiet(&mut self, on: bool) -> Result<()>;

    /// Get quiet mode status
    fn get_quiet(&self) -> bool;

    /// Set powerful mode
    fn set_powerful(&mut self, on: bool) -> Result<()>;

    /// Get powerful mode status
    fn get_powerful(&self) -> bool;

    /// Set the ion filter (if supported by the model)
    fn set_ion(&mut self, on: bool) -> Result<()>;

    /// Get ion filter status
    fn get_ion(&self) -> bool;
}

/// `b` with bit `offset` (least significant bit first) set to `value`.
pub open spec fn with_bit(b: u8, offset: u8, value: bool) -> u8 {
    if value {
        b | (1u8 << offset)
    } else {
        b & !(1u8 << offset)
    }
}

/// Bit `offset` of `b`, least significant bit first.
pub open spec fn bit_of(b: u8, offset: u8) -> bool {
    (b >> offset) & 1u8 == 1u8
}

/// The mask that `set_bits` writes through for a field of `size` bits at
/// `offset`: the bits of the field set, the others clear.
pub open spec fn write_mask(offset: u8, size: u8) -> u8 {
    if size == 0 {
        0u8
    } else if size >= 8 {
        0xFFu8
    } else {
        (((1u8 << size) - 1u8) as u8) << offset
    }
}

/// The mask that `get_bits` reads through for a field of `size` bits.
pub open spec fn read_mask(size: u8) -> u8 {
    if size == 0 {
        0u8
    } else if size >= 8 {
        0xFFu8
    } else {
        ((1u8 << size) - 1u8) as u8
    }
}

/// Whether a field of `size` bits at `offset` fits in one byte.
pub open spec fn field_fits(offset: u8, size: u8) -> bool {
    offset < 8 && size <= 8 && offset + size <= 8
}

/// `b` with the field of `size` bits at `offset` replaced by the low bits of `value`.
pub open spec fn with_bits(b: u8, offset: u8, size: u8, value: u8) -> u8 {
    (b & !write_mask(offset, size)) | ((value << offset) & write_mask(offset, size))
}

/// The field of `size` bits at `offset` of `b`.
pub open spec fn bits_of(b: u8, offset: u8, size: u8) -> u8 {
    (b >> offset) & read_mask(size)
}

/// Writes bit `index` (least significant bit first) of `byte` through a
/// `bitvec` view (`BitView::view_bits_mut::<Lsb0>` then `BitSlice::set`).
/// Claimed: the result is `byte` with that bit replaced by `value`; `set`
/// panics for an index past the 8 bits of the view, which `requires` rules out.
#[verifier::external_body]
fn lsb0_set(byte: u8, index: u8, value: bool) -> (r: u8)
    requires
        index < 8,
    ensures
        r == with_bit(byte, index, value),
{
    let mut b = byte;
    b.view_bits_mut::<Lsb0>().set(index as usize, value);
    b
}

/// Reads bit `index` (least significant bit first) of `byte` through a
/// `bitvec` view (`BitView::view_bits::<Lsb0>` then indexing).
/// Claimed: the result is that bit; indexing panics for an index past the
/// 8 bits of the view, which `requires` rules out.
#[verifier::external_body]
fn lsb0_get(byte: u8, index: u8) -> (r: bool)
    requires
        index < 8,
    ensures
        r == bit_of(byte, index),
{
    byte.view_bits::<Lsb0>()[index as usize]
}

/// Bit manipulation operations for state buffers
pub(crate) trait BitOps {
    /// Set a specific bit in a byte (nothing happens out of range)
    fn set_bit(&mut self, index: usize, bit_offset: u8, value: bool);

    /// Get a specific bit from a byte (`false` out of range)
    fn get_bit(&self, index: usize, bit_offset: u8) -> bool;

    /// Set multiple bits in a byte (nothing happens out of range)
    fn set_bits(&mut self, index: usize, offset: u8, size: u8, value: u8);

    /// Get multiple bits from a byte (`0` out of range)
    fn get_bits(&self, index: usize, offset: u8, size: u8) -> u8;
}

impl BitOps for [u8] {
    fn set_bit(&mut self, index: usize, bit_offset: u8, value: bool)
        ensures
            final(self)@ == (if index < old(self)@.len() && bit_offset < 8 {
                old(self)@.update(index as int, with_bit(old(self)@[index as int], bit_offset, value))
            } else {
                old(self)@
            }),
    {
        if index >= self.len() || bit_offset >= 8 {
            return;
        }
        let b = lsb0_set(self[index], bit_offset, value);
        self[index] = b;
    }

    fn get_bit(&self, index: usize, bit_offset: u8) -> (r: bool)
        ensures
            r == (index < self@.len() && bit_offset < 8 && bit_of(self@[index as int], bit_offset)),
    {
        if index >= self.len() || bit_offset >= 8 {
            return false;
        }
        lsb0_get(self[index], bit_offset)
    }

    fn set_bits(&mut self, index: usize, offset: u8, size: u8, value: u8)
        ensures
            final(self)@ == (if index < old(self)@.len() && field_fits(offset, size) {
                old(self)@.update(index as int, with_bits(old(self)@[index as int], offset, size, value))
            } else {
                old(self)@
            }),
    {
        if index >= self.len() || offset >= 8 || size > 8 || offset + size > 8 {
            return;
        }
        // Create a mask that only has bits set in the range we want to modify
        let mask: u8 = if size == 0 {
            0u8
        } else if size == 8 {
            0xFF
        } else {
            assert((1u8 << size) >= 1u8) by (bit_vector)
                requires
                    size < 8,
            ;
            ((1u8 << size) - 1) << offset
        };
        self[index] = (self[index] & !mask) | ((value << offset) & mask);
    }

    fn get_bits(&self, index: usize, offset: u8, size: u8) -> (r: u8)
        ensures
            r == (if index < self@.len() && field_fits(offset, size) {
                bits_of(self@[index as int], offset, size)
            } else {
                0u8
            }),
    {
        if index >= self.len() || offset >= 8 || size > 8 || offset + size > 8 {
            return 0;
        }
        let mask: u8 = if size == 0 {
            0u8
        } else if size == 8 {
            0xFF
        } else {
            assert((1u8 << size) >= 1u8) by (bit_vector)
                requires
                    size < 8,
            ;
            (1u8 << size) - 1
        };
        (self[index] >> offset) & mask
    }
}

} // verus!
