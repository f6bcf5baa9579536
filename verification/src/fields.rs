//! Typed values for the sensor registers that are made of named bits.
//!
//! A value is plain data: a setter returns a new value and touches nothing
//! else, so a whole register is always written in one piece.

use vstd::prelude::*;

verus! {

/// Whether every bit of `mask` is set in `bits`.
pub open spec fn has_bits(bits: u16, mask: u16) -> bool {
    bits & mask == mask
}

/// `bits` with the bits of `mask` set (`on`) or cleared.
pub open spec fn with_bits(bits: u16, mask: u16, on: bool) -> u16 {
    if on {
        bits | mask
    } else {
        bits & !mask
    }
}

/// Writing a field is read back by that field's getter, and no field that
/// shares no bit with it changes.
pub proof fn lemma_field_write(bits: u16, mask: u16, other: u16, on: bool)
    requires
        mask != 0,
        mask & other == 0,
    ensures
        has_bits(with_bits(bits, mask, on), mask) == on,
        has_bits(with_bits(bits, mask, on), other) == has_bits(bits, other),
        with_bits(bits, mask, on) & !mask == bits & !mask,
{
    assert((bits | mask) & mask == mask) by (bit_vector);
    assert(mask != 0 ==> (bits & !mask) & mask != mask) by (bit_vector);
    assert(mask & other == 0 ==> (bits | mask) & other == bits & other) by (bit_vector);
    assert(mask & other == 0 ==> (bits & !mask) & other == bits & other) by (bit_vector);
    assert((bits | mask) & !mask == bits & !mask) by (bit_vector);
    assert((bits & !mask) & !mask == bits & !mask) by (bit_vector);
}

fn test_bits(bits: u16, mask: u16) -> (set: bool)
    ensures
        set == has_bits(bits, mask),
{
    bits & mask == mask
}

fn write_bits(bits: u16, mask: u16, on: bool) -> (written: u16)
    ensures
        written == with_bits(bits, mask, on),
{
    if on {
        bits | mask
    } else {
        bits & !mask
    }
}

/// Bit 0 of output control: hold back changes to the registers that affect
/// brightness until the bit is cleared again.
pub const SYNCHRONIZE_CHANGES: u16 = 0x0001;

/// Bit 1 of output control: the sensor reads out while it is set.
pub const CHIP_ENABLE: u16 = 0x0002;

/// Bit 6 of output control: put a test pattern out in place of the image.
pub const USE_TEST_DATA: u16 = 0x0040;

/// Bit 8 of read options 1: expose on the trigger, not continuously.
pub const SNAPSHOT_MODE: u16 = 0x0100;

/// Bit 0 of calibration control: take the black level from the offset
/// registers, not from the sensor's own calibration.
pub const MANUAL_OVERRIDE: u16 = 0x0001;

/// The output control register, (0000 0000 0d00 00dd).
#[derive(Clone, Copy, Debug, PartialEq, Eq)]
pub struct OutputControl(pub u16);

impl OutputControl {
    /// The register as the sensor powers up: enabled, nothing else set.
    pub fn new() -> (value: Self)
        ensures
            value.0 == 0x0002,
    {
        OutputControl(0x0002)
    }

    /// The register with exactly the three named bits as given.
    pub fn from_flags(synchronize_changes: bool, chip_enable: bool, use_test_data: bool) -> (value:
        Self)
        ensures
            value.0 == flag_bits(synchronize_changes, chip_enable, use_test_data),
            has_bits(value.0, SYNCHRONIZE_CHANGES) == synchronize_changes,
            has_bits(value.0, CHIP_ENABLE) == chip_enable,
            has_bits(value.0, USE_TEST_DATA) == use_test_data,
    {
        let first: u16 = if synchronize_changes {
            1
        } else {
            0
        };
        let second: u16 = if chip_enable {
            2
        } else {
            0
        };
        let third: u16 = if use_test_data {
            64
        } else {
            0
        };
        let bits: u16 = first + second + third;
        assert(has_bits(bits, 0x0001) == synchronize_changes && has_bits(bits, 0x0002)
            == chip_enable && has_bits(bits, 0x0040) == use_test_data) by (bit_vector)
            requires
                bits == first + second + third,
                first == (if synchronize_changes {
                    1u16
                } else {
                    0u16
                }),
                second == (if chip_enable {
                    2u16
                } else {
                    0u16
                }),
                third == (if use_test_data {
                    64u16
                } else {
                    0u16
                }),
        ;
        OutputControl(bits)
    }

    /// Whether changes are held back.
    pub fn synchronize_changes(&self) -> (set: bool)
        ensures
            set == has_bits(self.0, SYNCHRONIZE_CHANGES),
    {
        test_bits(self.0, SYNCHRONIZE_CHANGES)
    }

    /// The value with that bit set (`on`) or cleared, and the others as
    /// they are.
    pub fn set_synchronize_changes(self, on: bool) -> (value: Self)
        ensures
            value.0 == with_bits(self.0, SYNCHRONIZE_CHANGES, on),
    {
        OutputControl(write_bits(self.0, SYNCHRONIZE_CHANGES, on))
    }

    /// Whether the sensor is enabled.
    pub fn chip_enable(&self) -> (set: bool)
        ensures
            set == has_bits(self.0, CHIP_ENABLE),
    {
        test_bits(self.0, CHIP_ENABLE)
    }

    /// The value with that bit set (`on`) or cleared, and the others as
    /// they are.
    pub fn set_chip_enable(self, on: bool) -> (value: Self)
        ensures
            value.0 == with_bits(self.0, CHIP_ENABLE, on),
    {
        OutputControl(write_bits(self.0, CHIP_ENABLE, on))
    }

    /// Whether the test pattern is put out.
    pub fn use_test_data(&self) -> (set: bool)
        ensures
            set == has_bits(self.0, USE_TEST_DATA),
    {
        test_bits(self.0, USE_TEST_DATA)
    }

    /// The value with that bit set (`on`) or cleared, and the others as
    /// they are.
    pub fn set_use_test_data(self, on: bool) -> (value: Self)
        ensures
            value.0 == with_bits(self.0, USE_TEST_DATA, on),
    {
        OutputControl(write_bits(self.0, USE_TEST_DATA, on))
    }
}

/// The value of output control whose three named bits are as given and
/// whose other bits are clear.
pub open spec fn flag_bits(synchronize_changes: bool, chip_enable: bool, use_test_data: bool) -> u16 {
    ((if synchronize_changes {
        1int
    } else {
        0int
    }) + (if chip_enable {
        2int
    } else {
        0int
    }) + (if use_test_data {
        64int
    } else {
        0int
    })) as u16
}

/// Output control as written to wake the sensor (`true`) or to put it to
/// sleep: the power-up value with chip enable as given.
pub open spec fn chip_enable_bits(on: bool) -> u16 {
    if on {
        0x0002
    } else {
        0x0000
    }
}

/// The power-up value with chip enable set or cleared is `chip_enable_bits`.
pub proof fn lemma_chip_enable_bits(on: bool)
    ensures
        with_bits(0x0002, CHIP_ENABLE, on) == chip_enable_bits(on),
        chip_enable_bits(on) == flag_bits(false, on, false),
{
    assert(0x0002u16 | 0x0002u16 == 0x0002u16) by (bit_vector);
    assert(0x0002u16 & !0x0002u16 == 0x0000u16) by (bit_vector);
}

/// The read options 1 register, (1000 dddd 00dd dd00).
#[derive(Clone, Copy, Debug, PartialEq, Eq)]
pub struct ReadOptions1(pub u16);

impl ReadOptions1 {
    /// The register as the sensor powers up.
    pub fn new() -> (value: Self)
        ensures
            value.0 == 0x8000,
    {
        ReadOptions1(0x8000)
    }

    /// Whether the sensor exposes on the trigger.
    pub fn snapshot_mode(&self) -> (set: bool)
        ensures
            set == has_bits(self.0, SNAPSHOT_MODE),
    {
        test_bits(self.0, SNAPSHOT_MODE)
    }

    /// The value with that bit set (`on`) or cleared, and the others as
    /// they are.
    pub fn set_snapshot_mode(self, on: bool) -> (value: Self)
        ensures
            value.0 == with_bits(self.0, SNAPSHOT_MODE, on),
    {
        ReadOptions1(write_bits(self.0, SNAPSHOT_MODE, on))
    }
}

/// Read options 1 as the controller writes it: power-up value, snapshot on.
pub const SNAPSHOT_OPTIONS: u16 = 0x8100;

/// The calibration control register, (d00d d100 1001 1ddd).
#[derive(Clone, Copy, Debug, PartialEq, Eq)]
pub struct CalCtrl(pub u16);

impl CalCtrl {
    /// The register as the sensor powers up.
    pub fn new() -> (value: Self)
        ensures
            value.0 == 0x0498,
    {
        CalCtrl(0x0498)
    }

    /// Whether the black level is taken from the offset registers.
    pub fn manual_override_of_black_level_correction(&self) -> (set: bool)
        ensures
            set == has_bits(self.0, MANUAL_OVERRIDE),
    {
        test_bits(self.0, MANUAL_OVERRIDE)
    }

    /// The value with that bit set (`on`) or cleared, and the others as
    /// they are.
    pub fn set_manual_override_of_black_level_correction(self, on: bool) -> (value: Self)
        ensures
            value.0 == with_bits(self.0, MANUAL_OVERRIDE, on),
    {
        CalCtrl(write_bits(self.0, MANUAL_OVERRIDE, on))
    }
}

/// Calibration control as the controller writes it: power-up value, manual
/// override on.
pub const MANUAL_CALIBRATION: u16 = 0x0499;

/// The two values the controller writes are the power-up values with one
/// bit set.
pub proof fn lemma_configured_values()
    ensures
        with_bits(0x8000, SNAPSHOT_MODE, true) == SNAPSHOT_OPTIONS,
        with_bits(0x0498, MANUAL_OVERRIDE, true) == MANUAL_CALIBRATION,
{
    assert(0x8000u16 | 0x0100u16 == 0x8100u16) by (bit_vector);
    assert(0x0498u16 | 0x0001u16 == 0x0499u16) by (bit_vector);
}

} // verus!
