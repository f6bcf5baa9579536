//! The register protocol of the MT9M001 on its two-wire bus.
//!
//! A register is read by writing its one-byte address and then reading two
//! bytes, most significant first; it is written by one write of the address
//! followed by the two bytes of the value. The driver names the transfers
//! and reads their replies; it performs none of them.

use crate::fields::OutputControl;
use crate::fields::flag_bits;
use crate::registers;
use vstd::prelude::*;

verus! {

/// The sensor's address on the bus.
pub const ADDRESS: u8 = 0x5D;

/// Why a register access did not complete.
#[derive(Debug, Clone, Copy, PartialEq, Eq, Structural)]
pub enum Error {
    /// A read on the bus was not acknowledged or timed out.
    I2CRead,
    /// A write on the bus was not acknowledged or timed out.
    I2CWrite,
    /// The value is outside what the register accepts; the bus was not used.
    Value,
}

/// One transfer on the bus, addressed to the sensor.
#[derive(Debug, Clone, Copy, PartialEq, Eq, Structural)]
pub enum BusRequest {
    /// Write the address of the register that the next read is from.
    Select { register: u8 },
    /// Write a register's address and its new value.
    Store { register: u8, high: u8, low: u8 },
    /// Read the two bytes of the selected register.
    Fetch,
}

/// How a transfer ended.
#[derive(Debug, Clone, Copy, PartialEq, Eq, Structural)]
pub enum BusReply {
    /// It completed and brought nothing back.
    Done,
    /// It completed and brought back two bytes, in the order they were read.
    Data { high: u8, low: u8 },
    /// It was not acknowledged, or timed out.
    Failed,
}

/// Where a register access stands once a transfer has been answered.
#[derive(Debug, Clone, Copy, PartialEq, Eq, Structural)]
pub enum Progress {
    /// The access goes on with this transfer.
    Request(BusRequest),
    /// The register was read and holds this value.
    Value(u16),
    /// The register was written.
    Stored,
    /// The access is over and has failed.
    Failed(Error),
}

/// The more significant byte of a register value.
pub open spec fn high_byte(value: u16) -> u8 {
    (value / 256) as u8
}

/// The less significant byte of a register value.
pub open spec fn low_byte(value: u16) -> u8 {
    (value % 256) as u8
}

/// The register value that two bytes read from the bus stand for.
pub open spec fn word(high: u8, low: u8) -> u16 {
    (high * 256 + low) as u16
}

/// The transfer that opens a read of `register`.
pub open spec fn select(register: u8) -> BusRequest {
    BusRequest::Select { register }
}

/// The transfer that writes `value` to `register`.
pub open spec fn store(register: u8, value: u16) -> BusRequest {
    BusRequest::Store { register, high: high_byte(value), low: low_byte(value) }
}

/// What a setter that checks its value answers: the write, or a refusal
/// that names no transfer at all.
pub open spec fn checked_store(accepted: bool, register: u8, value: u16) -> Result<
    BusRequest,
    Error,
> {
    if accepted {
        Ok(store(register, value))
    } else {
        Err(Error::Value)
    }
}

/// A column start must be even.
pub open spec fn column_start_accepted(value: u16) -> bool {
    value % 2 == 0
}

/// A row size must be at least 2.
pub open spec fn row_size_accepted(value: u16) -> bool {
    value >= 2
}

/// A column size must be odd and at least 3.
pub open spec fn column_size_accepted(value: u16) -> bool {
    value % 2 == 1 && value >= 3
}

/// Blanking and shutter delay hold eleven bits.
pub open spec fn eleven_bits(value: u16) -> bool {
    value <= 0x7FF
}

/// The shutter width holds fourteen bits.
pub open spec fn fourteen_bits(value: u16) -> bool {
    value <= 0x3FFF
}

/// What follows from the answer to a transfer: a write that fails ends the
/// access with `I2CWrite`, a read that fails or brings nothing with
/// `I2CRead`; an acknowledged `Select` is followed by the `Fetch`, and the
/// bytes fetched are the value, most significant byte first. Nothing is
/// retried.
pub open spec fn next(request: BusRequest, reply: BusReply) -> Progress {
    match request {
        BusRequest::Select { .. } => if reply is Failed {
            Progress::Failed(Error::I2CWrite)
        } else {
            Progress::Request(BusRequest::Fetch)
        },
        BusRequest::Store { .. } => if reply is Failed {
            Progress::Failed(Error::I2CWrite)
        } else {
            Progress::Stored
        },
        BusRequest::Fetch => match reply {
            BusReply::Data { high, low } => Progress::Value(word(high, low)),
            _ => Progress::Failed(Error::I2CRead),
        },
    }
}

impl BusRequest {
    /// The bytes this transfer writes to the sensor, in order.
    pub open spec fn written(self) -> Seq<u8> {
        match self {
            BusRequest::Select { register } => seq![register],
            BusRequest::Store { register, high, low } => seq![register, high, low],
            BusRequest::Fetch => seq![],
        }
    }

    /// How many bytes this transfer reads from the sensor.
    pub open spec fn read_len(self) -> nat {
        match self {
            BusRequest::Fetch => 2,
            _ => 0,
        }
    }

    /// The bytes to write.
    pub fn bytes(&self) -> (bytes: Vec<u8>)
        ensures
            bytes@ == self.written(),
    {
        let mut bytes: Vec<u8> = Vec::new();
        match *self {
            BusRequest::Select { register } => {
                bytes.push(register);
            },
            BusRequest::Store { register, high, low } => {
                bytes.push(register);
                bytes.push(high);
                bytes.push(low);
            },
            BusRequest::Fetch => {},
        }
        assert(bytes@ =~= self.written());
        bytes
    }

    /// The number of bytes to read.
    pub fn expects(&self) -> (len: usize)
        ensures
            len == self.read_len(),
    {
        match *self {
            BusRequest::Fetch => 2,
            _ => 0,
        }
    }
}

/// The two bytes of a register value, most significant first.
pub fn split(value: u16) -> (bytes: (u8, u8))
    ensures
        bytes.0 == high_byte(value),
        bytes.1 == low_byte(value),
{
    ((value / 256) as u8, (value % 256) as u8)
}

/// The register value that two bytes stand for, the first being the more
/// significant.
pub fn join(high: u8, low: u8) -> (value: u16)
    ensures
        value == word(high, low),
{
    let high: u16 = high as u16;
    let low: u16 = low as u16;
    high * 256 + low
}

/// A value split into bytes and joined again is the same value, and two
/// bytes joined and split again are the same bytes.
pub proof fn lemma_bytes_round_trip(value: u16, high: u8, low: u8)
    ensures
        word(high_byte(value), low_byte(value)) == value,
        high_byte(word(high, low)) == high,
        low_byte(word(high, low)) == low,
{
}

/// A register that is written and then read back: when the bytes that the
/// `Fetch` brings are those that the `Store` carried, the value read is the
/// value written, and the three transfers are all the bus sees.
pub proof fn lemma_store_then_read(register: u8, value: u16)
    ensures
        store(register, value).written() == seq![register, high_byte(value), low_byte(value)],
        select(register).written() == seq![register],
        next(select(register), BusReply::Done) == Progress::Request(BusRequest::Fetch),
        BusRequest::Fetch.read_len() == 2,
        next(
            BusRequest::Fetch,
            BusReply::Data { high: high_byte(value), low: low_byte(value) },
        ) == Progress::Value(value),
{
    lemma_bytes_round_trip(value, 0, 0);
}

/// The driver of one MT9M001. It keeps no copy of any register: every
/// access is a fresh exchange with the sensor.
#[derive(Debug, Clone, Copy)]
pub struct MT9M001 {}

impl MT9M001 {
    /// A driver for the sensor at `ADDRESS`.
    pub fn new() -> Self {
        MT9M001 {  }
    }

    /// Opens a read of `register`: the transfer to perform first.
    pub fn get_u16(&self, register: u8) -> (request: BusRequest)
        ensures
            request == select(register),
    {
        BusRequest::Select { register }
    }

    /// The transfer that writes `value` to `register`.
    pub fn set_u16(&self, register: u8, value: u16) -> (request: BusRequest)
        ensures
            request == store(register, value),
    {
        let bytes = split(value);
        BusRequest::Store { register, high: bytes.0, low: bytes.1 }
    }

    /// Takes the answer to `request` and says how the access goes on.
    pub fn resume(&self, request: BusRequest, reply: BusReply) -> (progress: Progress)
        ensures
            progress == next(request, reply),
    {
        match request {
            BusRequest::Select { .. } => match reply {
                BusReply::Failed => Progress::Failed(Error::I2CWrite),
                _ => Progress::Request(BusRequest::Fetch),
            },
            BusRequest::Store { .. } => match reply {
                BusReply::Failed => Progress::Failed(Error::I2CWrite),
                _ => Progress::Stored,
            },
            BusRequest::Fetch => match reply {
                BusReply::Data { high, low } => Progress::Value(join(high, low)),
                _ => Progress::Failed(Error::I2CRead),
            },
        }
    }

    /// Opens a read of the chip version (1000 0100 0001 0001).
    pub fn get_chip_version(&self) -> (request: BusRequest)
        ensures
            request == select(registers::CHIP_VERSION),
    {
        self.get_u16(registers::CHIP_VERSION)
    }

    /// Opens a read of the row start (0000 0ddd dddd dddd).
    pub fn get_row_start(&self) -> (request: BusRequest)
        ensures
            request == select(registers::ROW_START),
    {
        self.get_u16(registers::ROW_START)
    }

    /// Writes the row start (0000 0ddd dddd dddd).
    pub fn set_row_start(&self, value: u16) -> (request: BusRequest)
        ensures
            request == store(registers::ROW_START, value),
    {
        self.set_u16(registers::ROW_START, value)
    }

    /// Opens a read of the column start (0000 0ddd dddd dddd).
    pub fn get_column_start(&self) -> (request: BusRequest)
        ensures
            request == select(registers::COLUMN_START),
    {
        self.get_u16(registers::COLUMN_START)
    }

    /// Writes the column start (0000 0ddd dddd dddd), which must be even.
    pub fn set_column_start(&self, value: u16) -> (request: Result<BusRequest, Error>)
        ensures
            request == checked_store(column_start_accepted(value), registers::COLUMN_START, value),
    {
        if value % 2 != 0 {
            return Err(Error::Value);
        }
        Ok(self.set_u16(registers::COLUMN_START, value))
    }

    /// Opens a read of the row size, the window's height (0000 0ddd dddd dddd).
    pub fn get_row_size(&self) -> (request: BusRequest)
        ensures
            request == select(registers::ROW_SIZE),
    {
        self.get_u16(registers::ROW_SIZE)
    }

    /// Writes the row size, the window's height (0000 0ddd dddd dddd), which
    /// must be at least 2.
    pub fn set_row_size(&self, value: u16) -> (request: Result<BusRequest, Error>)
        ensures
            request == checked_store(row_size_accepted(value), registers::ROW_SIZE, value),
    {
        if value < 2 {
            return Err(Error::Value);
        }
        Ok(self.set_u16(registers::ROW_SIZE, value))
    }

    /// Opens a read of the column size, the window's width (0000 0ddd dddd dddd).
    pub fn get_column_size(&self) -> (request: BusRequest)
        ensures
            request == select(registers::COLUMN_SIZE),
    {
        self.get_u16(registers::COLUMN_SIZE)
    }

    /// Writes the column size, the window's width (0000 0ddd dddd dddd), which
    /// must be odd and at least 3.
    pub fn set_column_size(&self, value: u16) -> (request: Result<BusRequest, Error>)
        ensures
            request == checked_store(column_size_accepted(value), registers::COLUMN_SIZE, value),
    {
        if value % 2 == 0 || value < 3 {
            return Err(Error::Value);
        }
        Ok(self.set_u16(registers::COLUMN_SIZE, value))
    }

    /// Opens a read of the horizontal blanking (0000 0ddd dddd dddd).
    pub fn get_horizontal_blanking(&self) -> (request: BusRequest)
        ensures
            request == select(registers::HORIZONTAL_BLANKING),
    {
        self.get_u16(registers::HORIZONTAL_BLANKING)
    }

    /// Writes the horizontal blanking (0000 0ddd dddd dddd), at most 0x7FF.
    pub fn set_horizontal_blanking(&self, value: u16) -> (request: Result<BusRequest, Error>)
        ensures
            request == checked_store(eleven_bits(value), registers::HORIZONTAL_BLANKING, value),
    {
        if value > 0x7FF {
            return Err(Error::Value);
        }
        Ok(self.set_u16(registers::HORIZONTAL_BLANKING, value))
    }

    /// Opens a read of the vertical blanking (0000 0ddd dddd dddd).
    pub fn get_vertical_blanking(&self) -> (request: BusRequest)
        ensures
            request == select(registers::VERTICAL_BLANKING),
    {
        self.get_u16(registers::VERTICAL_BLANKING)
    }

    /// Writes the vertical blanking (0000 0ddd dddd dddd), at most 0x7FF.
    pub fn set_vertical_blanking(&self, value: u16) -> (request: Result<BusRequest, Error>)
        ensures
            request == checked_store(eleven_bits(value), registers::VERTICAL_BLANKING, value),
    {
        if value > 0x7FF {
            return Err(Error::Value);
        }
        Ok(self.set_u16(registers::VERTICAL_BLANKING, value))
    }

    /// Opens a read of output control (0000 0000 0d00 00dd).
    pub fn get_output_control(&self) -> (request: BusRequest)
        ensures
            request == select(registers::OUTPUT_CONTROL),
    {
        self.get_u16(registers::OUTPUT_CONTROL)
    }

    /// Writes output control (0000 0000 0d00 00dd) with its three bits as
    /// given and the others clear.
    ///
    /// * `synchronize_changes`: while set, changes to the registers that
    ///   affect brightness (integration time and delay, gain, blanking,
    ///   window, skip and mirror) are held back; once clear they take effect
    ///   at the next frame boundary.
    /// * `chip_enable`: while clear, the sensor stops reading out, and reads
    ///   out from the first row of a new frame once it is set again.
    /// * `use_test_data`: while set, a test pattern comes out in place of the
    ///   sampled image, with the same size and frame rate.
    pub fn set_output_control(
        &self,
        synchronize_changes: bool,
        chip_enable: bool,
        use_test_data: bool,
    ) -> (request: BusRequest)
        ensures
            request == store(
                registers::OUTPUT_CONTROL,
                flag_bits(synchronize_changes, chip_enable, use_test_data),
            ),
    {
        let value = OutputControl::from_flags(synchronize_changes, chip_enable, use_test_data);
        self.set_u16(registers::OUTPUT_CONTROL, value.0)
    }

    /// Opens a read of the shutter width (00dd dddd dddd dddd), the number of rows of
    /// integration; 0x0419 at power-up.
    pub fn get_shutter_width(&self) -> (request: BusRequest)
        ensures
            request == select(registers::SHUTTER_WIDTH),
    {
        self.get_u16(registers::SHUTTER_WIDTH)
    }

    /// Writes the shutter width (00dd dddd dddd dddd), the number of rows of
    /// integration, at most 0x3FFF.
    pub fn set_shutter_width(&self, value: u16) -> (request: Result<BusRequest, Error>)
        ensures
            request == checked_store(fourteen_bits(value), registers::SHUTTER_WIDTH, value),
    {
        if value > 0x3FFF {
            return Err(Error::Value);
        }
        Ok(self.set_u16(registers::SHUTTER_WIDTH, value))
    }

    /// Opens a read of restart (0000 0000 0000 000d), which the sensor clears again after the
    /// frame restart.
    pub fn get_restart(&self) -> (request: BusRequest)
        ensures
            request == select(registers::RESTART),
    {
        self.get_u16(registers::RESTART)
    }

    /// Writes 1 to restart (0000 0000 0000 000d): the sensor abandons the
    /// frame it is reading out and starts again from the first row.
    pub fn set_restart(&self) -> (request: BusRequest)
        ensures
            request == store(registers::RESTART, 1),
    {
        self.set_u16(registers::RESTART, 1)
    }

    /// Opens a read of the shutter delay (0000 0ddd dddd dddd): the number of master clocks,
    /// times four, that the sensor waits before it resets a row; 0 at power-up.
    pub fn get_shutter_delay(&self) -> (request: BusRequest)
        ensures
            request == select(registers::SHUTTER_DELAY),
    {
        self.get_u16(registers::SHUTTER_DELAY)
    }

    /// Writes the shutter delay (0000 0ddd dddd dddd), at most 0x7FF.
    pub fn set_shutter_delay(&self, value: u16) -> (request: Result<BusRequest, Error>)
        ensures
            request == checked_store(eleven_bits(value), registers::SHUTTER_DELAY, value),
    {
        if value > 0x7FF {
            return Err(Error::Value);
        }
        Ok(self.set_u16(registers::SHUTTER_DELAY, value))
    }

    /// Opens a read of reset (0000 0000 0000 000d).
    pub fn get_reset(&self) -> (request: BusRequest)
        ensures
            request == select(registers::RESET),
    {
        self.get_u16(registers::RESET)
    }

    /// Writes reset (0000 0000 0000 000d): 1 puts the sensor in reset, 0
    /// lets it resume from its power-up state.
    pub fn set_reset(&self, reset: bool) -> (request: BusRequest)
        ensures
            request == store(registers::RESET, if reset {
                1u16
            } else {
                0u16
            }),
    {
        let value: u16 = if reset {
            1
        } else {
            0
        };
        self.set_u16(registers::RESET, value)
    }

    /// Opens a read of read options 1 (1000 dddd 00dd dd00).
    pub fn get_read_options_1(&self) -> (request: BusRequest)
        ensures
            request == select(registers::READ_OPTIONS_1),
    {
        self.get_u16(registers::READ_OPTIONS_1)
    }

    /// Writes read options 1 (1000 dddd 00dd dd00).
    pub fn set_read_options_1(&self, value: u16) -> (request: BusRequest)
        ensures
            request == store(registers::READ_OPTIONS_1, value),
    {
        self.set_u16(registers::READ_OPTIONS_1, value)
    }

    /// Opens a read of read options 2 (dd01 0dd1 d00d d10d).
    pub fn get_read_options_2(&self) -> (request: BusRequest)
        ensures
            request == select(registers::READ_OPTIONS_2),
    {
        self.get_u16(registers::READ_OPTIONS_2)
    }

    /// Writes read options 2 (dd01 0dd1 d00d d10d).
    pub fn set_read_options_2(&self, value: u16) -> (request: BusRequest)
        ensures
            request == store(registers::READ_OPTIONS_2, value),
    {
        self.set_u16(registers::READ_OPTIONS_2, value)
    }

    /// Opens a read of the gain of even rows, even columns (0000 0000 0ddd dddd).
    pub fn get_gain_even_row_even_column(&self) -> (request: BusRequest)
        ensures
            request == select(registers::GAIN_EVEN_ROW_EVEN_COLUMN),
    {
        self.get_u16(registers::GAIN_EVEN_ROW_EVEN_COLUMN)
    }

    /// Writes the gain of even rows, even columns (0000 0000 0ddd dddd).
    pub fn set_gain_even_row_even_column(&self, value: u16) -> (request: BusRequest)
        ensures
            request == store(registers::GAIN_EVEN_ROW_EVEN_COLUMN, value),
    {
        self.set_u16(registers::GAIN_EVEN_ROW_EVEN_COLUMN, value)
    }

    /// Opens a read of the gain of odd rows, even columns (0000 0000 0ddd dddd).
    pub fn get_gain_odd_row_even_column(&self) -> (request: BusRequest)
        ensures
            request == select(registers::GAIN_ODD_ROW_EVEN_COLUMN),
    {
        self.get_u16(registers::GAIN_ODD_ROW_EVEN_COLUMN)
    }

    /// Writes the gain of odd rows, even columns (0000 0000 0ddd dddd).
    pub fn set_gain_odd_row_even_column(&self, value: u16) -> (request: BusRequest)
        ensures
            request == store(registers::GAIN_ODD_ROW_EVEN_COLUMN, value),
    {
        self.set_u16(registers::GAIN_ODD_ROW_EVEN_COLUMN, value)
    }

    /// Opens a read of the gain of even rows, odd columns (0000 0000 0ddd dddd).
    pub fn get_gain_even_row_odd_column(&self) -> (request: BusRequest)
        ensures
            request == select(registers::GAIN_EVEN_ROW_ODD_COLUMN),
    {
        self.get_u16(registers::GAIN_EVEN_ROW_ODD_COLUMN)
    }

    /// Writes the gain of even rows, odd columns (0000 0000 0ddd dddd).
    pub fn set_gain_even_row_odd_column(&self, value: u16) -> (request: BusRequest)
        ensures
            request == store(registers::GAIN_EVEN_ROW_ODD_COLUMN, value),
    {
        self.set_u16(registers::GAIN_EVEN_ROW_ODD_COLUMN, value)
    }

    /// Opens a read of the gain of odd rows, odd columns (0000 0000 0ddd dddd).
    pub fn get_gain_odd_row_odd_column(&self) -> (request: BusRequest)
        ensures
            request == select(registers::GAIN_ODD_ROW_ODD_COLUMN),
    {
        self.get_u16(registers::GAIN_ODD_ROW_ODD_COLUMN)
    }

    /// Writes the gain of odd rows, odd columns (0000 0000 0ddd dddd).
    pub fn set_gain_odd_row_odd_column(&self, value: u16) -> (request: BusRequest)
        ensures
            request == store(registers::GAIN_ODD_ROW_ODD_COLUMN, value),
    {
        self.set_u16(registers::GAIN_ODD_ROW_ODD_COLUMN, value)
    }

    /// Opens a read of the global gain (0000 0000 0ddd dddd).
    pub fn get_global_gain(&self) -> (request: BusRequest)
        ensures
            request == select(registers::GLOBAL_GAIN),
    {
        self.get_u16(registers::GLOBAL_GAIN)
    }

    /// Writes the global gain (0000 0000 0ddd dddd).
    pub fn set_global_gain(&self, value: u16) -> (request: BusRequest)
        ensures
            request == store(registers::GLOBAL_GAIN, value),
    {
        self.set_u16(registers::GLOBAL_GAIN, value)
    }

    /// Opens a read of the calibration threshold (dddd dddd d0dd dddd).
    pub fn get_cal_threshold(&self) -> (request: BusRequest)
        ensures
            request == select(registers::CAL_THRESHOLD),
    {
        self.get_u16(registers::CAL_THRESHOLD)
    }

    /// Writes the calibration threshold (dddd dddd d0dd dddd).
    pub fn set_cal_threshold(&self, value: u16) -> (request: BusRequest)
        ensures
            request == store(registers::CAL_THRESHOLD, value),
    {
        self.set_u16(registers::CAL_THRESHOLD, value)
    }

    /// Opens a read of the analog offset correction of even rows, even columns
    /// (0000 000d dddd dddd).
    pub fn get_analog_offset_correction_even_row_even_column(&self) -> (request: BusRequest)
        ensures
            request == select(registers::ANALOG_OFFSET_CORRECTION_EVEN_ROW_EVEN_COLUMN),
    {
        self.get_u16(registers::ANALOG_OFFSET_CORRECTION_EVEN_ROW_EVEN_COLUMN)
    }

    /// Writes the analog offset correction of even rows, even columns
    /// (0000 000d dddd dddd).
    pub fn set_analog_offset_correction_even_row_even_column(&self, value: u16) -> (request: BusRequest)
        ensures
            request == store(registers::ANALOG_OFFSET_CORRECTION_EVEN_ROW_EVEN_COLUMN, value),
    {
        self.set_u16(registers::ANALOG_OFFSET_CORRECTION_EVEN_ROW_EVEN_COLUMN, value)
    }

    /// Opens a read of the analog offset correction of odd rows, odd columns
    /// (0000 000d dddd dddd).
    pub fn get_analog_offset_correction_odd_row_odd_column(&self) -> (request: BusRequest)
        ensures
            request == select(registers::ANALOG_OFFSET_CORRECTION_ODD_ROW_ODD_COLUMN),
    {
        self.get_u16(registers::ANALOG_OFFSET_CORRECTION_ODD_ROW_ODD_COLUMN)
    }

    /// Writes the analog offset correction of odd rows, odd columns
    /// (0000 000d dddd dddd).
    pub fn set_analog_offset_correction_odd_row_odd_column(&self, value: u16) -> (request: BusRequest)
        ensures
            request == store(registers::ANALOG_OFFSET_CORRECTION_ODD_ROW_ODD_COLUMN, value),
    {
        self.set_u16(registers::ANALOG_OFFSET_CORRECTION_ODD_ROW_ODD_COLUMN, value)
    }

    /// Opens a read of calibration control (d00d d100 1001 1ddd).
    pub fn get_cal_ctrl(&self) -> (request: BusRequest)
        ensures
            request == select(registers::CAL_CTRL),
    {
        self.get_u16(registers::CAL_CTRL)
    }

    /// Writes calibration control (d00d d100 1001 1ddd).
    pub fn set_cal_ctrl(&self, value: u16) -> (request: BusRequest)
        ensures
            request == store(registers::CAL_CTRL, value),
    {
        self.set_u16(registers::CAL_CTRL, value)
    }

    /// Opens a read of the analog offset correction of even rows, odd columns
    /// (0000 000d dddd dddd).
    pub fn get_analog_offset_correction_even_row_odd_column(&self) -> (request: BusRequest)
        ensures
            request == select(registers::ANALOG_OFFSET_CORRECTION_EVEN_ROW_ODD_COLUMN),
    {
        self.get_u16(registers::ANALOG_OFFSET_CORRECTION_EVEN_ROW_ODD_COLUMN)
    }

    /// Writes the analog offset correction of even rows, odd columns
    /// (0000 000d dddd dddd).
    pub fn set_analog_offset_correction_even_row_odd_column(&self, value: u16) -> (request: BusRequest)
        ensures
            request == store(registers::ANALOG_OFFSET_CORRECTION_EVEN_ROW_ODD_COLUMN, value),
    {
        self.set_u16(registers::ANALOG_OFFSET_CORRECTION_EVEN_ROW_ODD_COLUMN, value)
    }

    /// Opens a read of the analog offset correction of odd rows, even columns
    /// (0000 000d dddd dddd).
    pub fn get_analog_offset_correction_odd_row_even_column(&self) -> (request: BusRequest)
        ensures
            request == select(registers::ANALOG_OFFSET_CORRECTION_ODD_ROW_EVEN_COLUMN),
    {
        self.get_u16(registers::ANALOG_OFFSET_CORRECTION_ODD_ROW_EVEN_COLUMN)
    }

    /// Writes the analog offset correction of odd rows, even columns
    /// (0000 000d dddd dddd).
    pub fn set_analog_offset_correction_odd_row_even_column(&self, value: u16) -> (request: BusRequest)
        ensures
            request == store(registers::ANALOG_OFFSET_CORRECTION_ODD_ROW_EVEN_COLUMN, value),
    {
        self.set_u16(registers::ANALOG_OFFSET_CORRECTION_ODD_ROW_EVEN_COLUMN, value)
    }

    /// Opens a read of chip enable (0000 0000 0000 00dd).
    pub fn get_chip_enable(&self) -> (request: BusRequest)
        ensures
            request == select(registers::CHIP_ENABLE),
    {
        self.get_u16(registers::CHIP_ENABLE)
    }

    /// Writes chip enable (0000 0000 0000 00dd).
    pub fn set_chip_enable(&self, value: u16) -> (request: BusRequest)
        ensures
            request == store(registers::CHIP_ENABLE, value),
    {
        self.set_u16(registers::CHIP_ENABLE, value)
    }
}

} // verus!

