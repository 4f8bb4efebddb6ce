//! Decoding of the tablet's fixed-layout raw report.

use vstd::prelude::*;

verus! {

/// Number of bytes in one raw report.
pub const REPORT_LEN: usize = 64;

/// Offset of the high byte of the X coordinate.
pub const X_AXIS_HIGH: usize = 1;

/// Offset of the low byte of the X coordinate.
pub const X_AXIS_LOW: usize = 2;

/// Offset of the high byte of the Y coordinate.
pub const Y_AXIS_HIGH: usize = 3;

/// Offset of the low byte of the Y coordinate.
pub const Y_AXIS_LOW: usize = 4;

/// Offset of the high byte of the pressure.
pub const PRESSURE_HIGH: usize = 5;

/// Offset of the low byte of the pressure.
pub const PRESSURE_LOW: usize = 6;

/// Offset of the pen button code.
pub const PEN_BUTTONS: usize = 9;

/// Offset of the low byte of the tablet button mask.
pub const TABLET_BUTTONS_LOW: usize = 11;

/// Offset of the high byte of the tablet button mask.
pub const TABLET_BUTTONS_HIGH: usize = 12;

/// Bits that are set in every tablet button mask.
pub const TABLET_SENTINEL: u16 = 0xCC00;

/// The tablet button mask in which no button is pressed.
pub const ALL_RELEASED: u16 = 0xFFFF;

/// The unsigned 16-bit number whose big-endian bytes are `high`, `low`.
pub open spec fn be_u16(high: u8, low: u8) -> int {
    high as int * 256 + low as int
}

/// The two's-complement 16-bit number whose big-endian bytes are `high`, `low`.
pub open spec fn be_i16(high: u8, low: u8) -> int {
    if high >= 128 {
        be_u16(high, low) - 65536
    } else {
        be_u16(high, low)
    }
}

/// The tablet button mask that a report of bytes `data` carries: the two mask
/// bytes where the report holds both, no button pressed where it does not,
/// with the sentinel bits set in either case.
pub open spec fn tablet_mask_of(data: Seq<u8>) -> u16 {
    if data.len() > TABLET_BUTTONS_HIGH {
        (be_u16(data[TABLET_BUTTONS_HIGH as int], data[TABLET_BUTTONS_LOW as int]) as u16)
            | TABLET_SENTINEL
    } else {
        ALL_RELEASED
    }
}

/// What one report tells: the pen's position and raw pressure, the tablet
/// button mask and the pen button code.
#[derive(Clone, Copy, Debug, PartialEq, Eq, Structural)]
pub struct DecodedSample {
    pub x: i32,
    pub y: i32,
    pub pressure: i32,
    pub tablet_buttons: u16,
    pub pen_button: u8,
}

/// What a report of bytes `data` tells, where it reaches up to the pen button
/// code.
pub open spec fn decoded(data: Seq<u8>) -> DecodedSample
    recommends
        data.len() > PEN_BUTTONS,
{
    DecodedSample {
        x: be_i16(data[X_AXIS_HIGH as int], data[X_AXIS_LOW as int]) as i32,
        y: be_i16(data[Y_AXIS_HIGH as int], data[Y_AXIS_LOW as int]) as i32,
        pressure: be_u16(data[PRESSURE_HIGH as int], data[PRESSURE_LOW as int]) as i32,
        tablet_buttons: tablet_mask_of(data),
        pen_button: data[PEN_BUTTONS as int],
    }
}

/// The buffer that one interrupt read fills, with the accessors that decode it.
pub struct RawDataReader {
    pub data: Vec<u8>,
}

impl Default for RawDataReader {
    /// A reader without a buffer.
    fn default() -> (r: Self)
        ensures
            r.data@ == Seq::<u8>::empty(),
    {
        RawDataReader { data: Vec::new() }
    }
}

impl RawDataReader {
    /// A reader over a zeroed buffer of [`REPORT_LEN`] bytes.
    pub fn new() -> (r: Self)
        ensures
            r.data@ == Seq::new(REPORT_LEN as nat, |i: int| 0u8),
    {
        let mut data: Vec<u8> = Vec::new();
        let mut i: usize = 0;
        while i < REPORT_LEN
            invariant
                i <= REPORT_LEN,
                data@ == Seq::new(i as nat, |j: int| 0u8),
            decreases REPORT_LEN - i,
        {
            data.push(0u8);
            i += 1;
        }
        RawDataReader { data }
    }

    /// Combines two bytes, most significant first, into an unsigned number.
    pub fn u16_from_2_u8(&self, high: u8, low: u8) -> (r: u16)
        ensures
            r == be_u16(high, low),
    {
        let r = (high as u16) << 8 | low as u16;
        assert(((high as u16) << 8 | low as u16) == (high as u16) * 256 + (low as u16))
            by (bit_vector);
        r
    }

    /// Combines two bytes, most significant first, into a two's-complement
    /// number.
    pub fn i16_from_2_u8(&self, high: u8, low: u8) -> (r: i16)
        ensures
            r == be_i16(high, low),
    {
        let unsigned = self.u16_from_2_u8(high, low);
        if unsigned >= 0x8000 {
            (unsigned as i32 - 0x10000) as i16
        } else {
            unsigned as i16
        }
    }

    /// The X coordinate that the report carries.
    pub fn x_axis(&self) -> (r: i32)
        requires
            self.data@.len() > X_AXIS_LOW,
        ensures
            r == be_i16(self.data@[X_AXIS_HIGH as int], self.data@[X_AXIS_LOW as int]),
    {
        let raw = self.i16_from_2_u8(self.data[X_AXIS_HIGH], self.data[X_AXIS_LOW]);
        raw as i32
    }

    /// The Y coordinate that the report carries.
    pub fn y_axis(&self) -> (r: i32)
        requires
            self.data@.len() > Y_AXIS_LOW,
        ensures
            r == be_i16(self.data@[Y_AXIS_HIGH as int], self.data@[Y_AXIS_LOW as int]),
    {
        let raw = self.i16_from_2_u8(self.data[Y_AXIS_HIGH], self.data[Y_AXIS_LOW]);
        raw as i32
    }

    /// The raw pressure that the report carries.
    pub fn pressure(&self) -> (r: i32)
        requires
            self.data@.len() > PRESSURE_LOW,
        ensures
            r == be_u16(self.data@[PRESSURE_HIGH as int], self.data@[PRESSURE_LOW as int]),
    {
        self.u16_from_2_u8(self.data[PRESSURE_HIGH], self.data[PRESSURE_LOW]) as i32
    }

    /// The tablet button mask that the report carries; a bit that is 0 stands
    /// for a pressed button. The sentinel bits are set whatever the report
    /// holds.
    pub fn tablet_buttons_as_binary_flags(&self) -> (r: u16)
        ensures
            r == tablet_mask_of(self.data@),
            r & TABLET_SENTINEL == TABLET_SENTINEL,
    {
        let idx_h = TABLET_BUTTONS_HIGH;
        let idx_l = TABLET_BUTTONS_LOW;

        if idx_h >= self.data.len() || idx_l >= self.data.len() {
            assert(ALL_RELEASED | TABLET_SENTINEL == ALL_RELEASED) by (bit_vector);
            assert(ALL_RELEASED & TABLET_SENTINEL == TABLET_SENTINEL) by (bit_vector);
            return ALL_RELEASED | TABLET_SENTINEL;
        }
        let joined = self.u16_from_2_u8(self.data[idx_h], self.data[idx_l]);
        assert((joined | TABLET_SENTINEL) & TABLET_SENTINEL == TABLET_SENTINEL) by (bit_vector);
        joined | TABLET_SENTINEL
    }

    /// The pen button code that the report carries.
    pub fn pen_buttons(&self) -> (r: u8)
        requires
            self.data@.len() > PEN_BUTTONS,
        ensures
            r == self.data@[PEN_BUTTONS as int],
    {
        self.data[PEN_BUTTONS]
    }

    /// What the report tells, or nothing where the buffer ends before the pen
    /// button code.
    pub fn decode(&self) -> (r: Option<DecodedSample>)
        ensures
            r == if self.data@.len() > PEN_BUTTONS {
                Some(decoded(self.data@))
            } else {
                None::<DecodedSample>
            },
    {
        if self.data.len() <= PEN_BUTTONS {
            return None;
        }
        Some(
            DecodedSample {
                x: self.x_axis(),
                y: self.y_axis(),
                pressure: self.pressure(),
                tablet_buttons: self.tablet_buttons_as_binary_flags(),
                pen_button: self.pen_buttons(),
            },
        )
    }
}

} // verus!
