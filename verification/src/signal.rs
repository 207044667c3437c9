//! The lines between an adapter and the display, and how each adapter packs them into its port
//! byte.

use vstd::prelude::*;
use crate::bit_range::{bit_range, field_of, set_bit_range, with_field};

verus! {

/// The logical state of the lines that an adapter drives.
#[derive(Debug, PartialEq, Eq, Clone, Copy, Structural)]
pub struct SignalState {
    /// Register select: `false` for an instruction, `true` for data.
    pub rs: bool,
    /// Read/write: `false` for a write, `true` for a read.
    pub rw: bool,
    /// The enable line of controller 0.
    pub enable0: bool,
    /// The enable line of controller 1.
    pub enable1: bool,
    /// The backlight.
    pub backlight: bool,
    /// The four data lines, in the low four bits.
    pub data: u8,
}

/// 1 for `true`, 0 for `false`.
pub open spec fn bit(value: bool) -> int {
    if value {
        1
    } else {
        0
    }
}

impl SignalState {
    /// Every line low.
    pub open spec fn idle() -> SignalState {
        SignalState {
            rs: false,
            rw: false,
            enable0: false,
            enable1: false,
            backlight: false,
            data: 0,
        }
    }

    /// The state with the enable line of `controller` set to `value`. Only 0 and 1 name a line.
    pub open spec fn with_enable(self, controller: int, value: bool) -> SignalState {
        if controller == 0 {
            SignalState { enable0: value, ..self }
        } else if controller == 1 {
            SignalState { enable1: value, ..self }
        } else {
            self
        }
    }

    /// The state with both enable lines low.
    pub open spec fn released(self) -> SignalState {
        SignalState { enable0: false, enable1: false, ..self }
    }

    /// The state with every line low.
    pub fn new() -> (state: SignalState)
        ensures
            state == SignalState::idle(),
    {
        SignalState {
            rs: false,
            rw: false,
            enable0: false,
            enable1: false,
            backlight: false,
            data: 0,
        }
    }
}

/// The port byte of a PCF8574T adapter with one enable line: bit 0 is RS, bit 1 RW, bit 2 the
/// enable line, bit 3 the backlight, bits 4 to 7 the data lines.
pub open spec fn pcf8574t_byte(s: SignalState) -> u8 {
    (bit(s.rs) + 2 * bit(s.rw) + 4 * bit(s.enable0) + 8 * bit(s.backlight) + 16 * (s.data
        % 16)) as u8
}

/// The lines that a port byte of a PCF8574T adapter with one enable line stands for.
pub open spec fn pcf8574t_signals(byte: u8) -> SignalState {
    SignalState {
        rs: byte % 2 == 1,
        rw: (byte / 2) % 2 == 1,
        enable0: (byte / 4) % 2 == 1,
        enable1: false,
        backlight: (byte / 8) % 2 == 1,
        data: byte / 16,
    }
}

/// The port byte of a PCF8574T adapter with two enable lines: bit 0 is RS, bit 1 the enable
/// line of controller 1, bit 2 the enable line of controller 0, bit 3 the backlight, bits 4 to
/// 7 the data lines. There is no RW line.
pub open spec fn dual_pcf8574t_byte(s: SignalState) -> u8 {
    (bit(s.rs) + 2 * bit(s.enable1) + 4 * bit(s.enable0) + 8 * bit(s.backlight) + 16 * (s.data
        % 16)) as u8
}

/// The lines that a port byte of a PCF8574T adapter with two enable lines stands for.
pub open spec fn dual_pcf8574t_signals(byte: u8) -> SignalState {
    SignalState {
        rs: byte % 2 == 1,
        rw: false,
        enable0: (byte / 4) % 2 == 1,
        enable1: (byte / 2) % 2 == 1,
        backlight: (byte / 8) % 2 == 1,
        data: byte / 16,
    }
}

/// The GPIO byte of the MCP23008 backpack: bit 1 is RS, bit 2 the enable line, bits 3 to 6 the
/// data lines, bit 7 the backlight. Bit 0 is not connected and there is no RW line.
pub open spec fn backpack_byte(s: SignalState) -> u8 {
    (2 * bit(s.rs) + 4 * bit(s.enable0) + 8 * (s.data % 16) + 128 * bit(s.backlight)) as u8
}

/// The lines that a GPIO byte of the MCP23008 backpack stands for.
pub open spec fn backpack_signals(byte: u8) -> SignalState {
    SignalState {
        rs: (byte / 2) % 2 == 1,
        rw: false,
        enable0: (byte / 4) % 2 == 1,
        enable1: false,
        backlight: byte / 128 == 1,
        data: (byte / 8) % 16,
    }
}

/// The data lines of a byte read from a PCF8574T port: its high four bits.
pub open spec fn data_lines(byte: u8) -> u8 {
    byte / 16
}

fn flag(value: bool) -> (r: u8)
    ensures
        r == bit(value),
{
    if value {
        1
    } else {
        0
    }
}

/// Packs the lines into the port byte of a PCF8574T adapter with one enable line.
pub fn encode_pcf8574t(s: &SignalState) -> (byte: u8)
    ensures
        byte == pcf8574t_byte(*s),
{
    let (rs, rw, en, bl): (u8, u8, u8, u8) = (
        flag(s.rs),
        flag(s.rw),
        flag(s.enable0),
        flag(s.backlight),
    );
    let data: u8 = s.data;
    let mut byte: u8 = 0;
    set_bit_range(&mut byte, 0, 0, rs);
    set_bit_range(&mut byte, 1, 1, rw);
    set_bit_range(&mut byte, 2, 2, en);
    set_bit_range(&mut byte, 3, 3, bl);
    set_bit_range(&mut byte, 7, 4, data);
    assert(rs <= 1 && rw <= 1 && en <= 1 && bl <= 1 ==> with_field(
        with_field(with_field(with_field(with_field(0u8, 0, 0, rs), 1, 1, rw), 2, 2, en), 3, 3, bl),
        7,
        4,
        data,
    ) == rs + 2 * rw + 4 * en + 8 * bl + 16 * (data % 16)) by (bit_vector);
    byte
}

/// Packs the lines into the port byte of a PCF8574T adapter with two enable lines.
pub fn encode_dual_pcf8574t(s: &SignalState) -> (byte: u8)
    ensures
        byte == dual_pcf8574t_byte(*s),
{
    let (rs, e2, e1, bl): (u8, u8, u8, u8) = (
        flag(s.rs),
        flag(s.enable1),
        flag(s.enable0),
        flag(s.backlight),
    );
    let data: u8 = s.data;
    let mut byte: u8 = 0;
    set_bit_range(&mut byte, 0, 0, rs);
    set_bit_range(&mut byte, 1, 1, e2);
    set_bit_range(&mut byte, 2, 2, e1);
    set_bit_range(&mut byte, 3, 3, bl);
    set_bit_range(&mut byte, 7, 4, data);
    assert(rs <= 1 && e2 <= 1 && e1 <= 1 && bl <= 1 ==> with_field(
        with_field(with_field(with_field(with_field(0u8, 0, 0, rs), 1, 1, e2), 2, 2, e1), 3, 3, bl),
        7,
        4,
        data,
    ) == rs + 2 * e2 + 4 * e1 + 8 * bl + 16 * (data % 16)) by (bit_vector);
    byte
}

/// Packs the lines into the GPIO byte of the MCP23008 backpack.
pub fn encode_backpack(s: &SignalState) -> (byte: u8)
    ensures
        byte == backpack_byte(*s),
{
    let (rs, en, bl): (u8, u8, u8) = (flag(s.rs), flag(s.enable0), flag(s.backlight));
    let data: u8 = s.data;
    let mut byte: u8 = 0;
    set_bit_range(&mut byte, 1, 1, rs);
    set_bit_range(&mut byte, 2, 2, en);
    set_bit_range(&mut byte, 7, 7, bl);
    set_bit_range(&mut byte, 6, 3, data);
    assert(rs <= 1 && en <= 1 && bl <= 1 ==> with_field(
        with_field(with_field(with_field(0u8, 1, 1, rs), 2, 2, en), 7, 7, bl),
        6,
        3,
        data,
    ) == 2 * rs + 4 * en + 8 * (data % 16) + 128 * bl) by (bit_vector);
    byte
}

/// The data lines of a byte read from a PCF8574T port.
pub fn read_data_lines(byte: u8) -> (data: u8)
    ensures
        data == data_lines(byte),
        data < 16,
{
    let data: u8 = bit_range(byte, 7, 4);
    assert(field_of(byte, 7, 4) == byte / 16) by (bit_vector);
    data
}

/// Encoding is a function of the lines alone: equal states give equal bytes, on every adapter.
pub proof fn lemma_encode_is_pure(a: SignalState, b: SignalState)
    requires
        a == b,
    ensures
        pcf8574t_byte(a) == pcf8574t_byte(b),
        dual_pcf8574t_byte(a) == dual_pcf8574t_byte(b),
        backpack_byte(a) == backpack_byte(b),
{
}

/// A port byte of a PCF8574T adapter with one enable line stands for exactly one state of its
/// lines: decoding and encoding again gives the byte back, and encoding a state and decoding
/// gives back the state, its data cut to four bits and the second enable line left out.
pub proof fn lemma_pcf8574t_round_trip(byte: u8, s: SignalState)
    ensures
        pcf8574t_byte(pcf8574t_signals(byte)) == byte,
        pcf8574t_signals(pcf8574t_byte(s)) == (SignalState {
            enable1: false,
            data: s.data % 16,
            ..s
        }),
{
    lemma_bits_of_byte(byte);
    lemma_byte_of_bits(
        bit(s.rs) as u8,
        bit(s.rw) as u8,
        bit(s.enable0) as u8,
        bit(s.backlight) as u8,
        s.data % 16,
    );
}

/// The same for a PCF8574T adapter with two enable lines, which has no RW line.
pub proof fn lemma_dual_pcf8574t_round_trip(byte: u8, s: SignalState)
    ensures
        dual_pcf8574t_byte(dual_pcf8574t_signals(byte)) == byte,
        dual_pcf8574t_signals(dual_pcf8574t_byte(s)) == (SignalState {
            rw: false,
            data: s.data % 16,
            ..s
        }),
{
    lemma_bits_of_byte(byte);
    lemma_byte_of_bits(
        bit(s.rs) as u8,
        bit(s.enable1) as u8,
        bit(s.enable0) as u8,
        bit(s.backlight) as u8,
        s.data % 16,
    );
}

/// The same for the MCP23008 backpack, which has no RW line, one enable line, and leaves bit 0
/// of its GPIO byte clear.
pub proof fn lemma_backpack_round_trip(byte: u8, s: SignalState)
    ensures
        byte % 2 == 0 ==> backpack_byte(backpack_signals(byte)) == byte,
        backpack_byte(s) % 2 == 0,
        backpack_signals(backpack_byte(s)) == (SignalState {
            rw: false,
            enable1: false,
            data: s.data % 16,
            ..s
        }),
{
    assert(byte % 2 == 0 ==> 2 * ((byte / 2) % 2) + 4 * ((byte / 4) % 2) + 8 * ((byte / 8) % 16)
        + 128 * (byte / 128) == byte) by (bit_vector);
    let rs = bit(s.rs) as u8;
    let en = bit(s.enable0) as u8;
    let bl = bit(s.backlight) as u8;
    let data = s.data % 16;
    assert(rs <= 1 && en <= 1 && bl <= 1 && data <= 15 ==> {
        let v = (2 * rs + 4 * en + 8 * data + 128 * bl) as u8;
        &&& v == 2 * rs + 4 * en + 8 * data + 128 * bl
        &&& v % 2 == 0
        &&& (v / 2) % 2 == rs
        &&& (v / 4) % 2 == en
        &&& (v / 8) % 16 == data
        &&& v / 128 == bl
    }) by (bit_vector);
}

/// A byte is the sum of its bits 0 to 3 and sixteen times its high half.
proof fn lemma_bits_of_byte(byte: u8)
    ensures
        byte % 2 + 2 * ((byte / 2) % 2) + 4 * ((byte / 4) % 2) + 8 * ((byte / 8) % 2) + 16 * ((byte
            / 16) % 16) == byte,
        byte / 16 < 16,
{
    assert(byte % 2 + 2 * ((byte / 2) % 2) + 4 * ((byte / 4) % 2) + 8 * ((byte / 8) % 2) + 16 * ((
    byte / 16) % 16) == byte) by (bit_vector);
    assert(byte / 16 < 16) by (bit_vector);
}

/// Four bits and a nibble, put together, can be taken apart again.
proof fn lemma_byte_of_bits(b0: u8, b1: u8, b2: u8, b3: u8, high: u8)
    requires
        b0 <= 1,
        b1 <= 1,
        b2 <= 1,
        b3 <= 1,
        high <= 15,
    ensures
        ({
            let v = (b0 + 2 * b1 + 4 * b2 + 8 * b3 + 16 * high) as u8;
            &&& v == b0 + 2 * b1 + 4 * b2 + 8 * b3 + 16 * high
            &&& v % 2 == b0
            &&& (v / 2) % 2 == b1
            &&& (v / 4) % 2 == b2
            &&& (v / 8) % 2 == b3
            &&& v / 16 == high
        }),
{
    assert(b0 <= 1 && b1 <= 1 && b2 <= 1 && b3 <= 1 && high <= 15 ==> {
        let v = (b0 + 2 * b1 + 4 * b2 + 8 * b3 + 16 * high) as u8;
        &&& v == b0 + 2 * b1 + 4 * b2 + 8 * b3 + 16 * high
        &&& v % 2 == b0
        &&& (v / 2) % 2 == b1
        &&& (v / 4) % 2 == b2
        &&& (v / 8) % 2 == b3
        &&& v / 16 == high
    }) by (bit_vector);
}

} // verus!
