//! The port bytes of two adapters, with setters that take each line's value as a number, as
//! the port registers do.

use vstd::prelude::*;
use crate::bus::{BusOp, BusPlan};
use crate::driver::hd44780::adapter::adafruit_lcd_backpack::{MCP23008_GPIO, MCP23008_IODIR};
use crate::signal::{backpack_byte, encode_backpack, encode_pcf8574t, pcf8574t_byte, SignalState};

verus! {

/// The lines of an adapter's port, set one by one from numbers. Of each number only as many
/// low bits count as the line has wires: one for a control line, four for the data lines.
pub trait LCDBitsTrait: Sized {
    /// The lines as the port holds them.
    spec fn signals(&self) -> SignalState;

    /// The port byte that stands for the lines `s`.
    spec fn port_byte(s: SignalState) -> u8;

    /// The bytes of the bus write that puts `byte` on the port.
    spec fn frame(byte: u8) -> Seq<u8>;

    /// Whether the adapter drives the controller's RW line.
    spec fn has_rw() -> bool;

    /// The bus address that the adapter answers at unless it is strapped otherwise.
    spec fn default_address() -> u8;

    /// What the adapter chip itself needs written at power-on.
    spec fn power_up(address: u8) -> Seq<BusOp>;

    /// Returns the port byte for the lines as they stand.
    fn bits(&self) -> (byte: u8)
        ensures
            byte == Self::port_byte(self.signals()),
    ;

    /// Returns the default I2C address for the adapter.
    fn default_i2c_address() -> (address: u8)
        ensures
            address == Self::default_address(),
    ;

    /// Sets the RS line to bit 0 of `value`.
    fn set_rs(&mut self, value: u8)
        ensures
            final(self).signals() == (SignalState { rs: value % 2 == 1, ..old(self).signals() }),
    ;

    /// Sets the RW line to bit 0 of `value`. An adapter without that line does nothing.
    fn set_rw(&mut self, value: u8)
        ensures
            final(self).signals() == if Self::has_rw() {
                SignalState { rw: value % 2 == 1, ..old(self).signals() }
            } else {
                old(self).signals()
            },
    ;

    /// Sets the enable line to bit 0 of `value`.
    fn set_enable(&mut self, value: u8)
        ensures
            final(self).signals() == (SignalState {
                enable0: value % 2 == 1,
                ..old(self).signals()
            }),
    ;

    /// Sets the backlight line to bit 0 of `value`.
    fn set_backlight(&mut self, value: u8)
        ensures
            final(self).signals() == (SignalState {
                backlight: value % 2 == 1,
                ..old(self).signals()
            }),
    ;

    /// Sets the four data lines to the low four bits of `value`.
    fn set_data(&mut self, value: u8)
        ensures
            final(self).signals() == (SignalState { data: value % 16, ..old(self).signals() }),
    ;

    /// Plans what the adapter chip itself needs at power-on.
    fn init(&self, i2c_address: u8) -> (plan: BusPlan)
        ensures
            plan@ == Self::power_up(i2c_address),
    ;

    /// Plans the one write that puts the lines, as they stand, on the port.
    fn write_bits_to_gpio(&self, i2c_address: u8) -> (plan: BusPlan)
        ensures
            plan@ == seq![
                BusOp::Write {
                    address: i2c_address,
                    bytes: Self::frame(Self::port_byte(self.signals())),
                },
            ],
    ;
}

/// The lines of the PCF8574T based 4-bit LCD interface sold by Buy Display and others.
#[derive(Debug, PartialEq, Eq, Clone, Copy)]
pub struct BuyDisplayBrandedLCDBits {
    signals: SignalState,
}

impl Default for BuyDisplayBrandedLCDBits {
    /// The port with every line low.
    fn default() -> (port: Self)
        ensures
            port.signals() == SignalState::idle(),
    {
        BuyDisplayBrandedLCDBits { signals: SignalState::new() }
    }
}

impl LCDBitsTrait for BuyDisplayBrandedLCDBits {
    closed spec fn signals(&self) -> SignalState {
        self.signals
    }

    open spec fn port_byte(s: SignalState) -> u8 {
        pcf8574t_byte(s)
    }

    open spec fn frame(byte: u8) -> Seq<u8> {
        seq![byte]
    }

    open spec fn has_rw() -> bool {
        true
    }

    open spec fn default_address() -> u8 {
        0x27
    }

    open spec fn power_up(address: u8) -> Seq<BusOp> {
        Seq::empty()
    }

    fn bits(&self) -> (byte: u8) {
        encode_pcf8574t(&self.signals)
    }

    fn default_i2c_address() -> (address: u8) {
        0x27
    }

    fn set_rs(&mut self, value: u8) {
        self.signals.rs = value % 2 == 1;
    }

    fn set_rw(&mut self, value: u8) {
        self.signals.rw = value % 2 == 1;
    }

    fn set_enable(&mut self, value: u8) {
        self.signals.enable0 = value % 2 == 1;
    }

    fn set_backlight(&mut self, value: u8) {
        self.signals.backlight = value % 2 == 1;
    }

    fn set_data(&mut self, value: u8) {
        self.signals.data = value % 16;
    }

    fn init(&self, i2c_address: u8) -> (plan: BusPlan) {
        BusPlan::new()
    }

    fn write_bits_to_gpio(&self, i2c_address: u8) -> (plan: BusPlan) {
        let mut plan = BusPlan::new();
        plan.write_byte(i2c_address, self.bits());
        plan
    }
}

/// The lines of the MCP23008 based LCD backpack from Adafruit.
#[derive(Debug, PartialEq, Eq, Clone, Copy)]
pub struct AdafruitLCDBackpackLCDBits {
    signals: SignalState,
}

impl Default for AdafruitLCDBackpackLCDBits {
    /// The port with every line low.
    fn default() -> (port: Self)
        ensures
            port.signals() == SignalState::idle(),
    {
        AdafruitLCDBackpackLCDBits { signals: SignalState::new() }
    }
}

impl LCDBitsTrait for AdafruitLCDBackpackLCDBits {
    closed spec fn signals(&self) -> SignalState {
        self.signals
    }

    open spec fn port_byte(s: SignalState) -> u8 {
        backpack_byte(s)
    }

    open spec fn frame(byte: u8) -> Seq<u8> {
        seq![MCP23008_GPIO, byte]
    }

    open spec fn has_rw() -> bool {
        false
    }

    open spec fn default_address() -> u8 {
        0x20
    }

    open spec fn power_up(address: u8) -> Seq<BusOp> {
        seq![BusOp::Write { address, bytes: seq![MCP23008_IODIR, 0x00u8] }]
    }

    fn bits(&self) -> (byte: u8) {
        encode_backpack(&self.signals)
    }

    fn default_i2c_address() -> (address: u8) {
        0x20
    }

    fn set_rs(&mut self, value: u8) {
        self.signals.rs = value % 2 == 1;
    }

    fn set_rw(&mut self, value: u8) {
        // The backpack does not wire RW.
    }

    fn set_enable(&mut self, value: u8) {
        self.signals.enable0 = value % 2 == 1;
    }

    fn set_backlight(&mut self, value: u8) {
        self.signals.backlight = value % 2 == 1;
    }

    fn set_data(&mut self, value: u8) {
        self.signals.data = value % 16;
    }

    fn init(&self, i2c_address: u8) -> (plan: BusPlan) {
        // All eight pins of the MCP23008 become outputs.
        let mut plan = BusPlan::new();
        plan.write_pair(i2c_address, MCP23008_IODIR, 0x00);
        plan
    }

    fn write_bits_to_gpio(&self, i2c_address: u8) -> (plan: BusPlan) {
        // The GPIO register is named first.
        let mut plan = BusPlan::new();
        plan.write_pair(i2c_address, MCP23008_GPIO, self.bits());
        plan
    }
}

} // verus!
