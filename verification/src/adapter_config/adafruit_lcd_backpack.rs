//! The port of Adafruit's I2C/SPI LCD backpack, an MCP23008.

use vstd::prelude::*;
use crate::adapter_config::{AdapterConfigTrait, AdapterError};
use crate::bus::{BusOp, BusPlan};
use crate::driver::hd44780::adapter::{state_write, PortLayout};
use crate::driver::hd44780::read::{ReadSession, ReadState};
use crate::driver::hd44780::adapter::adafruit_lcd_backpack::{MCP23008_GPIO, MCP23008_IODIR};
use crate::signal::{backpack_byte, encode_backpack, SignalState};
use crate::LcdDisplayType;

verus! {

/// The lines of the MCP23008 based LCD backpack from Adafruit.
#[derive(Debug, PartialEq, Eq, Clone, Copy)]
pub struct AdafruitLCDBackpackConfig {
    signals: SignalState,
}

impl PortLayout for AdafruitLCDBackpackConfig {
    open spec fn port_byte(s: SignalState) -> u8 {
        backpack_byte(s)
    }

    open spec fn frame(byte: u8) -> Seq<u8> {
        seq![MCP23008_GPIO, byte]
    }

    open spec fn has_rw() -> bool {
        false
    }

    open spec fn can_read() -> bool {
        false
    }

    open spec fn controllers() -> nat {
        1
    }

    open spec fn supported(display_type: LcdDisplayType) -> bool {
        display_type != LcdDisplayType::Lcd40x4
    }

    open spec fn power_up(address: u8) -> Seq<BusOp> {
        seq![BusOp::Write { address, bytes: seq![MCP23008_IODIR, 0x00u8] }]
    }

    open spec fn controller_row(row: u8) -> (usize, u8) {
        (0, row)
    }

    proof fn lemma_controllers(row: u8) {
    }
}

impl Default for AdafruitLCDBackpackConfig {
    /// The port with every line low.
    fn default() -> (config: Self)
        ensures
            config.signals() == SignalState::idle(),
    {
        AdafruitLCDBackpackConfig { signals: SignalState::new() }
    }
}

impl AdapterConfigTrait for AdafruitLCDBackpackConfig {
    closed spec fn signals(&self) -> SignalState {
        self.signals
    }

    open spec fn enable_line(device: usize) -> Option<int> {
        Some(0)
    }

    open spec fn default_address() -> u8 {
        0x20
    }

    fn bits(&self) -> (byte: u8) {
        encode_backpack(&self.signals)
    }

    fn default_i2c_address() -> (address: u8) {
        0x20
    }

    fn supports_reads() -> (supported: bool) {
        false
    }

    fn set_rs(&mut self, value: bool) {
        self.signals.rs = value;
    }

    fn set_rw(&mut self, value: bool) {
        // The backpack does not wire RW.
    }

    fn set_enable(&mut self, value: bool, device: usize) -> (result: Result<(), AdapterError>) {
        self.signals.enable0 = value;
        Ok(())
    }

    fn set_backlight(&mut self, value: bool) {
        self.signals.backlight = value;
    }

    fn set_data(&mut self, value: u8) {
        self.signals.data = value & 0x0F;
        assert(value & 0x0F == value % 16) by (bit_vector);
    }

    fn init(&self, i2c_address: u8) -> (plan: BusPlan) {
        // All eight pins of the MCP23008 become outputs.
        let mut plan = BusPlan::new();
        plan.write_pair(i2c_address, MCP23008_IODIR, 0x00);
        assert(plan@ =~= Self::power_up(i2c_address));
        plan
    }

    fn write_bits_to_gpio(&self, i2c_address: u8) -> (result: Result<BusPlan, AdapterError>) {
        let mut plan = BusPlan::new();
        plan.write_pair(i2c_address, MCP23008_GPIO, self.bits());
        assert(plan@ =~= seq![state_write::<Self>(i2c_address, self.signals())]);
        Ok(plan)
    }

    open spec fn read_model(
        &self,
        i2c_address: u8,
        device: usize,
        rs_setting: bool,
        count: usize,
    ) -> Result<ReadState, AdapterError> {
        Err(AdapterError::UnsupportedOperation)
    }

    fn read_bytes_from_device(
        &self,
        i2c_address: u8,
        device: usize,
        rs_setting: bool,
        count: usize,
    ) -> (result: Result<ReadSession, AdapterError>) {
        Err(AdapterError::UnsupportedOperation)
    }

    fn is_busy(&self, reply: u8) -> (result: Result<bool, AdapterError>) {
        Ok(false)
    }

    fn device_count(&self) -> (count: usize) {
        1
    }

    fn row_to_device_row(&self, row: u8) -> (place: (usize, u8)) {
        (0, row)
    }

    fn is_supported(display_type: LcdDisplayType) -> (supported: bool) {
        display_type != LcdDisplayType::Lcd40x4
    }
}

} // verus!
