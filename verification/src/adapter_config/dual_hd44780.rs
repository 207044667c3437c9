//! The port of a PCF8574T in front of two controllers.

use vstd::prelude::*;
use crate::adapter_config::{AdapterConfigTrait, AdapterError};
use crate::bus::{BusOp, BusPlan};
use crate::driver::hd44780::adapter::{state_write, PortLayout};
use crate::driver::hd44780::read::{ReadSession, ReadState};
use crate::signal::{dual_pcf8574t_byte, encode_dual_pcf8574t, SignalState};
use crate::LcdDisplayType;

verus! {

/// The lines of a PCF8574T based 4-bit interface with two enable lines, one per controller.
#[allow(non_camel_case_types)]
#[derive(Debug, PartialEq, Eq, Clone, Copy)]
pub struct DualHD44780_PCF8574TConfig {
    signals: SignalState,
}

impl PortLayout for DualHD44780_PCF8574TConfig {
    open spec fn port_byte(s: SignalState) -> u8 {
        dual_pcf8574t_byte(s)
    }

    open spec fn frame(byte: u8) -> Seq<u8> {
        seq![byte]
    }

    open spec fn has_rw() -> bool {
        false
    }

    open spec fn can_read() -> bool {
        false
    }

    open spec fn controllers() -> nat {
        2
    }

    open spec fn supported(display_type: LcdDisplayType) -> bool {
        display_type == LcdDisplayType::Lcd40x4
    }

    open spec fn power_up(address: u8) -> Seq<BusOp> {
        Seq::empty()
    }

    open spec fn controller_row(row: u8) -> (usize, u8) {
        if row < 2 {
            (0, row)
        } else {
            (1, (row - 2) as u8)
        }
    }

    proof fn lemma_controllers(row: u8) {
    }
}

impl Default for DualHD44780_PCF8574TConfig {
    /// The port with every line low.
    fn default() -> (config: Self)
        ensures
            config.signals() == SignalState::idle(),
    {
        DualHD44780_PCF8574TConfig { signals: SignalState::new() }
    }
}

impl AdapterConfigTrait for DualHD44780_PCF8574TConfig {
    closed spec fn signals(&self) -> SignalState {
        self.signals
    }

    open spec fn enable_line(device: usize) -> Option<int> {
        if device < 2 {
            Some(device as int)
        } else {
            None
        }
    }

    open spec fn default_address() -> u8 {
        0x27
    }

    fn bits(&self) -> (byte: u8) {
        encode_dual_pcf8574t(&self.signals)
    }

    fn default_i2c_address() -> (address: u8) {
        0x27
    }

    fn supports_reads() -> (supported: bool) {
        false
    }

    fn set_rs(&mut self, value: bool) {
        self.signals.rs = value;
    }

    fn set_rw(&mut self, value: bool) {
        // The adapter does not wire RW.
    }

    fn set_enable(&mut self, value: bool, device: usize) -> (result: Result<(), AdapterError>) {
        if device == 0 {
            self.signals.enable0 = value;
        } else if device == 1 {
            self.signals.enable1 = value;
        } else {
            return Err(AdapterError::BadDeviceId);
        }
        Ok(())
    }

    fn set_backlight(&mut self, value: bool) {
        self.signals.backlight = value;
    }

    fn set_data(&mut self, value: u8) {
        self.signals.data = value & 0x0F;
        assert(value & 0x0F == value % 16) by (bit_vector);
    }

    fn init(&self, i2c_address: u8) -> (plan: BusPlan) {
        BusPlan::new()
    }

    fn write_bits_to_gpio(&self, i2c_address: u8) -> (result: Result<BusPlan, AdapterError>) {
        let mut plan = BusPlan::new();
        plan.write_byte(i2c_address, self.bits());
        assert(plan@ =~= seq![state_write::<Self>(i2c_address, self.signals())]);
        Ok(plan)
    }

    open spec fn read_model(
        &self,
        i2c_address: u8,
        device: usize,
        rs_setting: bool,
        count: usize,
    ) -> Result<ReadState, AdapterError> {
        Err(AdapterError::UnsupportedOperation)
    }

    fn read_bytes_from_device(
        &self,
        i2c_address: u8,
        device: usize,
        rs_setting: bool,
        count: usize,
    ) -> (result: Result<ReadSession, AdapterError>) {
        Err(AdapterError::UnsupportedOperation)
    }

    fn is_busy(&self, reply: u8) -> (result: Result<bool, AdapterError>) {
        Ok(false)
    }

    fn device_count(&self) -> (count: usize) {
        2
    }

    fn row_to_device_row(&self, row: u8) -> (place: (usize, u8)) {
        if row < 2 {
            (0, row)
        } else {
            (1, row - 2)
        }
    }

    fn is_supported(display_type: LcdDisplayType) -> (supported: bool) {
        display_type == LcdDisplayType::Lcd40x4
    }
}

} // verus!
