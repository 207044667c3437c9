//! The port of the common PCF8574T backpack.

use vstd::prelude::*;
use crate::adapter_config::{AdapterConfigTrait, AdapterError};
use crate::bus::{BusOp, BusPlan};
use crate::driver::hd44780::adapter::{state_write, PortLayout};
use crate::driver::hd44780::read::{
    is_busy_reply, poll_ops, poll_plan, ReadPhase, ReadSession, ReadState,
};
use crate::signal::{encode_pcf8574t, pcf8574t_byte, SignalState};
use crate::LcdDisplayType;

verus! {

/// The lines of a PCF8574T based 4-bit interface with one enable line.
#[derive(Debug, PartialEq, Eq, Clone, Copy)]
pub struct GenericPCF8574TConfig {
    signals: SignalState,
}

impl PortLayout for GenericPCF8574TConfig {
    open spec fn port_byte(s: SignalState) -> u8 {
        pcf8574t_byte(s)
    }

    open spec fn frame(byte: u8) -> Seq<u8> {
        seq![byte]
    }

    open spec fn has_rw() -> bool {
        true
    }

    open spec fn can_read() -> bool {
        true
    }

    open spec fn controllers() -> nat {
        1
    }

    open spec fn supported(display_type: LcdDisplayType) -> bool {
        display_type != LcdDisplayType::Lcd40x4
    }

    open spec fn power_up(address: u8) -> Seq<BusOp> {
        Seq::empty()
    }

    open spec fn controller_row(row: u8) -> (usize, u8) {
        (0, row)
    }

    proof fn lemma_controllers(row: u8) {
    }
}

impl Default for GenericPCF8574TConfig {
    /// The port with every line low.
    fn default() -> (config: Self)
        ensures
            config.signals() == SignalState::idle(),
    {
        GenericPCF8574TConfig { signals: SignalState::new() }
    }
}

impl AdapterConfigTrait for GenericPCF8574TConfig {
    closed spec fn signals(&self) -> SignalState {
        self.signals
    }

    open spec fn enable_line(device: usize) -> Option<int> {
        Some(0)
    }

    open spec fn default_address() -> u8 {
        0x27
    }

    fn bits(&self) -> (byte: u8) {
        encode_pcf8574t(&self.signals)
    }

    fn default_i2c_address() -> (address: u8) {
        0x27
    }

    fn supports_reads() -> (supported: bool) {
        true
    }

    fn set_rs(&mut self, value: bool) {
        self.signals.rs = value;
    }

    fn set_rw(&mut self, value: bool) {
        self.signals.rw = value;
    }

    fn set_enable(&mut self, value: bool, device: usize) -> (result: Result<(), AdapterError>) {
        self.signals.enable0 = value;
        Ok(())
    }

    fn set_backlight(&mut self, value: bool) {
        self.signals.backlight = value;
    }

    fn set_data(&mut self, value: u8) {
        self.signals.data = value & 0x0F;
        assert(value & 0x0F == value % 16) by (bit_vector);
    }

    fn init(&self, i2c_address: u8) -> (plan: BusPlan) {
        BusPlan::new()
    }

    fn write_bits_to_gpio(&self, i2c_address: u8) -> (result: Result<BusPlan, AdapterError>) {
        let mut plan = BusPlan::new();
        plan.write_byte(i2c_address, self.bits());
        assert(plan@ =~= seq![state_write::<Self>(i2c_address, self.signals())]);
        Ok(plan)
    }

    /// The adapter has one enable line, so the device index is not looked at.
    open spec fn read_model(
        &self,
        i2c_address: u8,
        device: usize,
        rs_setting: bool,
        count: usize,
    ) -> Result<ReadState, AdapterError> {
        Ok(
            ReadState {
                address: i2c_address,
                signals: self.signals(),
                rs: rs_setting,
                mask: 0xff,
                wanted: count as nat,
                bytes: Seq::empty(),
                phase: ReadPhase::Start,
            },
        )
    }

    fn read_bytes_from_device(
        &self,
        i2c_address: u8,
        device: usize,
        rs_setting: bool,
        count: usize,
    ) -> (result: Result<ReadSession, AdapterError>) {
        Ok(ReadSession::new(i2c_address, self.signals, rs_setting, 0xff, count))
    }

    fn is_busy(&self, reply: u8) -> (result: Result<bool, AdapterError>) {
        Ok(is_busy_reply(reply))
    }

    fn device_count(&self) -> (count: usize) {
        1
    }

    fn row_to_device_row(&self, row: u8) -> (place: (usize, u8)) {
        (0, row)
    }

    fn is_supported(display_type: LcdDisplayType) -> (supported: bool) {
        display_type != LcdDisplayType::Lcd40x4
    }
}

impl GenericPCF8574TConfig {
    /// Plans one poll of the controller's busy flag: six writes and, while the enable line is
    /// high for the first time, one read. `is_busy` tells from the byte read whether the
    /// controller is busy.
    pub fn busy_poll(&self, i2c_address: u8) -> (plan: BusPlan)
        ensures
            plan@ == poll_ops(i2c_address, self.signals()),
    {
        poll_plan(i2c_address, &self.signals)
    }
}

} // verus!
