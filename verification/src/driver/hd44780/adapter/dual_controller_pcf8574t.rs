//! A PCF8574T in front of two controllers, as on 40x4 panels: two enable lines, RW not wired.

use vstd::prelude::*;
use crate::bus::{BusOp, BusPlan};
use crate::driver::hd44780::adapter::{
    after_init, init_ops, state_write, HD44780AdapterTrait, HD44780DeviceTrait, PortLayout,
};
use crate::driver::hd44780::read::{ReadSession, ReadState};
use crate::driver::DeviceHardwareTrait;
use crate::signal::{dual_pcf8574t_byte, encode_dual_pcf8574t, SignalState};
use crate::{CharacterDisplayError, DeviceSetupConfig, LcdDisplayType};

verus! {

/// Adapter based on the PCF8574T I2C GPIO expander interfacing with two HD44780 LCD
/// controllers via a 4-bit interface. Each controller shows two of the panel's four rows.
#[allow(non_camel_case_types)]
#[derive(Debug, PartialEq, Eq, Clone, Copy)]
pub struct DualHD44780_PCF8574TAdapter {
    signals: SignalState,
    config: DeviceSetupConfig,
}

impl PortLayout for DualHD44780_PCF8574TAdapter {
    open spec fn port_byte(s: SignalState) -> u8 {
        dual_pcf8574t_byte(s)
    }

    open spec fn frame(byte: u8) -> Seq<u8> {
        seq![byte]
    }

    open spec fn has_rw() -> bool {
        false
    }

    open spec fn can_read() -> bool {
        false
    }

    open spec fn controllers() -> nat {
        2
    }

    open spec fn supported(display_type: LcdDisplayType) -> bool {
        display_type == LcdDisplayType::Lcd40x4
    }

    open spec fn power_up(address: u8) -> Seq<BusOp> {
        Seq::empty()
    }

    open spec fn controller_row(row: u8) -> (usize, u8) {
        if row < 2 {
            (0, row)
        } else {
            (1, (row - 2) as u8)
        }
    }

    proof fn lemma_controllers(row: u8) {
    }
}

impl DeviceHardwareTrait for DualHD44780_PCF8574TAdapter {
    closed spec fn setup(&self) -> DeviceSetupConfig {
        self.config
    }

    closed spec fn fresh(config: DeviceSetupConfig) -> Self {
        DualHD44780_PCF8574TAdapter { signals: SignalState::idle(), config }
    }

    open spec fn default_address() -> u8 {
        0x27
    }

    open spec fn reads_supported() -> bool {
        false
    }

    open spec fn write_bytes_model(&self, rs_setting: bool, data: Seq<u8>) -> Result<
        Seq<BusOp>,
        CharacterDisplayError,
    > {
        Err(CharacterDisplayError::UnsupportedOperation)
    }

    fn new(config: DeviceSetupConfig) -> (device: Self)
        ensures
            device.signals() == SignalState::idle(),
            device.device_setup() == config,
    {
        DualHD44780_PCF8574TAdapter { signals: SignalState::new(), config }
    }

    fn default_i2c_address() -> (address: u8) {
        0x27
    }

    fn supports_reads() -> (supported: bool) {
        false
    }

    fn lcd_type(&self) -> (lcd_type: LcdDisplayType) {
        self.config.lcd_type
    }

    fn i2c_address(&self) -> (address: u8) {
        self.config.address
    }

    /// A panel that the adapter cannot drive is refused and nothing changes. Else the plan is
    /// the whole power-on sequence, the lines are as it leaves them, and the mode bytes handed
    /// back are those that it leaves every controller with.
    open spec fn initialized(
        before: Self,
        after: Self,
        result: Result<((u8, u8, u8), BusPlan), CharacterDisplayError>,
    ) -> bool {
        &&& after.device_setup() == before.device_setup()
        &&& match result {
            Ok((modes, plan)) => {
                &&& Self::supported(before.device_setup().lcd_type)
                &&& modes == (0x08u8, 0x04u8, 0x02u8)
                &&& plan@ == init_ops::<Self>(before.device_setup().address, before.signals())
                &&& after.signals() == after_init::<Self>(before.signals())
            },
            Err(e) => {
                &&& !Self::supported(before.device_setup().lcd_type)
                &&& e == CharacterDisplayError::UnsupportedDisplayType
                &&& after.signals() == before.signals()
            },
        }
    }

    fn init(&mut self) -> (result: Result<((u8, u8, u8), BusPlan), CharacterDisplayError>) {
        self.adapter_init()
    }

    fn write_bytes(&mut self, rs_setting: bool, data: &[u8]) -> (result: Result<
        BusPlan,
        CharacterDisplayError,
    >) {
        Err(CharacterDisplayError::UnsupportedOperation)
    }
}

impl HD44780DeviceTrait for DualHD44780_PCF8574TAdapter {
    proof fn lemma_one_device(&self, config: DeviceSetupConfig) {
    }
}

impl HD44780AdapterTrait for DualHD44780_PCF8574TAdapter {
    closed spec fn signals(&self) -> SignalState {
        self.signals
    }

    closed spec fn device_setup(&self) -> DeviceSetupConfig {
        self.config
    }

    fn device_config(&self) -> (config: &DeviceSetupConfig) {
        &self.config
    }

    open spec fn read_model(&self, controller: usize, rs_setting: bool, count: usize) -> Result<
        ReadState,
        CharacterDisplayError,
    > {
        Err(CharacterDisplayError::UnsupportedOperation)
    }

    fn max_controller_count() -> (count: usize) {
        2
    }

    fn hardware_init(&mut self) -> (plan: BusPlan) {
        BusPlan::new()
    }

    fn is_supported(display_type: LcdDisplayType) -> (supported: bool) {
        display_type == LcdDisplayType::Lcd40x4
    }

    fn bits(&self) -> (byte: u8) {
        encode_dual_pcf8574t(&self.signals)
    }

    fn set_rs(&mut self, value: bool) {
        self.signals.rs = value;
    }

    fn set_rw(&mut self, value: bool) {
        // The adapter does not wire RW.
    }

    fn set_enable(&mut self, value: bool, controller: usize) -> (result: Result<
        (),
        CharacterDisplayError,
    >) {
        if controller == 0 {
            self.signals.enable0 = value;
        } else if controller == 1 {
            self.signals.enable1 = value;
        } else {
            return Err(CharacterDisplayError::BadDeviceId);
        }
        Ok(())
    }

    fn set_backlight(&mut self, value: bool) -> (result: Result<BusPlan, CharacterDisplayError>) {
        self.signals.backlight = value;
        self.write_bits_to_gpio()
    }

    fn set_data(&mut self, value: u8) {
        self.signals.data = value & 0x0F;
        assert(value & 0x0F == value % 16) by (bit_vector);
    }

    fn write_bits_to_gpio(&mut self) -> (result: Result<BusPlan, CharacterDisplayError>) {
        let mut plan = BusPlan::new();
        plan.write_byte(self.config.address, self.bits());
        assert(plan@ =~= seq![state_write::<Self>(self.device_setup().address, self.signals())]);
        Ok(plan)
    }

    fn controller_count() -> (count: usize) {
        2
    }

    fn row_to_controller_row(&self, row: u8) -> (place: (usize, u8)) {
        if row < 2 {
            (0, row)
        } else {
            (1, row - 2)
        }
    }

    fn read_bytes_from_controller(
        &mut self,
        controller: usize,
        rs_setting: bool,
        count: usize,
    ) -> (result: Result<ReadSession, CharacterDisplayError>) {
        Err(CharacterDisplayError::UnsupportedOperation)
    }

    fn is_busy(&mut self, reply: u8) -> (result: Result<bool, CharacterDisplayError>) {
        Ok(false)
    }
}

} // verus!
