//! The common PCF8574T backpack: one controller, RW wired, reads supported.

use vstd::prelude::*;
use crate::bus::{BusOp, BusPlan};
use crate::driver::hd44780::adapter::{
    after_init, byte_ops, controller_init_ops, controllers_init_ops, init_ops, nibble_ops,
    state_write, HD44780AdapterTrait, HD44780DeviceTrait,
    PortLayout,
};
use crate::driver::hd44780::read::{
    is_busy_reply, poll_ops, poll_plan, ReadPhase, ReadSession, ReadState,
};
use crate::driver::DeviceHardwareTrait;
use crate::signal::{encode_pcf8574t, pcf8574t_byte, SignalState};
use crate::{CharacterDisplayError, DeviceSetupConfig, LcdDisplayType};

verus! {

/// Adapter based on the PCF8574T I2C GPIO expander interfacing with the HD44780 LCD controller
/// via a 4-bit interface.
#[derive(Debug, PartialEq, Eq, Clone, Copy)]
pub struct GenericPCF8574TAdapter {
    signals: SignalState,
    config: DeviceSetupConfig,
}

impl PortLayout for GenericPCF8574TAdapter {
    open spec fn port_byte(s: SignalState) -> u8 {
        pcf8574t_byte(s)
    }

    open spec fn frame(byte: u8) -> Seq<u8> {
        seq![byte]
    }

    open spec fn has_rw() -> bool {
        true
    }

    open spec fn can_read() -> bool {
        true
    }

    open spec fn controllers() -> nat {
        1
    }

    open spec fn supported(display_type: LcdDisplayType) -> bool {
        display_type != LcdDisplayType::Lcd40x4
    }

    open spec fn power_up(address: u8) -> Seq<BusOp> {
        Seq::empty()
    }

    open spec fn controller_row(row: u8) -> (usize, u8) {
        (0, row)
    }

    proof fn lemma_controllers(row: u8) {
    }
}

impl DeviceHardwareTrait for GenericPCF8574TAdapter {
    closed spec fn setup(&self) -> DeviceSetupConfig {
        self.config
    }

    closed spec fn fresh(config: DeviceSetupConfig) -> Self {
        GenericPCF8574TAdapter { signals: SignalState::idle(), config }
    }

    open spec fn default_address() -> u8 {
        0x27
    }

    open spec fn reads_supported() -> bool {
        true
    }

    open spec fn write_bytes_model(&self, rs_setting: bool, data: Seq<u8>) -> Result<
        Seq<BusOp>,
        CharacterDisplayError,
    > {
        Err(CharacterDisplayError::UnsupportedOperation)
    }

    fn new(config: DeviceSetupConfig) -> (device: Self)
        ensures
            device.signals() == SignalState::idle(),
            device.device_setup() == config,
    {
        GenericPCF8574TAdapter { signals: SignalState::new(), config }
    }

    fn default_i2c_address() -> (address: u8) {
        0x27
    }

    fn supports_reads() -> (supported: bool) {
        true
    }

    fn lcd_type(&self) -> (lcd_type: LcdDisplayType) {
        self.config.lcd_type
    }

    fn i2c_address(&self) -> (address: u8) {
        self.config.address
    }

    /// A panel that the adapter cannot drive is refused and nothing changes. Else the plan is
    /// the whole power-on sequence, the lines are as it leaves them, and the mode bytes handed
    /// back are those that it leaves every controller with.
    open spec fn initialized(
        before: Self,
        after: Self,
        result: Result<((u8, u8, u8), BusPlan), CharacterDisplayError>,
    ) -> bool {
        &&& after.device_setup() == before.device_setup()
        &&& match result {
            Ok((modes, plan)) => {
                &&& Self::supported(before.device_setup().lcd_type)
                &&& modes == (0x08u8, 0x04u8, 0x02u8)
                &&& plan@ == init_ops::<Self>(before.device_setup().address, before.signals())
                &&& after.signals() == after_init::<Self>(before.signals())
            },
            Err(e) => {
                &&& !Self::supported(before.device_setup().lcd_type)
                &&& e == CharacterDisplayError::UnsupportedDisplayType
                &&& after.signals() == before.signals()
            },
        }
    }

    fn init(&mut self) -> (result: Result<((u8, u8, u8), BusPlan), CharacterDisplayError>) {
        self.adapter_init()
    }

    fn write_bytes(&mut self, rs_setting: bool, data: &[u8]) -> (result: Result<
        BusPlan,
        CharacterDisplayError,
    >) {
        Err(CharacterDisplayError::UnsupportedOperation)
    }
}

impl HD44780DeviceTrait for GenericPCF8574TAdapter {
    proof fn lemma_one_device(&self, config: DeviceSetupConfig) {
    }
}

impl HD44780AdapterTrait for GenericPCF8574TAdapter {
    closed spec fn signals(&self) -> SignalState {
        self.signals
    }

    closed spec fn device_setup(&self) -> DeviceSetupConfig {
        self.config
    }

    fn device_config(&self) -> (config: &DeviceSetupConfig) {
        &self.config
    }

    open spec fn read_model(&self, controller: usize, rs_setting: bool, count: usize) -> Result<
        ReadState,
        CharacterDisplayError,
    > {
        if controller != 0 {
            Err(CharacterDisplayError::BadDeviceId)
        } else {
            Ok(
                ReadState {
                    address: self.device_setup().address,
                    signals: self.signals(),
                    rs: rs_setting,
                    mask: 0xff,
                    wanted: count as nat,
                    bytes: Seq::empty(),
                    phase: ReadPhase::Start,
                },
            )
        }
    }

    fn max_controller_count() -> (count: usize) {
        1
    }

    fn hardware_init(&mut self) -> (plan: BusPlan) {
        BusPlan::new()
    }

    fn is_supported(display_type: LcdDisplayType) -> (supported: bool) {
        display_type != LcdDisplayType::Lcd40x4
    }

    fn bits(&self) -> (byte: u8) {
        encode_pcf8574t(&self.signals)
    }

    fn set_rs(&mut self, value: bool) {
        self.signals.rs = value;
    }

    fn set_rw(&mut self, value: bool) {
        self.signals.rw = value;
    }

    fn set_enable(&mut self, value: bool, controller: usize) -> (result: Result<
        (),
        CharacterDisplayError,
    >) {
        if controller != 0 {
            return Err(CharacterDisplayError::BadDeviceId);
        }
        self.signals.enable0 = value;
        Ok(())
    }

    fn set_backlight(&mut self, value: bool) -> (result: Result<BusPlan, CharacterDisplayError>) {
        self.signals.backlight = value;
        self.write_bits_to_gpio()
    }

    fn set_data(&mut self, value: u8) {
        self.signals.data = value & 0x0F;
        assert(value & 0x0F == value % 16) by (bit_vector);
    }

    fn write_bits_to_gpio(&mut self) -> (result: Result<BusPlan, CharacterDisplayError>) {
        let mut plan = BusPlan::new();
        plan.write_byte(self.config.address, self.bits());
        assert(plan@ =~= seq![state_write::<Self>(self.device_setup().address, self.signals())]);
        Ok(plan)
    }

    fn controller_count() -> (count: usize) {
        1
    }

    fn row_to_controller_row(&self, row: u8) -> (place: (usize, u8)) {
        (0, row)
    }

    fn read_bytes_from_controller(
        &mut self,
        controller: usize,
        rs_setting: bool,
        count: usize,
    ) -> (result: Result<ReadSession, CharacterDisplayError>) {
        if controller != 0 {
            return Err(CharacterDisplayError::BadDeviceId);
        }
        Ok(ReadSession::new(self.config.address, self.signals, rs_setting, 0xff, count))
    }

    fn is_busy(&mut self, reply: u8) -> (result: Result<bool, CharacterDisplayError>) {
        Ok(is_busy_reply(reply))
    }
}

impl GenericPCF8574TAdapter {
    /// Plans one poll of the controller's busy flag: six writes and, while the enable line is
    /// high for the first time, one read. `is_busy` tells from the byte read whether the
    /// controller is busy.
    pub fn busy_poll(&self) -> (plan: BusPlan)
        ensures
            plan@ == poll_ops(self.device_setup().address, self.signals()),
    {
        poll_plan(self.config.address, &self.signals)
    }
}

/// A write of one byte to the port at `address`.
pub open spec fn port_write(address: u8, byte: u8) -> BusOp {
    BusOp::Write { address, bytes: seq![byte] }
}

/// The four port writes that carry the command `value` to the controller while the other
/// lines are low: each nibble in the high half of the port byte, first with the enable line,
/// bit 2, high and then with it low.
pub open spec fn command_writes(address: u8, value: u8) -> Seq<BusOp> {
    seq![
        port_write(address, ((value / 16) * 16 + 4) as u8),
        port_write(address, ((value / 16) * 16) as u8),
        port_write(address, ((value % 16) * 16 + 4) as u8),
        port_write(address, ((value % 16) * 16) as u8),
    ]
}

/// The whole power-on sequence of a display behind this adapter whose lines are all low, byte
/// for byte: three times the nibble 0x3 and once 0x2 with their waits, then function set
/// 0x28, display control 0x0C, entry mode 0x06, clear and home with their waits, and at last
/// the write that turns the backlight on.
pub proof fn lemma_power_on_sequence(address: u8)
    ensures
        init_ops::<GenericPCF8574TAdapter>(address, SignalState::idle()) == seq![
            port_write(address, 0x34),
            port_write(address, 0x30),
            BusOp::DelayMs(5),
            port_write(address, 0x34),
            port_write(address, 0x30),
            BusOp::DelayMs(5),
            port_write(address, 0x34),
            port_write(address, 0x30),
            BusOp::DelayUs(150),
            port_write(address, 0x24),
            port_write(address, 0x20),
        ] + command_writes(address, 0x28) + command_writes(address, 0x0c) + command_writes(
            address,
            0x06,
        ) + command_writes(address, 0x01) + seq![BusOp::DelayMs(2)] + command_writes(
            address,
            0x02,
        ) + seq![BusOp::DelayMs(2), port_write(address, 0x28)],
{
    let s = SignalState::idle();
    lemma_nibble_writes(address, 0x03);
    lemma_nibble_writes(address, 0x02);
    lemma_command_writes(address, 0x28);
    lemma_command_writes(address, 0x0c);
    lemma_command_writes(address, 0x06);
    lemma_command_writes(address, 0x01);
    lemma_command_writes(address, 0x02);
    assert(controllers_init_ops::<GenericPCF8574TAdapter>(address, s, 1)
        =~= controller_init_ops::<GenericPCF8574TAdapter>(address, s, 0)) by {
        assert(controllers_init_ops::<GenericPCF8574TAdapter>(address, s, 0) =~= Seq::<
            BusOp,
        >::empty());
    }
    assert(state_write::<GenericPCF8574TAdapter>(
        address,
        after_init::<GenericPCF8574TAdapter>(s),
    ) == port_write(address, 0x28));
    assert(init_ops::<GenericPCF8574TAdapter>(address, s) =~= seq![
        port_write(address, 0x34),
        port_write(address, 0x30),
        BusOp::DelayMs(5),
        port_write(address, 0x34),
        port_write(address, 0x30),
        BusOp::DelayMs(5),
        port_write(address, 0x34),
        port_write(address, 0x30),
        BusOp::DelayUs(150),
        port_write(address, 0x24),
        port_write(address, 0x20),
    ] + command_writes(address, 0x28) + command_writes(address, 0x0c) + command_writes(
        address,
        0x06,
    ) + command_writes(address, 0x01) + seq![BusOp::DelayMs(2)] + command_writes(address, 0x02)
        + seq![BusOp::DelayMs(2), port_write(address, 0x28)]);
}

/// A nibble for the instruction register, the other lines low, is the nibble in the high
/// half of the port byte, first with bit 2 set and then without.
proof fn lemma_nibble_writes(address: u8, value: u8)
    requires
        value < 16,
    ensures
        nibble_ops::<GenericPCF8574TAdapter>(address, SignalState::idle(), 0, false, value)
            == seq![
            port_write(address, (value * 16 + 4) as u8),
            port_write(address, (value * 16) as u8),
        ],
{
}

/// A command, the other lines low, is its two nibbles, the high one first.
proof fn lemma_command_writes(address: u8, value: u8)
    ensures
        byte_ops::<GenericPCF8574TAdapter>(address, SignalState::idle(), 0, false, value)
            == command_writes(address, value),
{
    lemma_nibble_writes(address, value / 16);
    lemma_nibble_writes(address, value % 16);
    assert(byte_ops::<GenericPCF8574TAdapter>(address, SignalState::idle(), 0, false, value)
        =~= command_writes(address, value));
}

} // verus!
