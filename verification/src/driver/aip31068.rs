//! The AiP31068: an HD44780-like controller with an I2C interface of its own.

use vstd::prelude::*;
use crate::bus::{BusOp, BusPlan};
use crate::driver::standard::{
    LCD_CMD_CLEARDISPLAY, LCD_CMD_DISPLAYCONTROL, LCD_CMD_ENTRYMODESET, LCD_CMD_FUNCTIONSET,
    LCD_FLAG_2LINE, LCD_FLAG_5x8_DOTS, LCD_FLAG_BLINKOFF, LCD_FLAG_CURSOROFF, LCD_FLAG_DISPLAYON,
    LCD_FLAG_ENTRYLEFT, LCD_FLAG_ENTRYSHIFTDECREMENT,
};
use crate::driver::{planned, DeviceHardwareTrait};
use crate::{CharacterDisplayError, DeviceSetupConfig, LcdDisplayType};

verus! {

/// Control byte flag: another control byte follows the next data byte.
pub const CONTROL_NOT_LAST_BYTE: u8 = 0b1000_0000;

/// Control byte flag: last control byte, only data bytes follow.
pub const CONTROL_LAST_BYTE: u8 = 0b0000_0000;

/// Control byte flag: what follows goes to the data register.
pub const CONTROL_RS_DATA: u8 = 0b0100_0000;

/// Control byte flag: what follows goes to the instruction register.
pub const CONTROL_RS_COMMAND: u8 = 0b0000_0000;

/// The longest frame that the driver sends: 80 bytes of data and 2 control bytes.
pub const MAX_BUFFER_SIZE: usize = 82;

/// The control byte in front of a run of bytes for the data register (`rs_setting` true) or
/// the instruction register.
pub open spec fn control_byte(rs_setting: bool) -> u8 {
    if rs_setting {
        0x40
    } else {
        0x00
    }
}

/// The frame that carries `data` to a controller at `address`: nothing for no data, else one
/// write of the control byte and the data, unless that is longer than the longest frame.
pub open spec fn control_framed(address: u8, rs_setting: bool, data: Seq<u8>) -> Result<
    Seq<BusOp>,
    CharacterDisplayError,
> {
    if data.len() == 0 {
        Ok(Seq::empty())
    } else if data.len() + 1 > MAX_BUFFER_SIZE {
        Err(CharacterDisplayError::BufferTooSmall)
    } else {
        Ok(seq![BusOp::Write { address, bytes: seq![control_byte(rs_setting)] + data }])
    }
}

/// The one-step plan that carries one command byte to a controller at `address`.
pub open spec fn command_write(address: u8, command: u8) -> BusOp {
    BusOp::Write { address, bytes: seq![0x00u8, command] }
}

/// Plans the frame that carries `data` to the controller at `address`.
pub fn frame_bytes(address: u8, rs_setting: bool, data: &[u8]) -> (result: Result<
    BusPlan,
    CharacterDisplayError,
>)
    ensures
        planned(result) == control_framed(address, rs_setting, data@),
{
    let mut plan = BusPlan::new();
    if data.len() == 0 {
        return Ok(plan);
    }
    if data.len() >= MAX_BUFFER_SIZE {
        return Err(CharacterDisplayError::BufferTooSmall);
    }
    let control: u8 = if rs_setting {
        CONTROL_RS_DATA
    } else {
        CONTROL_RS_COMMAND
    };
    assert(0x40u8 | 0x00u8 == 0x40u8 && 0x00u8 | 0x00u8 == 0x00u8) by (bit_vector);
    let mut frame: Vec<u8> = Vec::new();
    frame.push(control | CONTROL_LAST_BYTE);
    let mut idx: usize = 0;
    while idx < data.len()
        invariant
            idx <= data.len(),
            frame@ == seq![control_byte(rs_setting)] + data@.take(idx as int),
        decreases data.len() - idx,
    {
        frame.push(data[idx]);
        idx = idx + 1;
        assert(frame@ =~= seq![control_byte(rs_setting)] + data@.take(idx as int));
    }
    assert(data@.take(idx as int) =~= data@);
    plan.write(address, frame);
    assert(plan@ =~= seq![
        BusOp::Write { address, bytes: seq![control_byte(rs_setting)] + data@ },
    ]);
    Ok(plan)
}

/// Plans the one write that carries one command byte to the controller at `address`.
pub fn frame_command(address: u8, command: u8) -> (plan: BusPlan)
    ensures
        plan@ == seq![command_write(address, command)],
        control_framed(address, false, seq![command]) == Ok::<Seq<BusOp>, CharacterDisplayError>(
            plan@,
        ),
{
    let mut plan = BusPlan::new();
    plan.write_pair(address, CONTROL_RS_COMMAND, command);
    assert(seq![control_byte(false)] + seq![command] =~= seq![0x00u8, command]);
    plan
}

/// The power-on sequence of an AiP31068 at `address`.
pub open spec fn aip31068_init_ops(address: u8) -> Seq<BusOp> {
    seq![
        BusOp::DelayMs(15),
        command_write(address, 0x28),
        BusOp::DelayUs(39),
        command_write(address, 0x0c),
        BusOp::DelayUs(39),
        command_write(address, 0x01),
        BusOp::DelayUs(1530),
        command_write(address, 0x06),
    ]
}

/// AIP31068 device driver implementation.
#[derive(Debug, PartialEq, Eq, Clone, Copy)]
pub struct AIP31068 {
    config: DeviceSetupConfig,
}

impl DeviceHardwareTrait for AIP31068 {
    closed spec fn setup(&self) -> DeviceSetupConfig {
        self.config
    }

    closed spec fn fresh(config: DeviceSetupConfig) -> Self {
        AIP31068 { config }
    }

    open spec fn default_address() -> u8 {
        0x3e
    }

    open spec fn reads_supported() -> bool {
        false
    }

    open spec fn write_bytes_model(&self, rs_setting: bool, data: Seq<u8>) -> Result<
        Seq<BusOp>,
        CharacterDisplayError,
    > {
        control_framed(self.setup().address, rs_setting, data)
    }

    fn new(config: DeviceSetupConfig) -> (device: Self) {
        AIP31068 { config }
    }

    fn default_i2c_address() -> (address: u8) {
        0x3e
    }

    fn supports_reads() -> (supported: bool) {
        false
    }

    fn lcd_type(&self) -> (lcd_type: LcdDisplayType) {
        self.config.lcd_type
    }

    fn i2c_address(&self) -> (address: u8) {
        self.config.address
    }

    open spec fn initialized(
        before: Self,
        after: Self,
        result: Result<((u8, u8, u8), BusPlan), CharacterDisplayError>,
    ) -> bool {
        &&& after == before
        &&& match result {
            Ok((modes, plan)) => modes == (0x08u8, 0x04u8, 0x02u8) && plan@ == aip31068_init_ops(
                before.setup().address,
            ),
            Err(_) => false,
        }
    }

    /// Plans the power-on sequence: wait for the supply to settle, then function set, display
    /// control, clear and entry mode, with the wait that each needs.
    fn init(&mut self) -> (result: Result<((u8, u8, u8), BusPlan), CharacterDisplayError>) {
        let address: u8 = self.config.address;
        let display_function: u8 = LCD_FLAG_2LINE | LCD_FLAG_5x8_DOTS;
        let display_control: u8 = LCD_FLAG_DISPLAYON | LCD_FLAG_CURSOROFF | LCD_FLAG_BLINKOFF;
        let display_mode: u8 = LCD_FLAG_ENTRYLEFT | LCD_FLAG_ENTRYSHIFTDECREMENT;
        assert(0x08u8 | 0x00u8 == 0x08u8 && 0x04u8 | 0x00u8 | 0x00u8 == 0x04u8 && 0x02u8 | 0x00u8
            == 0x02u8 && 0x20u8 | 0x08u8 == 0x28u8 && 0x08u8 | 0x04u8 == 0x0cu8 && 0x04u8 | 0x02u8
            == 0x06u8) by (bit_vector);
        let mut plan = BusPlan::new();
        plan.delay_ms(15);
        plan.extend(frame_command(address, LCD_CMD_FUNCTIONSET | display_function));
        plan.delay_us(39);
        plan.extend(frame_command(address, LCD_CMD_DISPLAYCONTROL | display_control));
        plan.delay_us(39);
        plan.extend(frame_command(address, LCD_CMD_CLEARDISPLAY));
        plan.delay_us(1530);
        plan.extend(frame_command(address, LCD_CMD_ENTRYMODESET | display_mode));
        assert(plan@ =~= aip31068_init_ops(address));
        Ok(((display_function, display_control, display_mode), plan))
    }

    /// Plans the transfer of one or more bytes to the display as one frame: a control byte
    /// that names the register, then the bytes.
    fn write_bytes(&mut self, rs_setting: bool, data: &[u8]) -> (result: Result<
        BusPlan,
        CharacterDisplayError,
    >)
        ensures
            *final(self) == *old(self),
    {
        frame_bytes(self.config.address, rs_setting, data)
    }
}

} // verus!
