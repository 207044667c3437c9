//! The ST7032i: an HD44780-like controller with an I2C interface of its own and a contrast
//! that is set by command.

use vstd::prelude::*;
use crate::bus::{BusOp, BusPlan};
use crate::driver::aip31068::{command_write, control_framed, frame_bytes, frame_command};
use crate::driver::hd44780::read::ReadSession;
use crate::driver::standard::{
    framed, standard_performs, standard_starts_read, StandardCharacterDisplayHandler,
    StandardModes, LCD_CMD_CLEARDISPLAY, LCD_CMD_DISPLAYCONTROL, LCD_CMD_ENTRYMODESET,
    LCD_CMD_FUNCTIONSET, LCD_FLAG_2LINE, LCD_FLAG_5x8_DOTS, LCD_FLAG_8BITMODE, LCD_FLAG_BLINKOFF,
    LCD_FLAG_CURSOROFF, LCD_FLAG_DISPLAYON, LCD_FLAG_ENTRYLEFT, LCD_FLAG_ENTRYSHIFTDECREMENT,
};
use crate::driver::{planned, DeviceHardwareTrait, DisplayActionsTrait, DisplayOp};
use crate::{CharacterDisplayError, DeviceSetupConfig, LcdDisplayType};

verus! {

/// Function-set flag: the extended instruction table.
pub const LCD_FLAG_INSTUCTION_EXTENSION: u8 = 0x01;

/// Function-set flag: the normal instruction table.
pub const LCD_FLAG_INSTRUCTION_NORMAL: u8 = 0x00;

/// Extended instruction: sets the low four bits of the contrast.
pub const LCD_CMD_SET_CONTRAST_LOW: u8 = 0x70;

/// Extended instruction: sets the booster, the icon display and the high two bits of the
/// contrast.
pub const LCD_CMD_SET_PWR_ICON_CONTRAST_HI: u8 = 0x50;

/// How long the controller needs for a command, in microseconds.
pub const ST7032I_SETTLE_US: u32 = 27;

/// The power-on sequence of an ST7032i at `address`.
pub open spec fn st7032i_init_ops(address: u8) -> Seq<BusOp> {
    seq![
        BusOp::DelayMs(40),
        command_write(address, 0x38),
        BusOp::DelayUs(27),
        command_write(address, 0x39),
        BusOp::DelayUs(27),
        command_write(address, 0x14),
        BusOp::DelayUs(27),
        command_write(address, 0x78),
        BusOp::DelayUs(27),
        command_write(address, 0x5e),
        BusOp::DelayUs(27),
        command_write(address, 0x6a),
        BusOp::DelayMs(200),
        command_write(address, 0x38),
        BusOp::DelayUs(27),
        command_write(address, 0x0c),
        BusOp::DelayUs(27),
        command_write(address, 0x01),
        BusOp::DelayMs(2),
        command_write(address, 0x06),
        BusOp::DelayUs(27),
    ]
}

/// ST7032i device driver implementation.
#[derive(Debug, PartialEq, Eq, Clone, Copy)]
pub struct ST7032i {
    config: DeviceSetupConfig,
}

impl DeviceHardwareTrait for ST7032i {
    closed spec fn setup(&self) -> DeviceSetupConfig {
        self.config
    }

    closed spec fn fresh(config: DeviceSetupConfig) -> Self {
        ST7032i { config }
    }

    open spec fn default_address() -> u8 {
        0x3e
    }

    open spec fn reads_supported() -> bool {
        false
    }

    open spec fn write_bytes_model(&self, rs_setting: bool, data: Seq<u8>) -> Result<
        Seq<BusOp>,
        CharacterDisplayError,
    > {
        control_framed(self.setup().address, rs_setting, data)
    }

    fn new(config: DeviceSetupConfig) -> (device: Self) {
        ST7032i { config }
    }

    fn default_i2c_address() -> (address: u8) {
        0x3e
    }

    fn supports_reads() -> (supported: bool) {
        false
    }

    fn lcd_type(&self) -> (lcd_type: LcdDisplayType) {
        self.config.lcd_type
    }

    fn i2c_address(&self) -> (address: u8) {
        self.config.address
    }

    open spec fn initialized(
        before: Self,
        after: Self,
        result: Result<((u8, u8, u8), BusPlan), CharacterDisplayError>,
    ) -> bool {
        &&& after == before
        &&& match result {
            Ok((modes, plan)) => modes == (0x18u8, 0x04u8, 0x02u8) && plan@ == st7032i_init_ops(
                before.setup().address,
            ),
            Err(_) => false,
        }
    }

    /// Plans the power-on sequence: wait for the supply to settle, function set, then in the
    /// extended instruction table the oscillator, the contrast, the booster and the follower,
    /// whose supply needs 200 ms; back in the normal table display control, clear and entry
    /// mode.
    fn init(&mut self) -> (result: Result<((u8, u8, u8), BusPlan), CharacterDisplayError>) {
        let address: u8 = self.config.address;
        let display_function: u8 = LCD_FLAG_8BITMODE | LCD_FLAG_2LINE | LCD_FLAG_5x8_DOTS
            | LCD_FLAG_INSTRUCTION_NORMAL;
        let display_control: u8 = LCD_FLAG_DISPLAYON | LCD_FLAG_CURSOROFF | LCD_FLAG_BLINKOFF;
        let display_mode: u8 = LCD_FLAG_ENTRYLEFT | LCD_FLAG_ENTRYSHIFTDECREMENT;
        let contrast_low: u8 = 0x08;
        assert(0x10u8 | 0x08u8 | 0x00u8 | 0x00u8 == 0x18u8 && 0x04u8 | 0x00u8 | 0x00u8 == 0x04u8
            && 0x02u8 | 0x00u8 == 0x02u8 && 0x20u8 | 0x18u8 == 0x38u8 && 0x20u8 | 0x18u8 | 0x01u8
            == 0x39u8 && 0x70u8 | 0x08u8 == 0x78u8 && 0x08u8 | 0x04u8 == 0x0cu8 && 0x04u8 | 0x02u8
            == 0x06u8) by (bit_vector);
        let mut plan = BusPlan::new();
        plan.delay_ms(40);
        plan.extend(frame_command(address, LCD_CMD_FUNCTIONSET | display_function));
        plan.delay_us(ST7032I_SETTLE_US);
        plan.extend(
            frame_command(
                address,
                LCD_CMD_FUNCTIONSET | display_function | LCD_FLAG_INSTUCTION_EXTENSION,
            ),
        );
        plan.delay_us(ST7032I_SETTLE_US);
        // internal oscillator: 1/5 bias, frame frequency about 149 Hz at 5 V
        plan.extend(frame_command(address, 0x14));
        plan.delay_us(ST7032I_SETTLE_US);
        plan.extend(frame_command(address, LCD_CMD_SET_CONTRAST_LOW | contrast_low));
        plan.delay_us(ST7032I_SETTLE_US);
        // icon display on, booster on, contrast high bits
        plan.extend(frame_command(address, 0x5E));
        plan.delay_us(ST7032I_SETTLE_US);
        // follower circuit on
        plan.extend(frame_command(address, 0x6A));
        plan.delay_ms(200);
        plan.extend(frame_command(address, LCD_CMD_FUNCTIONSET | display_function));
        plan.delay_us(ST7032I_SETTLE_US);
        plan.extend(frame_command(address, LCD_CMD_DISPLAYCONTROL | display_control));
        plan.delay_us(ST7032I_SETTLE_US);
        plan.extend(frame_command(address, LCD_CMD_CLEARDISPLAY));
        plan.delay_ms(2);
        plan.extend(frame_command(address, LCD_CMD_ENTRYMODESET | display_mode));
        plan.delay_us(ST7032I_SETTLE_US);
        assert(plan@ =~= st7032i_init_ops(address));
        Ok(((display_function, display_control, display_mode), plan))
    }

    /// Plans the transfer of one or more bytes to the display as one frame: a control byte
    /// that names the register, then the bytes.
    fn write_bytes(&mut self, rs_setting: bool, data: &[u8]) -> (result: Result<
        BusPlan,
        CharacterDisplayError,
    >)
        ensures
            *final(self) == *old(self),
    {
        frame_bytes(self.config.address, rs_setting, data)
    }
}

/// What `set_contrast` comes to through `device`: the controller is put into the extended
/// instruction table, given the low four and the high two bits of the contrast, and put back
/// into the normal table, with a wait after each command. The first command that the device
/// refuses ends it.
pub open spec fn contrast_framed<DEVICE: DeviceHardwareTrait>(
    device: DEVICE,
    function: u8,
    contrast_low: u8,
    power_icon_contrast_hi: u8,
) -> Result<Seq<BusOp>, CharacterDisplayError> {
    match framed(device, false, seq![LCD_CMD_FUNCTIONSET | function | 0x01], 27) {
        Err(e) => Err(e),
        Ok(extended) => match framed(device, false, seq![0x70 | contrast_low], 27) {
            Err(e) => Err(e),
            Ok(low) => match framed(device, false, seq![0x50 | power_icon_contrast_hi], 27) {
                Err(e) => Err(e),
                Ok(high) => match framed(device, false, seq![LCD_CMD_FUNCTIONSET | function], 27) {
                    Err(e) => Err(e),
                    Ok(normal) => Ok(extended + low + high + normal),
                },
            },
        },
    }
}

/// The mode bytes of an ST7032i and its contrast.
pub struct ST7032iModes {
    /// The three mode bytes.
    pub base: StandardModes,
    /// Booster and icon flags in bits 2 and 3, the high two bits of the contrast in bits 0
    /// and 1.
    pub power_icon_contrast_hi: u8,
    /// The low four bits of the contrast.
    pub contrast_low: u8,
}

/// Display actions for the ST7032i: the shared command set, and the contrast.
#[derive(Debug, PartialEq, Eq, Clone, Copy)]
pub struct ST7032iDisplayActions {
    base: StandardCharacterDisplayHandler,
    power_icon_contrast_hi: u8,
    contrast_low: u8,
}

impl View for ST7032iDisplayActions {
    type V = ST7032iModes;

    closed spec fn view(&self) -> ST7032iModes {
        ST7032iModes {
            base: self.base@,
            power_icon_contrast_hi: self.power_icon_contrast_hi,
            contrast_low: self.contrast_low,
        }
    }
}

impl Default for ST7032iDisplayActions {
    /// Display actions that know of no mode byte yet, booster and icon display on, contrast
    /// zero.
    fn default() -> (actions: Self)
        ensures
            actions@ == (ST7032iModes {
                base: StandardModes { function: 0, control: 0, mode: 0 },
                power_icon_contrast_hi: 0x0c,
                contrast_low: 0,
            }),
    {
        ST7032iDisplayActions {
            base: StandardCharacterDisplayHandler::default(),
            power_icon_contrast_hi: 0x0C,
            contrast_low: 0,
        }
    }
}

impl ST7032iDisplayActions {
    /// Plans one command through the device and the wait after it.
    fn command<DEVICE: DeviceHardwareTrait>(device: &mut DEVICE, command: u8) -> (result: Result<
        BusPlan,
        CharacterDisplayError,
    >)
        ensures
            final(device).setup() == old(device).setup(),
            forall|rs: bool, bytes: Seq<u8>| #[trigger]
                final(device).write_bytes_model(rs, bytes) == old(device).write_bytes_model(
                    rs,
                    bytes,
                ),
            planned(result) == framed(*old(device), false, seq![command], 27),
    {
        let data: [u8; 1] = [command];
        assert(data@ =~= seq![command]);
        let mut plan = device.write_bytes(false, data.as_slice())?;
        plan.delay_us(ST7032I_SETTLE_US);
        Ok(plan)
    }
}

impl<DEVICE: DeviceHardwareTrait> DisplayActionsTrait<DEVICE> for ST7032iDisplayActions {
    open spec fn records(
        &self,
        before: Self,
        display_function: u8,
        display_control: u8,
        display_mode: u8,
    ) -> bool {
        self@ == (ST7032iModes {
            base: StandardModes {
                function: display_function,
                control: display_control,
                mode: display_mode,
            },
            ..before@
        })
    }

    /// The contrast is set as `contrast_framed` says; every other operation is that of the
    /// shared command set on the three mode bytes, and leaves the contrast as it is.
    open spec fn performs(
        before: Self,
        device: DEVICE,
        op: DisplayOp,
        after: Self,
        device_after: DEVICE,
        result: Result<BusPlan, CharacterDisplayError>,
    ) -> bool {
        match op {
            DisplayOp::SetContrast(contrast) => {
                &&& after@ == (ST7032iModes {
                    contrast_low: contrast & 0x0f,
                    power_icon_contrast_hi: ((contrast >> 4) & 0x03) | (
                    before@.power_icon_contrast_hi & 0x0c),
                    ..before@
                })
                &&& device_after.setup() == device.setup()
                &&& planned(result) == contrast_framed(
                    device,
                    before@.base.function,
                    after@.contrast_low,
                    after@.power_icon_contrast_hi,
                )
            },
            _ => {
                &&& standard_performs(before@.base, device, op, after@.base, device_after, result)
                &&& after@.power_icon_contrast_hi == before@.power_icon_contrast_hi
                &&& after@.contrast_low == before@.contrast_low
            },
        }
    }

    open spec fn starts_read(
        before: Self,
        device: DEVICE,
        data: bool,
        count: usize,
        after: Self,
        device_after: DEVICE,
        result: Result<ReadSession, CharacterDisplayError>,
    ) -> bool {
        &&& standard_starts_read(before@.base, device, after@.base, device_after, result)
        &&& after@ == before@
    }

    /// Records the mode bytes that the power-on sequence left the controller with.
    fn init_display_state(
        &mut self,
        display_function: u8,
        display_control: u8,
        display_mode: u8,
    ) -> Result<(), CharacterDisplayError> {
        self.base.set_display_state(display_function, display_control, display_mode);
        Ok(())
    }

    /// Plans the clearing of the display.
    fn clear(&mut self, device: &mut DEVICE) -> (result: Result<BusPlan, CharacterDisplayError>) {
        self.base.clear(device)
    }

    /// Plans the return of the cursor to the home position.
    fn home(&mut self, device: &mut DEVICE) -> (result: Result<BusPlan, CharacterDisplayError>) {
        self.base.home(device)
    }

    /// Plans the placing of the cursor at a column and row of the panel, both counted from
    /// zero. A row or column that the panel does not have is refused, the row first.
    fn set_cursor(&mut self, device: &mut DEVICE, col: u8, row: u8) -> (result: Result<
        BusPlan,
        CharacterDisplayError,
    >) {
        self.base.set_cursor(device, col, row)
    }

    /// Plans the showing or hiding of the cursor.
    fn show_cursor(
        &mut self,
        device: &mut DEVICE,
        show_cursor: bool,
    ) -> (result: Result<BusPlan, CharacterDisplayError>) {
        self.base.show_cursor(device, show_cursor)
    }

    /// Plans the blinking or steady cursor.
    fn blink_cursor(
        &mut self,
        device: &mut DEVICE,
        blink_cursor: bool,
    ) -> (result: Result<BusPlan, CharacterDisplayError>) {
        self.base.blink_cursor(device, blink_cursor)
    }

    /// Plans the switching on or off of the display.
    fn show_display(
        &mut self,
        device: &mut DEVICE,
        show_display: bool,
    ) -> (result: Result<BusPlan, CharacterDisplayError>) {
        self.base.show_display(device, show_display)
    }

    /// Plans the shifting of the display by one column to the left.
    fn scroll_left(&mut self, device: &mut DEVICE) -> (result: Result<
        BusPlan,
        CharacterDisplayError,
    >) {
        self.base.scroll_left(device)
    }

    /// Plans the shifting of the display by one column to the right.
    fn scroll_right(&mut self, device: &mut DEVICE) -> (result: Result<
        BusPlan,
        CharacterDisplayError,
    >) {
        self.base.scroll_right(device)
    }

    /// Plans the setting of the text direction to left to right.
    fn left_to_right(
        &mut self,
        device: &mut DEVICE,
    ) -> (result: Result<BusPlan, CharacterDisplayError>) {
        self.base.left_to_right(device)
    }

    /// Plans the setting of the text direction to right to left: the left-to-right flag of the
    /// entry mode is cleared.
    fn right_to_left(
        &mut self,
        device: &mut DEVICE,
    ) -> (result: Result<BusPlan, CharacterDisplayError>) {
        self.base.right_to_left(device)
    }

    /// Plans the switching on or off of automatic scrolling.
    fn autoscroll(
        &mut self,
        device: &mut DEVICE,
        autoscroll: bool,
    ) -> (result: Result<BusPlan, CharacterDisplayError>) {
        self.base.autoscroll(device, autoscroll)
    }

    /// Plans the printing of `text` at the cursor: its bytes in one write, then the wait.
    fn print(&mut self, device: &mut DEVICE, text: &str) -> (result: Result<
        BusPlan,
        CharacterDisplayError,
    >) {
        self.base.print(device, text)
    }

    /// The controllers that these actions serve have no backlight line: always refused.
    fn backlight(&mut self, device: &mut DEVICE, on: bool) -> (result: Result<
        BusPlan,
        CharacterDisplayError,
    >) {
        self.base.backlight(device, on)
    }

    /// Plans the storing of a custom character at one of eight places.
    fn create_char(&mut self, device: &mut DEVICE, location: u8, charmap: [u8; 8]) -> (result:
        Result<BusPlan, CharacterDisplayError>) {
        self.base.create_char(device, location, charmap)
    }

    /// The controllers that these actions serve cannot be read: always refused.
    fn read_device_data(&self, device: &mut DEVICE, count: usize) -> (result: Result<
        ReadSession,
        CharacterDisplayError,
    >) {
        self.base.read_device_data(device, count)
    }

    /// The controllers that these actions serve cannot be read: always refused.
    fn read_address_counter(&mut self, device: &mut DEVICE) -> (result: Result<
        ReadSession,
        CharacterDisplayError,
    >) {
        self.base.read_address_counter(device)
    }

    /// Plans the setting of the contrast. The contrast has six bits; higher bits of
    /// `contrast` are dropped.
    fn set_contrast(&mut self, device: &mut DEVICE, contrast: u8) -> (result: Result<
        BusPlan,
        CharacterDisplayError,
    >) {
        self.contrast_low = contrast & 0x0F;
        self.power_icon_contrast_hi = ((contrast >> 4) & 0x03) | (self.power_icon_contrast_hi
            & 0x0C);
        let function: u8 = self.base.get_display_function();
        let mut plan = Self::command(
            device,
            LCD_CMD_FUNCTIONSET | function | LCD_FLAG_INSTUCTION_EXTENSION,
        )?;
        let low = Self::command(device, LCD_CMD_SET_CONTRAST_LOW | self.contrast_low)?;
        plan.extend(low);
        let high = Self::command(
            device,
            LCD_CMD_SET_PWR_ICON_CONTRAST_HI | self.power_icon_contrast_hi,
        )?;
        plan.extend(high);
        let normal = Self::command(device, LCD_CMD_FUNCTIONSET | function)?;
        plan.extend(normal);
        Ok(plan)
    }
}

} // verus!
