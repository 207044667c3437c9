//! The display actions of controllers that take whole bytes over their own I2C interface.

use vstd::prelude::*;
use crate::bus::{BusOp, BusPlan};
use crate::driver::hd44780::read::{ReadSession, ReadState};
use crate::driver::hd44780::{cursor_command, with_flag};
use crate::driver::{
    planned, session_started, DeviceHardwareTrait, DisplayActionsTrait, DisplayOp,
};
use crate::CharacterDisplayError;

verus! {

// commands
/// Clear display, set cursor position to zero.
pub const LCD_CMD_CLEARDISPLAY: u8 = 0x01;

/// Set cursor position to zero.
pub const LCD_CMD_RETURNHOME: u8 = 0x02;

/// Sets the entry mode.
pub const LCD_CMD_ENTRYMODESET: u8 = 0x04;

/// Controls the display: on and off, cursor, blinking.
pub const LCD_CMD_DISPLAYCONTROL: u8 = 0x08;

/// Moves the cursor or shifts the display.
pub const LCD_CMD_CURSORSHIFT: u8 = 0x10;

/// Sets interface width, number of lines and font.
pub const LCD_CMD_FUNCTIONSET: u8 = 0x20;

/// Sets the address in the character generator RAM.
pub const LCD_CMD_SETCGRAMADDR: u8 = 0x40;

/// Sets the address in the display data RAM.
pub const LCD_CMD_SETDDRAMADDR: u8 = 0x80;

// flags for display entry mode
/// Text flows from right to left.
pub const LCD_FLAG_ENTRYRIGHT: u8 = 0x00;

/// Text flows from left to right.
pub const LCD_FLAG_ENTRYLEFT: u8 = 0x02;

/// The display shifts with each character.
pub const LCD_FLAG_ENTRYSHIFTINCREMENT: u8 = 0x01;

/// The display stays where it is.
pub const LCD_FLAG_ENTRYSHIFTDECREMENT: u8 = 0x00;

// flags for display on/off control
/// Turns the display on.
pub const LCD_FLAG_DISPLAYON: u8 = 0x04;

/// Turns the display off.
pub const LCD_FLAG_DISPLAYOFF: u8 = 0x00;

/// Turns the cursor on.
pub const LCD_FLAG_CURSORON: u8 = 0x02;

/// Turns the cursor off.
pub const LCD_FLAG_CURSOROFF: u8 = 0x00;

/// Turns on the blinking cursor.
pub const LCD_FLAG_BLINKON: u8 = 0x01;

/// Turns off the blinking cursor.
pub const LCD_FLAG_BLINKOFF: u8 = 0x00;

// flags for display/cursor shift
/// Shift the display.
pub const LCD_FLAG_DISPLAYMOVE: u8 = 0x08;

/// Move the cursor.
pub const LCD_FLAG_CURSORMOVE: u8 = 0x00;

/// To the right.
pub const LCD_FLAG_MOVERIGHT: u8 = 0x04;

/// To the left.
pub const LCD_FLAG_MOVELEFT: u8 = 0x00;

// flags for function set
/// 8-bit interface.
pub const LCD_FLAG_8BITMODE: u8 = 0x10;

/// Two display lines.
pub const LCD_FLAG_2LINE: u8 = 0x08;

/// One display line.
pub const LCD_FLAG_1LINE: u8 = 0x00;

/// Font of 5 by 10 dots.
pub const LCD_FLAG_5x10_DOTS: u8 = 0x04;

/// Font of 5 by 8 dots.
pub const LCD_FLAG_5x8_DOTS: u8 = 0x00;

/// What a framed transfer of `data` through `device` comes to when it is followed by a wait of
/// `settle_us` microseconds: the device's write and the wait, or the device's refusal.
pub open spec fn framed<DEVICE: DeviceHardwareTrait>(
    device: DEVICE,
    rs_setting: bool,
    data: Seq<u8>,
    settle_us: u32,
) -> Result<Seq<BusOp>, CharacterDisplayError> {
    match device.write_bytes_model(rs_setting, data) {
        Ok(ops) => Ok(ops.push(BusOp::DelayUs(settle_us))),
        Err(e) => Err(e),
    }
}

/// What the storing of a custom character through `device` comes to: the command that points
/// the controller at the character's place, the eight rows of the pattern, and the wait.
pub open spec fn framed_char<DEVICE: DeviceHardwareTrait>(
    device: DEVICE,
    location: u8,
    charmap: Seq<u8>,
) -> Result<Seq<BusOp>, CharacterDisplayError> {
    match device.write_bytes_model(false, seq![LCD_CMD_SETCGRAMADDR | ((location & 0x7) << 3)]) {
        Ok(command) => match device.write_bytes_model(true, charmap) {
            Ok(pattern) => Ok((command + pattern).push(BusOp::DelayUs(39))),
            Err(e) => Err(e),
        },
        Err(e) => Err(e),
    }
}

/// The three mode bytes of a controller.
pub struct StandardModes {
    /// The function-set flags.
    pub function: u8,
    /// The display-control flags.
    pub control: u8,
    /// The entry-mode flags.
    pub mode: u8,
}

/// Display actions for the command set that most character displays share. It remembers the
/// controller's mode bytes, because the commands set several flags at once.
#[derive(Debug, PartialEq, Eq, Clone, Copy)]
pub struct StandardCharacterDisplayHandler {
    display_function: u8,
    display_control: u8,
    display_mode: u8,
}

impl View for StandardCharacterDisplayHandler {
    type V = StandardModes;

    closed spec fn view(&self) -> StandardModes {
        StandardModes {
            function: self.display_function,
            control: self.display_control,
            mode: self.display_mode,
        }
    }
}

impl Default for StandardCharacterDisplayHandler {
    /// Display actions that know of no mode byte yet.
    fn default() -> (actions: Self)
        ensures
            actions@ == (StandardModes { function: 0, control: 0, mode: 0 }),
    {
        StandardCharacterDisplayHandler { display_function: 0, display_control: 0, display_mode: 0 }
    }
}

impl StandardCharacterDisplayHandler {
    /// The function-set flags that the controller was left with.
    pub fn get_display_function(&self) -> (flags: u8)
        ensures
            flags == self@.function,
    {
        self.display_function
    }

    /// Records the mode bytes that the power-on sequence left the controller with.
    pub fn set_display_state(&mut self, display_function: u8, display_control: u8, display_mode: u8)
        ensures
            final(self)@ == (StandardModes {
                function: display_function,
                control: display_control,
                mode: display_mode,
            }),
    {
        self.display_function = display_function;
        self.display_control = display_control;
        self.display_mode = display_mode;
    }

    /// Plans one command through the device and the wait after it.
    fn command<DEVICE: DeviceHardwareTrait>(
        device: &mut DEVICE,
        command: u8,
        settle_us: u32,
    ) -> (result: 
        Result<BusPlan, CharacterDisplayError>)
        ensures
            final(device).setup() == old(device).setup(),
            planned(result) == framed(*old(device), false, seq![command], settle_us),
    {
        let data: [u8; 1] = [command];
        assert(data@ =~= seq![command]);
        let mut plan = device.write_bytes(false, data.as_slice())?;
        plan.delay_us(settle_us);
        Ok(plan)
    }
}

/// What one command through `device` comes to for display actions that leave with the mode
/// bytes `now`: the device keeps its setup, and the command goes out in one framed write that
/// is followed by a wait of `settle_us` microseconds, unless the device refuses.
pub open spec fn standard_command<DEVICE: DeviceHardwareTrait>(
    device: DEVICE,
    after: StandardModes,
    device_after: DEVICE,
    result: Result<BusPlan, CharacterDisplayError>,
    now: StandardModes,
    command: u8,
    settle_us: u32,
) -> bool {
    &&& after == now
    &&& device_after.setup() == device.setup()
    &&& planned(result) == framed(device, false, seq![command], settle_us)
}

/// What each operation of the shared command set comes to, from the mode bytes `before` and
/// through `device`.
///
/// An operation on a flag sets or clears the flag in its mode byte and sends the command of
/// that byte with the new flags; the mode bytes are kept also where the device refuses the
/// write. Clear and home wait 1530 microseconds, a text 43, every other command 39. The
/// cursor is placed only on a cell that the panel has, the row being looked at first. A text
/// goes out as its bytes in one write. There is no backlight and no contrast to set.
pub open spec fn standard_performs<DEVICE: DeviceHardwareTrait>(
    before: StandardModes,
    device: DEVICE,
    op: DisplayOp,
    after: StandardModes,
    device_after: DEVICE,
    result: Result<BusPlan, CharacterDisplayError>,
) -> bool {
    match op {
        DisplayOp::Clear => standard_command(
            device,
            after,
            device_after,
            result,
            before,
            LCD_CMD_CLEARDISPLAY,
            1530,
        ),
        DisplayOp::Home => standard_command(
            device,
            after,
            device_after,
            result,
            before,
            LCD_CMD_RETURNHOME,
            1530,
        ),
        DisplayOp::SetCursor { col, row } => {
            &&& after == before
            &&& device_after.setup() == device.setup()
            &&& planned(result) == if row >= device.setup().lcd_type.row_count() {
                Err(CharacterDisplayError::RowOutOfRange)
            } else if col >= device.setup().lcd_type.col_count() {
                Err(CharacterDisplayError::ColumnOutOfRange)
            } else {
                framed(device, false, seq![cursor_command(device.setup().lcd_type, col, row)], 39)
            }
        },
        DisplayOp::ShowCursor(on) => {
            let control = with_flag(before.control, LCD_FLAG_CURSORON, on);
            standard_command(
                device,
                after,
                device_after,
                result,
                StandardModes { control, ..before },
                LCD_CMD_DISPLAYCONTROL | control,
                39,
            )
        },
        DisplayOp::BlinkCursor(on) => {
            let control = with_flag(before.control, LCD_FLAG_BLINKON, on);
            standard_command(
                device,
                after,
                device_after,
                result,
                StandardModes { control, ..before },
                LCD_CMD_DISPLAYCONTROL | control,
                39,
            )
        },
        DisplayOp::ShowDisplay(on) => {
            let control = with_flag(before.control, LCD_FLAG_DISPLAYON, on);
            standard_command(
                device,
                after,
                device_after,
                result,
                StandardModes { control, ..before },
                LCD_CMD_DISPLAYCONTROL | control,
                39,
            )
        },
        DisplayOp::ScrollLeft => standard_command(
            device,
            after,
            device_after,
            result,
            before,
            0x18,
            39,
        ),
        DisplayOp::ScrollRight => standard_command(
            device,
            after,
            device_after,
            result,
            before,
            0x1c,
            39,
        ),
        DisplayOp::LeftToRight => {
            let mode = with_flag(before.mode, LCD_FLAG_ENTRYLEFT, true);
            standard_command(
                device,
                after,
                device_after,
                result,
                StandardModes { mode, ..before },
                LCD_CMD_ENTRYMODESET | mode,
                39,
            )
        },
        DisplayOp::RightToLeft => {
            let mode = with_flag(before.mode, LCD_FLAG_ENTRYLEFT, false);
            standard_command(
                device,
                after,
                device_after,
                result,
                StandardModes { mode, ..before },
                LCD_CMD_ENTRYMODESET | mode,
                39,
            )
        },
        DisplayOp::Autoscroll(on) => {
            let mode = with_flag(before.mode, LCD_FLAG_ENTRYSHIFTINCREMENT, on);
            standard_command(
                device,
                after,
                device_after,
                result,
                StandardModes { mode, ..before },
                LCD_CMD_ENTRYMODESET | mode,
                39,
            )
        },
        DisplayOp::Print { text, bytes } => {
            &&& after == before
            &&& device_after.setup() == device.setup()
            &&& planned(result) == framed(device, true, bytes, 43)
        },
        DisplayOp::CreateChar { location, charmap } => {
            &&& after == before
            &&& device_after.setup() == device.setup()
            &&& planned(result) == framed_char(device, location, charmap)
        },
        DisplayOp::Backlight(_) | DisplayOp::SetContrast(_) => {
            &&& after == before
            &&& device_after == device
            &&& planned(result) == Err::<Seq<BusOp>, CharacterDisplayError>(
                CharacterDisplayError::UnsupportedOperation,
            )
        },
    }
}

/// What the start of a read comes to: the controllers that these actions serve cannot be
/// read, so it is always refused and nothing changes.
pub open spec fn standard_starts_read<DEVICE: DeviceHardwareTrait>(
    before: StandardModes,
    device: DEVICE,
    after: StandardModes,
    device_after: DEVICE,
    result: Result<ReadSession, CharacterDisplayError>,
) -> bool {
    &&& after == before
    &&& device_after == device
    &&& session_started(result) == Err::<ReadState, CharacterDisplayError>(
        CharacterDisplayError::UnsupportedOperation,
    )
}

impl<DEVICE: DeviceHardwareTrait> DisplayActionsTrait<DEVICE> for StandardCharacterDisplayHandler {
    open spec fn records(
        &self,
        before: Self,
        display_function: u8,
        display_control: u8,
        display_mode: u8,
    ) -> bool {
        self@ == (StandardModes {
            function: display_function,
            control: display_control,
            mode: display_mode,
        })
    }

    open spec fn performs(
        before: Self,
        device: DEVICE,
        op: DisplayOp,
        after: Self,
        device_after: DEVICE,
        result: Result<BusPlan, CharacterDisplayError>,
    ) -> bool {
        standard_performs(before@, device, op, after@, device_after, result)
    }

    open spec fn starts_read(
        before: Self,
        device: DEVICE,
        data: bool,
        count: usize,
        after: Self,
        device_after: DEVICE,
        result: Result<ReadSession, CharacterDisplayError>,
    ) -> bool {
        standard_starts_read(before@, device, after@, device_after, result)
    }

    /// Records the mode bytes that the power-on sequence left the controller with.
    fn init_display_state(
        &mut self,
        display_function: u8,
        display_control: u8,
        display_mode: u8,
    ) -> Result<(), CharacterDisplayError> {
        self.set_display_state(display_function, display_control, display_mode);
        Ok(())
    }

    /// Plans the clearing of the display.
    fn clear(&mut self, device: &mut DEVICE) -> (result: Result<BusPlan, CharacterDisplayError>) {
        Self::command(device, LCD_CMD_CLEARDISPLAY, 1530)
    }

    /// Plans the return of the cursor to the home position.
    fn home(&mut self, device: &mut DEVICE) -> (result: Result<BusPlan, CharacterDisplayError>) {
        Self::command(device, LCD_CMD_RETURNHOME, 1530)
    }

    /// Plans the placing of the cursor at a column and row of the panel, both counted from
    /// zero. A row or column that the panel does not have is refused, the row first.
    fn set_cursor(&mut self, device: &mut DEVICE, col: u8, row: u8) -> (result: Result<
        BusPlan,
        CharacterDisplayError,
    >) {
        let lcd_type = device.lcd_type();
        if row >= lcd_type.rows() {
            return Err(CharacterDisplayError::RowOutOfRange);
        }
        if col >= lcd_type.cols() {
            return Err(CharacterDisplayError::ColumnOutOfRange);
        }
        proof {
            lcd_type.lemma_cell_address_fits(col, row);
        }
        let offsets: [u8; 4] = lcd_type.row_offsets();
        Self::command(device, LCD_CMD_SETDDRAMADDR | (col + offsets[row as usize]), 39)
    }

    /// Plans the showing or hiding of the cursor.
    fn show_cursor(
        &mut self,
        device: &mut DEVICE,
        show_cursor: bool,
    ) -> (result: Result<BusPlan, CharacterDisplayError>) {
        if show_cursor {
            self.display_control |= LCD_FLAG_CURSORON;
        } else {
            self.display_control &= !LCD_FLAG_CURSORON;
        }
        Self::command(device, LCD_CMD_DISPLAYCONTROL | self.display_control, 39)
    }

    /// Plans the blinking or steady cursor.
    fn blink_cursor(
        &mut self,
        device: &mut DEVICE,
        blink_cursor: bool,
    ) -> (result: Result<BusPlan, CharacterDisplayError>) {
        if blink_cursor {
            self.display_control |= LCD_FLAG_BLINKON;
        } else {
            self.display_control &= !LCD_FLAG_BLINKON;
        }
        Self::command(device, LCD_CMD_DISPLAYCONTROL | self.display_control, 39)
    }

    /// Plans the switching on or off of the display.
    fn show_display(
        &mut self,
        device: &mut DEVICE,
        show_display: bool,
    ) -> (result: Result<BusPlan, CharacterDisplayError>) {
        if show_display {
            self.display_control |= LCD_FLAG_DISPLAYON;
        } else {
            self.display_control &= !LCD_FLAG_DISPLAYON;
        }
        Self::command(device, LCD_CMD_DISPLAYCONTROL | self.display_control, 39)
    }

    /// Plans the shifting of the display by one column to the left.
    fn scroll_left(&mut self, device: &mut DEVICE) -> (result: Result<
        BusPlan,
        CharacterDisplayError,
    >) {
        assert(0x10u8 | 0x08u8 | 0x00u8 == 0x18u8) by (bit_vector);
        Self::command(device, LCD_CMD_CURSORSHIFT | LCD_FLAG_DISPLAYMOVE | LCD_FLAG_MOVELEFT, 39)
    }

    /// Plans the shifting of the display by one column to the right.
    fn scroll_right(&mut self, device: &mut DEVICE) -> (result: Result<
        BusPlan,
        CharacterDisplayError,
    >) {
        assert(0x10u8 | 0x08u8 | 0x04u8 == 0x1cu8) by (bit_vector);
        Self::command(device, LCD_CMD_CURSORSHIFT | LCD_FLAG_DISPLAYMOVE | LCD_FLAG_MOVERIGHT, 39)
    }

    /// Plans the setting of the text direction to left to right.
    fn left_to_right(
        &mut self,
        device: &mut DEVICE,
    ) -> (result: Result<BusPlan, CharacterDisplayError>) {
        self.display_mode |= LCD_FLAG_ENTRYLEFT;
        Self::command(device, LCD_CMD_ENTRYMODESET | self.display_mode, 39)
    }

    /// Plans the setting of the text direction to right to left: the left-to-right flag of the
    /// entry mode is cleared.
    fn right_to_left(
        &mut self,
        device: &mut DEVICE,
    ) -> (result: Result<BusPlan, CharacterDisplayError>) {
        self.display_mode &= !LCD_FLAG_ENTRYLEFT;
        Self::command(device, LCD_CMD_ENTRYMODESET | self.display_mode, 39)
    }

    /// Plans the switching on or off of automatic scrolling.
    fn autoscroll(
        &mut self,
        device: &mut DEVICE,
        autoscroll: bool,
    ) -> (result: Result<BusPlan, CharacterDisplayError>) {
        if autoscroll {
            self.display_mode |= LCD_FLAG_ENTRYSHIFTINCREMENT;
        } else {
            self.display_mode &= !LCD_FLAG_ENTRYSHIFTINCREMENT;
        }
        Self::command(device, LCD_CMD_ENTRYMODESET | self.display_mode, 39)
    }

    /// Plans the printing of `text` at the cursor: its bytes in one write, then the wait.
    fn print(&mut self, device: &mut DEVICE, text: &str) -> (result: Result<
        BusPlan,
        CharacterDisplayError,
    >) {
        let mut plan = device.write_bytes(true, text.as_bytes())?;
        plan.delay_us(43);
        Ok(plan)
    }

    /// The controllers that these actions serve have no backlight line: always refused.
    fn backlight(&mut self, device: &mut DEVICE, on: bool) -> (result: Result<
        BusPlan,
        CharacterDisplayError,
    >) {
        Err(CharacterDisplayError::UnsupportedOperation)
    }

    /// Plans the storing of a custom character at one of eight places.
    fn create_char(&mut self, device: &mut DEVICE, location: u8, charmap: [u8; 8]) -> (result:
        Result<BusPlan, CharacterDisplayError>) {
        let command: [u8; 1] = [LCD_CMD_SETCGRAMADDR | ((location & 0x7) << 3)];
        assert(command@ =~= seq![LCD_CMD_SETCGRAMADDR | ((location & 0x7) << 3)]);
        let mut plan = device.write_bytes(false, command.as_slice())?;
        let pattern = device.write_bytes(true, charmap.as_slice())?;
        plan.extend(pattern);
        plan.delay_us(39);
        Ok(plan)
    }

    /// The contrast of these displays is set by a potentiometer, not by command: always
    /// refused.
    fn set_contrast(&mut self, device: &mut DEVICE, contrast: u8) -> (result: Result<
        BusPlan,
        CharacterDisplayError,
    >) {
        Err(CharacterDisplayError::UnsupportedOperation)
    }

    /// The controllers that these actions serve cannot be read: always refused.
    fn read_device_data(&self, device: &mut DEVICE, count: usize) -> (result: Result<
        ReadSession,
        CharacterDisplayError,
    >) {
        Err(CharacterDisplayError::UnsupportedOperation)
    }

    /// The controllers that these actions serve cannot be read: always refused.
    fn read_address_counter(&mut self, device: &mut DEVICE) -> (result: Result<
        ReadSession,
        CharacterDisplayError,
    >) {
        Err(CharacterDisplayError::UnsupportedOperation)
    }
}

} // verus!
