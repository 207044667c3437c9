//! HD44780 controllers behind an I2C port expander.

use vstd::prelude::*;
use core::marker::PhantomData;
use crate::bus::{BusOp, BusPlan};
use crate::driver::hd44780::adapter::{
    after_nibble, byte_ops, lemma_rebase, nibble_signals, released_below, same_carried,
    state_write, HD44780AdapterTrait, HD44780DeviceTrait, PortLayout,
};
use crate::driver::hd44780::read::{ReadSession, ReadState};
use crate::driver::{planned, session_started, DisplayActionsTrait, DisplayOp};
use crate::signal::SignalState;
use crate::{CharacterDisplayError, DeviceSetupConfig, LcdDisplayType};

pub mod adapter;
pub mod read;

verus! {

// commands
/// Clear display, set cursor position to zero.
pub const LCD_CMD_CLEARDISPLAY: u8 = 0x01;

/// Set cursor position to zero.
pub const LCD_CMD_RETURNHOME: u8 = 0x02;

/// Sets the entry mode.
pub const LCD_CMD_ENTRYMODESET: u8 = 0x04;

/// Controls the display: on and off, cursor, blinking.
pub const LCD_CMD_DISPLAYCONTROL: u8 = 0x08;

/// Moves the cursor or shifts the display.
pub const LCD_CMD_CURSORSHIFT: u8 = 0x10;

/// Sets interface width, number of lines and font.
pub const LCD_CMD_FUNCTIONSET: u8 = 0x20;

/// Sets the address in the character generator RAM.
pub const LCD_CMD_SETCGRAMADDR: u8 = 0x40;

/// Sets the address in the display data RAM.
pub const LCD_CMD_SETDDRAMADDR: u8 = 0x80;

// flags for display entry mode
/// Text flows from right to left.
pub const LCD_FLAG_ENTRYRIGHT: u8 = 0x00;

/// Text flows from left to right.
pub const LCD_FLAG_ENTRYLEFT: u8 = 0x02;

/// The display shifts with each character.
pub const LCD_FLAG_ENTRYSHIFTINCREMENT: u8 = 0x01;

/// The display stays where it is.
pub const LCD_FLAG_ENTRYSHIFTDECREMENT: u8 = 0x00;

// flags for display on/off control
/// Turns the display on.
pub const LCD_FLAG_DISPLAYON: u8 = 0x04;

/// Turns the display off.
pub const LCD_FLAG_DISPLAYOFF: u8 = 0x00;

/// Turns the cursor on.
pub const LCD_FLAG_CURSORON: u8 = 0x02;

/// Turns the cursor off.
pub const LCD_FLAG_CURSOROFF: u8 = 0x00;

/// Turns on the blinking cursor.
pub const LCD_FLAG_BLINKON: u8 = 0x01;

/// Turns off the blinking cursor.
pub const LCD_FLAG_BLINKOFF: u8 = 0x00;

// flags for display/cursor shift
/// Shift the display.
pub const LCD_FLAG_DISPLAYMOVE: u8 = 0x08;

/// Move the cursor.
pub const LCD_FLAG_CURSORMOVE: u8 = 0x00;

/// To the right.
pub const LCD_FLAG_MOVERIGHT: u8 = 0x04;

/// To the left.
pub const LCD_FLAG_MOVELEFT: u8 = 0x00;

// flags for function set
/// 8-bit interface.
pub const LCD_FLAG_8BITMODE: u8 = 0x10;

/// 4-bit interface.
pub const LCD_FLAG_4BITMODE: u8 = 0x00;

/// Two display lines.
pub const LCD_FLAG_2LINE: u8 = 0x08;

/// One display line.
pub const LCD_FLAG_1LINE: u8 = 0x00;

/// Font of 5 by 10 dots.
pub const LCD_FLAG_5x10_DOTS: u8 = 0x04;

/// Font of 5 by 8 dots.
pub const LCD_FLAG_5x8_DOTS: u8 = 0x00;

/// The number of HD44780 controllers that one adapter can drive.
pub const MAX_CONTROLLER_COUNT: usize = 2;

/// The display actions of an HD44780 behind the common PCF8574T backpack.
pub type GenericHD44780PCF8574T = HD44780<
    crate::driver::hd44780::adapter::generic_pcf8574t::GenericPCF8574TAdapter,
>;

/// The display actions of an HD44780 behind Adafruit's LCD backpack.
pub type AdafruitLCDBackpack = HD44780<
    crate::driver::hd44780::adapter::adafruit_lcd_backpack::AdafruitLCDBackpackAdapter,
>;

/// The display actions of two HD44780 behind a PCF8574T with two enable lines.
pub type DualHD44780PCF8574T = HD44780<
    crate::driver::hd44780::adapter::dual_controller_pcf8574t::DualHD44780_PCF8574TAdapter,
>;

/// How long a controller needs for most commands, in microseconds.
pub const SETTLE_US: u32 = 39;

/// How long a controller needs to clear the display or to move the cursor home, in
/// microseconds.
pub const SETTLE_HOME_US: u32 = 1530;

/// How long a controller needs to take in one character, in microseconds.
pub const SETTLE_CHAR_US: u32 = 43;

/// `byte` with the bits of `flag` set if `on`, cleared if not.
pub open spec fn with_flag(byte: u8, flag: u8, on: bool) -> u8 {
    if on {
        byte | flag
    } else {
        byte & !flag
    }
}

/// The steps of one command to one controller: its two nibbles, then the wait.
pub open spec fn command_ops<A: PortLayout>(
    address: u8,
    s: SignalState,
    controller: int,
    command: u8,
    settle_us: u32,
) -> Seq<BusOp> {
    byte_ops::<A>(address, s, controller, false, command).push(BusOp::DelayUs(settle_us))
}

/// The steps of a command to each of the controllers `0..count` in that order, controller `c`
/// getting `commands[c]`.
pub open spec fn fan_out<A: PortLayout>(
    address: u8,
    s: SignalState,
    count: nat,
    commands: Seq<u8>,
    settle_us: u32,
) -> Seq<BusOp>
    decreases count,
{
    if count == 0 {
        Seq::empty()
    } else {
        fan_out::<A>(address, s, (count - 1) as nat, commands, settle_us) + command_ops::<A>(
            address,
            released_below(s, count - 1),
            count - 1,
            commands[count - 1],
            settle_us,
        )
    }
}

/// The lines after a command went to each of the controllers `0..count`.
pub open spec fn after_fan_out<A: PortLayout>(
    s: SignalState,
    count: nat,
    commands: Seq<u8>,
) -> SignalState {
    if count == 0 {
        s
    } else {
        released_below(nibble_signals::<A>(s, false, commands[count - 1]), count as int)
    }
}

/// The steps that hand `bytes` to the data register of one controller, `settle` after each.
pub open spec fn data_ops<A: PortLayout>(
    address: u8,
    s: SignalState,
    controller: int,
    bytes: Seq<u8>,
    settle: Seq<BusOp>,
) -> Seq<BusOp>
    decreases bytes.len(),
{
    if bytes.len() == 0 {
        Seq::empty()
    } else {
        data_ops::<A>(address, s, controller, bytes.drop_last(), settle) + byte_ops::<A>(
            address,
            s,
            controller,
            true,
            bytes.last(),
        ) + settle
    }
}

/// The lines after `bytes` went to the data register of one controller.
pub open spec fn after_data<A: PortLayout>(
    s: SignalState,
    controller: int,
    bytes: Seq<u8>,
) -> SignalState {
    if bytes.len() == 0 {
        s
    } else {
        after_nibble::<A>(s, controller, true, bytes.last())
    }
}

/// The byte that stands for a character on the display: the low eight bits of its code.
pub open spec fn char_byte(c: char) -> u8 {
    (c as u32 % 256) as u8
}

/// The bytes that stand for a text on the display, one per character.
pub open spec fn char_bytes(text: Seq<char>) -> Seq<u8> {
    Seq::new(text.len(), |i: int| char_byte(text[i]))
}

/// `bytes` with `change` applied to the entries below `count`.
pub open spec fn changed_below(
    bytes: Seq<u8>,
    count: int,
    change: spec_fn(int, u8) -> u8,
) -> Seq<u8> {
    Seq::new(
        bytes.len(),
        |i: int|
            if i < count {
                change(i, bytes[i])
            } else {
                bytes[i]
            },
    )
}

/// `bytes` with `flag` set if `on`, cleared if not, in the entries below `count`.
pub open spec fn flagged(bytes: Seq<u8>, count: nat, flag: u8, on: bool) -> Seq<u8> {
    changed_below(bytes, count as int, |i: int, b: u8| with_flag(b, flag, on))
}

/// `bytes` with `flag` set in entry `active` if `on`, and cleared in the other entries below
/// `count` and, if not `on`, in entry `active` too.
pub open spec fn flagged_at(bytes: Seq<u8>, count: nat, flag: u8, on: bool, active: usize) -> Seq<
    u8,
> {
    changed_below(bytes, count as int, |i: int, b: u8| with_flag(b, flag, active == i && on))
}

/// `bytes`, each entry with `command` or-ed in.
pub open spec fn commands_of(command: u8, bytes: Seq<u8>) -> Seq<u8> {
    Seq::new(bytes.len(), |i: int| command | bytes[i])
}

/// The command that puts the cursor on column `col` of a controller's row `row`: the
/// set-address command with the cell's address in the display memory.
pub open spec fn cursor_command(lcd_type: LcdDisplayType, col: u8, row: u8) -> u8 {
    LCD_CMD_SETDDRAMADDR | ((col + lcd_type.offsets()[row as int]) as u8)
}

/// The mode bytes of the controllers and the controller that the cursor is on.
pub struct ModeState {
    /// The function-set flags of each controller.
    pub function: Seq<u8>,
    /// The display-control flags of each controller.
    pub control: Seq<u8>,
    /// The entry-mode flags of each controller.
    pub mode: Seq<u8>,
    /// The controller that text goes to.
    pub active: usize,
}

/// The display actions of an HD44780 display with one or two controllers behind an adapter of
/// type `DEVICE`. It remembers the mode bytes of each controller, because the controller's
/// commands set several flags at once, and the controller that the cursor was last put on.
pub struct HD44780<DEVICE: HD44780DeviceTrait> {
    display_function: [u8; MAX_CONTROLLER_COUNT],
    display_control: [u8; MAX_CONTROLLER_COUNT],
    display_mode: [u8; MAX_CONTROLLER_COUNT],
    active_controller: usize,
    _device: PhantomData<DEVICE>,
}

impl<DEVICE: HD44780DeviceTrait> View for HD44780<DEVICE> {
    type V = ModeState;

    closed spec fn view(&self) -> ModeState {
        ModeState {
            function: self.display_function@,
            control: self.display_control@,
            mode: self.display_mode@,
            active: self.active_controller,
        }
    }
}

impl<DEVICE: HD44780DeviceTrait> HD44780<DEVICE> {
    /// The active controller is one that the adapter drives.
    #[verifier::type_invariant]
    spec fn active_in_range(&self) -> bool {
        self.active_controller < DEVICE::controllers()
    }

    /// The controller that text goes to. It is always one that the adapter drives.
    pub fn active_controller(&self) -> (controller: usize)
        ensures
            controller == self@.active,
            controller < DEVICE::controllers(),
            self@.function.len() == MAX_CONTROLLER_COUNT,
            self@.control.len() == MAX_CONTROLLER_COUNT,
            self@.mode.len() == MAX_CONTROLLER_COUNT,
    {
        proof {
            use_type_invariant(&*self);
        }
        self.active_controller
    }

    /// Makes the adapter for the given setup.
    pub fn new_adapter(config: DeviceSetupConfig) -> (device: DEVICE)
        ensures
            device == DEVICE::fresh(config),
            device.setup() == config,
    {
        DEVICE::new(config)
    }

    /// Plans one command for one controller and the wait after it. A controller that the
    /// adapter does not drive is refused before anything is touched.
    fn send_command_to_controller(
        device: &mut DEVICE,
        controller: usize,
        command: u8,
        settle_us: u32,
    ) -> (result: Result<BusPlan, CharacterDisplayError>)
        ensures
            sent::<DEVICE>(*old(device), *final(device), result, controller, command, settle_us),
    {
        if controller >= DEVICE::controller_count() {
            return Err(CharacterDisplayError::BadDeviceId);
        }
        let mut plan = device.write_byte_to_controller(controller, false, command)?;
        plan.delay_us(settle_us);
        Ok(plan)
    }

    /// Plans the clearing of one controller's display.
    pub fn clear_controller(&mut self, device: &mut DEVICE, controller: usize) -> (result: Result<
        BusPlan,
        CharacterDisplayError,
    >)
        ensures
            final(self)@ == old(self)@,
            sent::<DEVICE>(
                *old(device),
                *final(device),
                result,
                controller,
                LCD_CMD_CLEARDISPLAY,
                SETTLE_HOME_US,
            ),
    {
        Self::send_command_to_controller(device, controller, LCD_CMD_CLEARDISPLAY, SETTLE_HOME_US)
    }

    /// Plans the return of the cursor to the home position on one controller.
    pub fn home_controller(&mut self, device: &mut DEVICE, controller: usize) -> (result: Result<
        BusPlan,
        CharacterDisplayError,
    >)
        ensures
            final(self)@ == old(self)@,
            sent::<DEVICE>(
                *old(device),
                *final(device),
                result,
                controller,
                LCD_CMD_RETURNHOME,
                SETTLE_HOME_US,
            ),
    {
        Self::send_command_to_controller(device, controller, LCD_CMD_RETURNHOME, SETTLE_HOME_US)
    }

    /// Plans the showing or hiding of the cursor on one controller.
    pub fn show_cursor_controller(
        &mut self,
        device: &mut DEVICE,
        controller: usize,
        show_cursor: bool,
    ) -> (result: Result<BusPlan, CharacterDisplayError>)
        ensures
            final(self)@ == if controller < DEVICE::controllers() {
                ModeState {
                    control: old(self)@.control.update(
                        controller as int,
                        with_flag(
                            old(self)@.control[controller as int],
                            LCD_FLAG_CURSORON,
                            show_cursor,
                        ),
                    ),
                    ..old(self)@
                }
            } else {
                old(self)@
            },
            sent::<DEVICE>(
                *old(device),
                *final(device),
                result,
                controller,
                LCD_CMD_DISPLAYCONTROL | with_flag(
                    old(self)@.control[controller as int],
                    LCD_FLAG_CURSORON,
                    show_cursor,
                ),
                SETTLE_US,
            ),
    {
        if controller >= DEVICE::controller_count() {
            return Err(CharacterDisplayError::BadDeviceId);
        }
        proof {
            DEVICE::lemma_controllers(0);
            use_type_invariant(&*self);
        }
        if show_cursor {
            self.display_control[controller] |= LCD_FLAG_CURSORON;
        } else {
            self.display_control[controller] &= !LCD_FLAG_CURSORON;
        }
        Self::send_command_to_controller(
            device,
            controller,
            LCD_CMD_DISPLAYCONTROL | self.display_control[controller],
            SETTLE_US,
        )
    }

    /// Plans the blinking or steady cursor on one controller.
    pub fn blink_cursor_controller(
        &mut self,
        device: &mut DEVICE,
        controller: usize,
        blink_cursor: bool,
    ) -> (result: Result<BusPlan, CharacterDisplayError>)
        ensures
            final(self)@ == if controller < DEVICE::controllers() {
                ModeState {
                    control: old(self)@.control.update(
                        controller as int,
                        with_flag(
                            old(self)@.control[controller as int],
                            LCD_FLAG_BLINKON,
                            blink_cursor,
                        ),
                    ),
                    ..old(self)@
                }
            } else {
                old(self)@
            },
            sent::<DEVICE>(
                *old(device),
                *final(device),
                result,
                controller,
                LCD_CMD_DISPLAYCONTROL | with_flag(
                    old(self)@.control[controller as int],
                    LCD_FLAG_BLINKON,
                    blink_cursor,
                ),
                SETTLE_US,
            ),
    {
        if controller >= DEVICE::controller_count() {
            return Err(CharacterDisplayError::BadDeviceId);
        }
        proof {
            DEVICE::lemma_controllers(0);
            use_type_invariant(&*self);
        }
        if blink_cursor {
            self.display_control[controller] |= LCD_FLAG_BLINKON;
        } else {
            self.display_control[controller] &= !LCD_FLAG_BLINKON;
        }
        Self::send_command_to_controller(
            device,
            controller,
            LCD_CMD_DISPLAYCONTROL | self.display_control[controller],
            SETTLE_US,
        )
    }

    /// Plans the switching on or off of one controller's display.
    pub fn show_display_controller(
        &mut self,
        device: &mut DEVICE,
        controller: usize,
        show_display: bool,
    ) -> (result: Result<BusPlan, CharacterDisplayError>)
        ensures
            final(self)@ == if controller < DEVICE::controllers() {
                ModeState {
                    control: old(self)@.control.update(
                        controller as int,
                        with_flag(
                            old(self)@.control[controller as int],
                            LCD_FLAG_DISPLAYON,
                            show_display,
                        ),
                    ),
                    ..old(self)@
                }
            } else {
                old(self)@
            },
            sent::<DEVICE>(
                *old(device),
                *final(device),
                result,
                controller,
                LCD_CMD_DISPLAYCONTROL | with_flag(
                    old(self)@.control[controller as int],
                    LCD_FLAG_DISPLAYON,
                    show_display,
                ),
                SETTLE_US,
            ),
    {
        if controller >= DEVICE::controller_count() {
            return Err(CharacterDisplayError::BadDeviceId);
        }
        proof {
            DEVICE::lemma_controllers(0);
            use_type_invariant(&*self);
        }
        if show_display {
            self.display_control[controller] |= LCD_FLAG_DISPLAYON;
        } else {
            self.display_control[controller] &= !LCD_FLAG_DISPLAYON;
        }
        Self::send_command_to_controller(
            device,
            controller,
            LCD_CMD_DISPLAYCONTROL | self.display_control[controller],
            SETTLE_US,
        )
    }

    /// Plans the switching on or off of one controller's automatic scrolling.
    pub fn autoscroll_controller(
        &mut self,
        device: &mut DEVICE,
        controller: usize,
        autoscroll: bool,
    ) -> (result: Result<BusPlan, CharacterDisplayError>)
        ensures
            final(self)@ == if controller < DEVICE::controllers() {
                ModeState {
                    mode: old(self)@.mode.update(
                        controller as int,
                        with_flag(
                            old(self)@.mode[controller as int],
                            LCD_FLAG_ENTRYSHIFTINCREMENT,
                            autoscroll,
                        ),
                    ),
                    ..old(self)@
                }
            } else {
                old(self)@
            },
            sent::<DEVICE>(
                *old(device),
                *final(device),
                result,
                controller,
                LCD_CMD_ENTRYMODESET | with_flag(
                    old(self)@.mode[controller as int],
                    LCD_FLAG_ENTRYSHIFTINCREMENT,
                    autoscroll,
                ),
                SETTLE_US,
            ),
    {
        if controller >= DEVICE::controller_count() {
            return Err(CharacterDisplayError::BadDeviceId);
        }
        proof {
            DEVICE::lemma_controllers(0);
            use_type_invariant(&*self);
        }
        if autoscroll {
            self.display_mode[controller] |= LCD_FLAG_ENTRYSHIFTINCREMENT;
        } else {
            self.display_mode[controller] &= !LCD_FLAG_ENTRYSHIFTINCREMENT;
        }
        Self::send_command_to_controller(
            device,
            controller,
            LCD_CMD_ENTRYMODESET | self.display_mode[controller],
            SETTLE_US,
        )
    }

    /// Plans the setting of the left-to-right flag in one controller's entry mode.
    pub fn left_to_right_controller(
        &mut self,
        device: &mut DEVICE,
        controller: usize,
    ) -> (result: Result<BusPlan, CharacterDisplayError>)
        ensures
            final(self)@ == if controller < DEVICE::controllers() {
                ModeState {
                    mode: old(self)@.mode.update(
                        controller as int,
                        with_flag(old(self)@.mode[controller as int], LCD_FLAG_ENTRYLEFT, true),
                    ),
                    ..old(self)@
                }
            } else {
                old(self)@
            },
            sent::<DEVICE>(
                *old(device),
                *final(device),
                result,
                controller,
                LCD_CMD_ENTRYMODESET | with_flag(
                    old(self)@.mode[controller as int],
                    LCD_FLAG_ENTRYLEFT,
                    true,
                ),
                SETTLE_US,
            ),
    {
        if controller >= DEVICE::controller_count() {
            return Err(CharacterDisplayError::BadDeviceId);
        }
        proof {
            DEVICE::lemma_controllers(0);
            use_type_invariant(&*self);
        }
        self.display_mode[controller] |= LCD_FLAG_ENTRYLEFT;
        Self::send_command_to_controller(
            device,
            controller,
            LCD_CMD_ENTRYMODESET | self.display_mode[controller],
            SETTLE_US,
        )
    }

    /// Plans the setting of one controller's text direction to right to left: the left-to-right
    /// flag of its entry mode is cleared.
    pub fn right_to_left_controller(
        &mut self,
        device: &mut DEVICE,
        controller: usize,
    ) -> (result: Result<BusPlan, CharacterDisplayError>)
        ensures
            final(self)@ == if controller < DEVICE::controllers() {
                ModeState {
                    mode: old(self)@.mode.update(
                        controller as int,
                        with_flag(old(self)@.mode[controller as int], LCD_FLAG_ENTRYLEFT, false),
                    ),
                    ..old(self)@
                }
            } else {
                old(self)@
            },
            sent::<DEVICE>(
                *old(device),
                *final(device),
                result,
                controller,
                LCD_CMD_ENTRYMODESET | with_flag(
                    old(self)@.mode[controller as int],
                    LCD_FLAG_ENTRYLEFT,
                    false,
                ),
                SETTLE_US,
            ),
    {
        if controller >= DEVICE::controller_count() {
            return Err(CharacterDisplayError::BadDeviceId);
        }
        proof {
            DEVICE::lemma_controllers(0);
            use_type_invariant(&*self);
        }
        self.display_mode[controller] &= !LCD_FLAG_ENTRYLEFT;
        Self::send_command_to_controller(
            device,
            controller,
            LCD_CMD_ENTRYMODESET | self.display_mode[controller],
            SETTLE_US,
        )
    }

    /// Plans the placing of the cursor on one controller, at a column and at one of the
    /// controller's own rows.
    pub fn set_cursor_controller(
        &mut self,
        device: &mut DEVICE,
        controller: usize,
        col: u8,
        row: u8,
    ) -> (result: Result<BusPlan, CharacterDisplayError>)
        ensures
            final(self)@ == old(self)@,
            final(device).device_setup() == old(device).device_setup(),
            row >= old(device).device_setup().lcd_type.row_count() ==> planned(result) == Err::<
                Seq<BusOp>,
                CharacterDisplayError,
            >(CharacterDisplayError::RowOutOfRange) && final(device).signals() == old(
                device,
            ).signals(),
            row < old(device).device_setup().lcd_type.row_count() && col >= old(
                device,
            ).device_setup().lcd_type.col_count() ==> planned(result) == Err::<
                Seq<BusOp>,
                CharacterDisplayError,
            >(CharacterDisplayError::ColumnOutOfRange) && final(device).signals() == old(
                device,
            ).signals(),
            row < old(device).device_setup().lcd_type.row_count() && col < old(
                device,
            ).device_setup().lcd_type.col_count() ==> sent::<DEVICE>(
                *old(device),
                *final(device),
                result,
                controller,
                cursor_command(old(device).device_setup().lcd_type, col, row),
                SETTLE_US,
            ),
    {
        let lcd_type = device.device_config().lcd_type;
        if row >= lcd_type.rows() {
            return Err(CharacterDisplayError::RowOutOfRange);
        }
        if col >= lcd_type.cols() {
            return Err(CharacterDisplayError::ColumnOutOfRange);
        }
        proof {
            lcd_type.lemma_cell_address_fits(col, row);
        }
        let offsets: [u8; 4] = lcd_type.row_offsets();
        Self::send_command_to_controller(
            device,
            controller,
            LCD_CMD_SETDDRAMADDR | (col + offsets[row as usize]),
            SETTLE_US,
        )
    }

    /// Plans the shifting of one controller's display by one column to the left.
    pub fn scroll_display_left_controller(
        &mut self,
        device: &mut DEVICE,
        controller: usize,
    ) -> (result: 
        Result<BusPlan, CharacterDisplayError>)
        ensures
            final(self)@ == old(self)@,
            sent::<DEVICE>(*old(device), *final(device), result, controller, 0x18, SETTLE_US),
    {
        assert(0x10u8 | 0x08u8 | 0x00u8 == 0x18u8) by (bit_vector);
        Self::send_command_to_controller(
            device,
            controller,
            LCD_CMD_CURSORSHIFT | LCD_FLAG_DISPLAYMOVE | LCD_FLAG_MOVELEFT,
            SETTLE_US,
        )
    }

    /// Plans the shifting of one controller's display by one column to the right.
    pub fn scroll_display_right_controller(
        &mut self,
        device: &mut DEVICE,
        controller: usize,
    ) -> (result: 
        Result<BusPlan, CharacterDisplayError>)
        ensures
            final(self)@ == old(self)@,
            sent::<DEVICE>(*old(device), *final(device), result, controller, 0x1c, SETTLE_US),
    {
        assert(0x10u8 | 0x08u8 | 0x04u8 == 0x1cu8) by (bit_vector);
        Self::send_command_to_controller(
            device,
            controller,
            LCD_CMD_CURSORSHIFT | LCD_FLAG_DISPLAYMOVE | LCD_FLAG_MOVERIGHT,
            SETTLE_US,
        )
    }

    /// Plans the transfer of `bytes` to one controller's data register, each byte followed by
    /// a wait of `settle_us` microseconds if that is not zero.
    fn send_data_to_controller(
        device: &mut DEVICE,
        controller: usize,
        bytes: &[u8],
        settle_us: u32,
    ) -> (result: Result<BusPlan, CharacterDisplayError>)
        ensures
            data_sent::<DEVICE>(
                *old(device),
                *final(device),
                result,
                controller,
                bytes@,
                settle_of(settle_us),
            ),
    {
        if controller >= DEVICE::controller_count() {
            return Err(CharacterDisplayError::BadDeviceId);
        }
        let ghost s = device.signals();
        let ghost a = device.device_setup().address;
        let ghost c = controller as int;
        let ghost settle = settle_of(settle_us);
        let mut plan = BusPlan::new();
        let mut i: usize = 0;
        while i < bytes.len()
            invariant
                i <= bytes.len(),
                controller < DEVICE::controllers(),
                c == controller as int,
                settle == settle_of(settle_us),
                device.device_setup() == old(device).device_setup(),
                a == device.device_setup().address,
                same_carried::<DEVICE>(device.signals(), s, c),
                device.signals() == after_data::<DEVICE>(s, c, bytes@.take(i as int)),
                plan@ == data_ops::<DEVICE>(a, s, c, bytes@.take(i as int), settle),
            decreases bytes.len() - i,
        {
            proof {
                lemma_rebase::<DEVICE>(a, device.signals(), s, c, true, bytes[i as int]);
                assert(bytes@.take(i + 1).drop_last() =~= bytes@.take(i as int));
            }
            let part = device.write_byte_to_controller(controller, true, bytes[i])?;
            plan.extend(part);
            if settle_us != 0 {
                plan.delay_us(settle_us);
            }
            assert(plan@ =~= data_ops::<DEVICE>(a, s, c, bytes@.take(i + 1), settle));
            i = i + 1;
        }
        assert(bytes@.take(i as int) =~= bytes@);
        Ok(plan)
    }

    /// Plans the storing of a custom character on one controller: the command that points the
    /// controller at the character's place in its character generator RAM, one of eight, and
    /// the eight rows of the pattern.
    pub fn create_char_controller(
        &mut self,
        device: &mut DEVICE,
        controller: usize,
        location: u8,
        charmap: [u8; 8],
    ) -> (result: Result<BusPlan, CharacterDisplayError>)
        ensures
            final(self)@ == old(self)@,
            final(device).device_setup() == old(device).device_setup(),
            controller >= DEVICE::controllers() ==> planned(result) == Err::<
                Seq<BusOp>,
                CharacterDisplayError,
            >(CharacterDisplayError::BadDeviceId) && final(device).signals() == old(
                device,
            ).signals(),
            controller < DEVICE::controllers() ==> planned(result) == Ok::<
                Seq<BusOp>,
                CharacterDisplayError,
            >(
                create_char_ops::<DEVICE>(
                    old(device).device_setup().address,
                    old(device).signals(),
                    controller as int,
                    location,
                    charmap@,
                ),
            ) && final(device).signals() == after_nibble::<DEVICE>(
                old(device).signals(),
                controller as int,
                true,
                charmap@.last(),
            ),
    {
        let ghost s = device.signals();
        let ghost a = device.device_setup().address;
        let mut plan = Self::send_command_to_controller(
            device,
            controller,
            LCD_CMD_SETCGRAMADDR | ((location & 0x7) << 3),
            SETTLE_US,
        )?;
        proof {
            lemma_same_data::<DEVICE>(
                a,
                device.signals(),
                s,
                controller as int,
                charmap@,
                Seq::empty(),
            );
        }
        let pattern = Self::send_data_to_controller(device, controller, charmap.as_slice(), 0)?;
        plan.extend(pattern);
        Ok(plan)
    }

    /// Plans the printing of `text` on one controller at its cursor: one byte per character,
    /// the low eight bits of the character's code, each followed by its wait.
    pub fn print_controller(
        &mut self,
        device: &mut DEVICE,
        controller: usize,
        text: &str,
    ) -> (result: 
        Result<BusPlan, CharacterDisplayError>)
        ensures
            final(self)@ == old(self)@,
            data_sent::<DEVICE>(
                *old(device),
                *final(device),
                result,
                controller,
                char_bytes(text@),
                settle_of(SETTLE_CHAR_US),
            ),
    {
        let mut bytes: Vec<u8> = Vec::new();
        for c in it: text.chars()
            invariant
                it.seq() == text@,
                bytes@ == char_bytes(text@.take(it.index())),
        {
            let code: u32 = c as u32;
            bytes.push((code % 256) as u8);
            assert(bytes@ =~= char_bytes(text@.take(it.index() + 1)));
        }
        assert(bytes@ =~= char_bytes(text@));
        Self::send_data_to_controller(device, controller, bytes.as_slice(), SETTLE_CHAR_US)
    }
}

/// What it means that `command` was planned for `controller` of `before`, which left the
/// device as `after`: a controller that the adapter does not drive is refused and the device
/// is left alone; else the plan is the command's and the lines are as the command leaves them.
pub open spec fn sent<A: HD44780AdapterTrait>(
    before: A,
    after: A,
    result: Result<BusPlan, CharacterDisplayError>,
    controller: usize,
    command: u8,
    settle_us: u32,
) -> bool {
    &&& after.device_setup() == before.device_setup()
    &&& if controller < A::controllers() {
        &&& planned(result) == Ok::<Seq<BusOp>, CharacterDisplayError>(
            command_ops::<A>(
                before.device_setup().address,
                before.signals(),
                controller as int,
                command,
                settle_us,
            ),
        )
        &&& after.signals() == after_nibble::<A>(
            before.signals(),
            controller as int,
            false,
            command,
        )
    } else {
        &&& planned(result) == Err::<Seq<BusOp>, CharacterDisplayError>(
            CharacterDisplayError::BadDeviceId,
        )
        &&& after.signals() == before.signals()
    }
}

/// What it means that a command was planned for every controller of `before`, controller `c`
/// getting `commands[c]`, which left the device as `after`.
pub open spec fn sent_to_all<A: HD44780AdapterTrait>(
    before: A,
    after: A,
    result: Result<BusPlan, CharacterDisplayError>,
    commands: Seq<u8>,
    settle_us: u32,
) -> bool {
    &&& after.device_setup() == before.device_setup()
    &&& after.signals() == after_fan_out::<A>(before.signals(), A::controllers(), commands)
    &&& planned(result) == Ok::<Seq<BusOp>, CharacterDisplayError>(
        fan_out::<A>(
            before.device_setup().address,
            before.signals(),
            A::controllers(),
            commands,
            settle_us,
        ),
    )
}

/// The wait after a byte: none if `settle_us` is zero.
pub open spec fn settle_of(settle_us: u32) -> Seq<BusOp> {
    if settle_us == 0 {
        Seq::empty()
    } else {
        seq![BusOp::DelayUs(settle_us)]
    }
}

/// The steps that store a custom character on one controller.
pub open spec fn create_char_ops<A: PortLayout>(
    address: u8,
    s: SignalState,
    controller: int,
    location: u8,
    charmap: Seq<u8>,
) -> Seq<BusOp> {
    command_ops::<A>(
        address,
        s,
        controller,
        LCD_CMD_SETCGRAMADDR | ((location & 0x7) << 3),
        SETTLE_US,
    ) + data_ops::<A>(address, s, controller, charmap, Seq::empty())
}

/// What it means that `bytes` were planned for the data register of `controller` of `before`,
/// which left the device as `after`.
pub open spec fn data_sent<A: HD44780AdapterTrait>(
    before: A,
    after: A,
    result: Result<BusPlan, CharacterDisplayError>,
    controller: usize,
    bytes: Seq<u8>,
    settle: Seq<BusOp>,
) -> bool {
    &&& after.device_setup() == before.device_setup()
    &&& if controller < A::controllers() {
        &&& planned(result) == Ok::<Seq<BusOp>, CharacterDisplayError>(
            data_ops::<A>(
                before.device_setup().address,
                before.signals(),
                controller as int,
                bytes,
                settle,
            ),
        )
        &&& after.signals() == after_data::<A>(before.signals(), controller as int, bytes)
    } else {
        &&& planned(result) == Err::<Seq<BusOp>, CharacterDisplayError>(
            CharacterDisplayError::BadDeviceId,
        )
        &&& after.signals() == before.signals()
    }
}

/// Data for a controller looks the same on the port, and leaves the lines the same, from any
/// two states that agree in what a nibble does not set anew.
pub proof fn lemma_same_data<A: PortLayout>(
    address: u8,
    x: SignalState,
    y: SignalState,
    controller: int,
    bytes: Seq<u8>,
    settle: Seq<BusOp>,
)
    requires
        same_carried::<A>(x, y, controller),
    ensures
        data_ops::<A>(address, x, controller, bytes, settle) == data_ops::<A>(
            address,
            y,
            controller,
            bytes,
            settle,
        ),
        bytes.len() > 0 ==> after_data::<A>(x, controller, bytes) == after_data::<A>(
            y,
            controller,
            bytes,
        ),
    decreases bytes.len(),
{
    if bytes.len() > 0 {
        lemma_same_data::<A>(address, x, y, controller, bytes.drop_last(), settle);
        lemma_rebase::<A>(address, x, y, controller, true, bytes.last());
    }
}

/// The steps that store a custom character on each of the controllers `0..count`.
pub open spec fn create_char_all<A: PortLayout>(
    address: u8,
    s: SignalState,
    count: nat,
    location: u8,
    charmap: Seq<u8>,
) -> Seq<BusOp>
    decreases count,
{
    if count == 0 {
        Seq::empty()
    } else {
        create_char_all::<A>(address, s, (count - 1) as nat, location, charmap)
            + create_char_ops::<A>(
                address,
                released_below(s, count - 1),
                count - 1,
                location,
                charmap,
            )
    }
}

/// The lines after a custom character went to each of the controllers `0..count`.
pub open spec fn after_create_char<A: PortLayout>(
    s: SignalState,
    count: nat,
    charmap: Seq<u8>,
) -> SignalState {
    if count == 0 {
        s
    } else {
        released_below(nibble_signals::<A>(s, true, charmap.last()), count as int)
    }
}

/// The same command for either controller.
pub open spec fn both(command: u8) -> Seq<u8> {
    Seq::new(MAX_CONTROLLER_COUNT as nat, |i: int| command)
}

impl<DEVICE: HD44780DeviceTrait> Default for HD44780<DEVICE> {
    /// Display actions that know of no mode byte yet, the first controller active.
    fn default() -> (actions: Self)
        ensures
            actions@ == (ModeState {
                function: both(0),
                control: both(0),
                mode: both(0),
                active: 0,
            }),
    {
        proof {
            DEVICE::lemma_controllers(0);
        }
        let actions = HD44780 {
            display_function: [0;MAX_CONTROLLER_COUNT],
            display_control: [0;MAX_CONTROLLER_COUNT],
            display_mode: [0;MAX_CONTROLLER_COUNT],
            active_controller: 0,
            _device: PhantomData,
        };
        assert(actions@.function =~= both(0));
        assert(actions@.control =~= both(0));
        assert(actions@.mode =~= both(0));
        actions
    }
}

impl<DEVICE: HD44780DeviceTrait> DisplayActionsTrait<DEVICE> for HD44780<
    DEVICE,
> {
    open spec fn records(
        &self,
        before: Self,
        display_function: u8,
        display_control: u8,
        display_mode: u8,
    ) -> bool {
        self@ == (ModeState {
            function: changed_below(
                before@.function,
                DEVICE::controllers() as int,
                |i: int, b: u8| display_function,
            ),
            control: changed_below(
                before@.control,
                DEVICE::controllers() as int,
                |i: int, b: u8| display_control,
            ),
            mode: changed_below(
                before@.mode,
                DEVICE::controllers() as int,
                |i: int, b: u8| display_mode,
            ),
            active: 0,
        })
    }

    /// What each operation comes to, from the mode bytes and active controller `before` and
    /// through the adapter `device`.
    ///
    /// Clear, the scrolls and the operations on a flag go to every controller in ascending
    /// order; an operation on a flag sets or clears it in each controller's mode byte and
    /// sends the command of that byte with the new flags. Of the cursor flags only the active
    /// controller's can be set: the other controllers are told to hide their cursor. Home
    /// goes to the first controller and makes it the active one. The cursor is placed only on
    /// a cell that the panel has, the row being looked at first; the controller that shows
    /// the row becomes the active one and is given the cell's address. A text goes to the
    /// active controller, one byte per character. The backlight is one write of the port. A
    /// custom character goes to every controller. There is no contrast to set.
    open spec fn performs(
        before: Self,
        device: DEVICE,
        op: DisplayOp,
        after: Self,
        device_after: DEVICE,
        result: Result<BusPlan, CharacterDisplayError>,
    ) -> bool {
        let lcd_type = device.device_setup().lcd_type;
        let count = DEVICE::controllers();
        match op {
            DisplayOp::Clear => {
                &&& after@ == before@
                &&& sent_to_all(device, device_after, result, both(LCD_CMD_CLEARDISPLAY), 1530)
            },
            DisplayOp::Home => {
                &&& after@ == (ModeState { active: 0, ..before@ })
                &&& result is Ok
                &&& sent(device, device_after, result, 0, LCD_CMD_RETURNHOME, 1530)
            },
            DisplayOp::SetCursor { col, row } => {
                &&& device_after.device_setup() == device.device_setup()
                &&& if row >= lcd_type.row_count() || col >= lcd_type.col_count() {
                    &&& planned(result) == Err::<Seq<BusOp>, CharacterDisplayError>(
                        if row >= lcd_type.row_count() {
                            CharacterDisplayError::RowOutOfRange
                        } else {
                            CharacterDisplayError::ColumnOutOfRange
                        },
                    )
                    &&& after@ == before@
                    &&& device_after.signals() == device.signals()
                } else {
                    &&& result is Ok
                    &&& after@ == (ModeState { active: DEVICE::controller_row(row).0, ..before@ })
                    &&& sent(
                        device,
                        device_after,
                        result,
                        DEVICE::controller_row(row).0,
                        cursor_command(lcd_type, col, DEVICE::controller_row(row).1),
                        39,
                    )
                }
            },
            DisplayOp::ShowCursor(on) => {
                let control = flagged_at(
                    before@.control,
                    count,
                    LCD_FLAG_CURSORON,
                    on,
                    before@.active,
                );
                &&& after@ == (ModeState { control, ..before@ })
                &&& sent_to_all(
                    device,
                    device_after,
                    result,
                    commands_of(LCD_CMD_DISPLAYCONTROL, control),
                    39,
                )
            },
            DisplayOp::BlinkCursor(on) => {
                let control = flagged_at(
                    before@.control,
                    count,
                    LCD_FLAG_BLINKON,
                    on,
                    before@.active,
                );
                &&& after@ == (ModeState { control, ..before@ })
                &&& sent_to_all(
                    device,
                    device_after,
                    result,
                    commands_of(LCD_CMD_DISPLAYCONTROL, control),
                    39,
                )
            },
            DisplayOp::ShowDisplay(on) => {
                let control = flagged(before@.control, count, LCD_FLAG_DISPLAYON, on);
                &&& after@ == (ModeState { control, ..before@ })
                &&& sent_to_all(
                    device,
                    device_after,
                    result,
                    commands_of(LCD_CMD_DISPLAYCONTROL, control),
                    39,
                )
            },
            DisplayOp::ScrollLeft => {
                &&& after@ == before@
                &&& sent_to_all(device, device_after, result, both(0x18), 39)
            },
            DisplayOp::ScrollRight => {
                &&& after@ == before@
                &&& sent_to_all(device, device_after, result, both(0x1c), 39)
            },
            DisplayOp::LeftToRight => {
                let mode = flagged(before@.mode, count, LCD_FLAG_ENTRYLEFT, true);
                &&& after@ == (ModeState { mode, ..before@ })
                &&& sent_to_all(
                    device,
                    device_after,
                    result,
                    commands_of(LCD_CMD_ENTRYMODESET, mode),
                    39,
                )
            },
            DisplayOp::RightToLeft => {
                let mode = flagged(before@.mode, count, LCD_FLAG_ENTRYLEFT, false);
                &&& after@ == (ModeState { mode, ..before@ })
                &&& sent_to_all(
                    device,
                    device_after,
                    result,
                    commands_of(LCD_CMD_ENTRYMODESET, mode),
                    39,
                )
            },
            DisplayOp::Autoscroll(on) => {
                let mode = flagged(before@.mode, count, LCD_FLAG_ENTRYSHIFTINCREMENT, on);
                &&& after@ == (ModeState { mode, ..before@ })
                &&& sent_to_all(
                    device,
                    device_after,
                    result,
                    commands_of(LCD_CMD_ENTRYMODESET, mode),
                    39,
                )
            },
            DisplayOp::Print { text, bytes } => {
                &&& after@ == before@
                &&& result is Ok
                &&& data_sent(
                    device,
                    device_after,
                    result,
                    before@.active,
                    char_bytes(text),
                    settle_of(43),
                )
            },
            DisplayOp::Backlight(on) => {
                &&& after@ == before@
                &&& device_after.device_setup() == device.device_setup()
                &&& device_after.signals() == (SignalState { backlight: on, ..device.signals() })
                &&& planned(result) == Ok::<Seq<BusOp>, CharacterDisplayError>(
                    seq![
                        state_write::<DEVICE>(
                            device.device_setup().address,
                            device_after.signals(),
                        ),
                    ],
                )
            },
            DisplayOp::CreateChar { location, charmap } => {
                &&& after@ == before@
                &&& device_after.device_setup() == device.device_setup()
                &&& device_after.signals() == after_create_char::<DEVICE>(
                    device.signals(),
                    count,
                    charmap,
                )
                &&& planned(result) == Ok::<Seq<BusOp>, CharacterDisplayError>(
                    create_char_all::<DEVICE>(
                        device.device_setup().address,
                        device.signals(),
                        count,
                        location,
                        charmap,
                    ),
                )
            },
            DisplayOp::SetContrast(_) => {
                &&& after@ == before@
                &&& device_after == device
                &&& planned(result) == Err::<Seq<BusOp>, CharacterDisplayError>(
                    CharacterDisplayError::UnsupportedOperation,
                )
            },
        }
    }

    /// An adapter that cannot read is refused. Else the session is the one that the adapter
    /// starts for the active controller: for display data on its data register, for the
    /// address counter on its instruction register, for one byte, with the busy flag in bit 7
    /// masked off. Nothing changes.
    open spec fn starts_read(
        before: Self,
        device: DEVICE,
        data: bool,
        count: usize,
        after: Self,
        device_after: DEVICE,
        result: Result<ReadSession, CharacterDisplayError>,
    ) -> bool {
        &&& after@ == before@
        &&& device_after.device_setup() == device.device_setup()
        &&& device_after.signals() == device.signals()
        &&& session_started(result) == if !DEVICE::reads_supported() {
            Err(CharacterDisplayError::ReadNotSupported)
        } else {
            match device.read_model(before@.active, data, count) {
                Ok(start) => Ok(
                    if data {
                        start
                    } else {
                        ReadState { mask: 0x7f, ..start }
                    },
                ),
                Err(e) => Err(e),
            }
        }
    }

    /// Records, for every controller that the adapter drives, the mode bytes that the
    /// power-on sequence left it with, and makes the first controller the active one. Mode
    /// bytes of controllers that the adapter does not drive are not touched.
    fn init_display_state(
        &mut self,
        display_function: u8,
        display_control: u8,
        display_mode: u8,
    ) -> (result: Result<(), CharacterDisplayError>) {
        let count: usize = DEVICE::controller_count();
        proof {
            DEVICE::lemma_controllers(0);
            use_type_invariant(&*self);
        }
        let mut controller: usize = 0;
        while controller < count
            invariant
                controller <= count == DEVICE::controllers() <= MAX_CONTROLLER_COUNT,
                self.active_controller < DEVICE::controllers(),
                self@.active == old(self)@.active,
                self@.function == changed_below(
                    old(self)@.function,
                    controller as int,
                    |i: int, b: u8| display_function,
                ),
                self@.control == changed_below(
                    old(self)@.control,
                    controller as int,
                    |i: int, b: u8| display_control,
                ),
                self@.mode == changed_below(
                    old(self)@.mode,
                    controller as int,
                    |i: int, b: u8| display_mode,
                ),
            decreases count - controller,
        {
            self.display_function[controller] = display_function;
            self.display_control[controller] = display_control;
            self.display_mode[controller] = display_mode;
            controller = controller + 1;
            assert(self@.function =~= changed_below(
                old(self)@.function,
                controller as int,
                |i: int, b: u8| display_function,
            ));
            assert(self@.control =~= changed_below(
                old(self)@.control,
                controller as int,
                |i: int, b: u8| display_control,
            ));
            assert(self@.mode =~= changed_below(
                old(self)@.mode,
                controller as int,
                |i: int, b: u8| display_mode,
            ));
        }
        self.active_controller = 0;
        Ok(())
    }

    /// Plans the clearing of the whole display: every controller clears its part.
    fn clear(&mut self, device: &mut DEVICE) -> (result: Result<BusPlan, CharacterDisplayError>) {
        let ghost s = device.signals();
        let ghost a = device.device_setup().address;
        let ghost commands = both(LCD_CMD_CLEARDISPLAY);
        let count: usize = DEVICE::controller_count();
        proof {
            DEVICE::lemma_controllers(0);
        }
        let mut plan = BusPlan::new();
        let mut controller: usize = 0;
        while controller < count
            invariant
                controller <= count == DEVICE::controllers() <= MAX_CONTROLLER_COUNT,
                commands == both(LCD_CMD_CLEARDISPLAY),
                commands.len() == MAX_CONTROLLER_COUNT,
                device.device_setup() == old(device).device_setup(),
                a == device.device_setup().address,
                device.signals() == after_fan_out::<DEVICE>(s, controller as nat, commands),
                plan@ == fan_out::<DEVICE>(a, s, controller as nat, commands, SETTLE_HOME_US),
                self@ == old(self)@,
            decreases count - controller,
        {
            proof {
                lemma_rebase::<DEVICE>(
                    a,
                    device.signals(),
                    released_below(s, controller as int),
                    controller as int,
                    false,
                    commands[controller as int],
                );
            }
            let part = self.clear_controller(device, controller)?;
            plan.extend(part);
            controller = controller + 1;
        }
        Ok(plan)
    }

    /// Plans the shifting of the whole display by one column to the left.
    fn scroll_left(
        &mut self,
        device: &mut DEVICE,
    ) -> (result: Result<BusPlan, CharacterDisplayError>) {
        let ghost s = device.signals();
        let ghost a = device.device_setup().address;
        let ghost commands = both(0x18);
        let count: usize = DEVICE::controller_count();
        proof {
            DEVICE::lemma_controllers(0);
        }
        let mut plan = BusPlan::new();
        let mut controller: usize = 0;
        while controller < count
            invariant
                controller <= count == DEVICE::controllers() <= MAX_CONTROLLER_COUNT,
                commands == both(0x18),
                commands.len() == MAX_CONTROLLER_COUNT,
                device.device_setup() == old(device).device_setup(),
                a == device.device_setup().address,
                device.signals() == after_fan_out::<DEVICE>(s, controller as nat, commands),
                plan@ == fan_out::<DEVICE>(a, s, controller as nat, commands, SETTLE_US),
                self@ == old(self)@,
            decreases count - controller,
        {
            proof {
                lemma_rebase::<DEVICE>(
                    a,
                    device.signals(),
                    released_below(s, controller as int),
                    controller as int,
                    false,
                    commands[controller as int],
                );
            }
            let part = self.scroll_display_left_controller(device, controller)?;
            plan.extend(part);
            controller = controller + 1;
        }
        Ok(plan)
    }

    /// Plans the shifting of the whole display by one column to the right.
    fn scroll_right(
        &mut self,
        device: &mut DEVICE,
    ) -> (result: Result<BusPlan, CharacterDisplayError>) {
        let ghost s = device.signals();
        let ghost a = device.device_setup().address;
        let ghost commands = both(0x1c);
        let count: usize = DEVICE::controller_count();
        proof {
            DEVICE::lemma_controllers(0);
        }
        let mut plan = BusPlan::new();
        let mut controller: usize = 0;
        while controller < count
            invariant
                controller <= count == DEVICE::controllers() <= MAX_CONTROLLER_COUNT,
                commands == both(0x1c),
                commands.len() == MAX_CONTROLLER_COUNT,
                device.device_setup() == old(device).device_setup(),
                a == device.device_setup().address,
                device.signals() == after_fan_out::<DEVICE>(s, controller as nat, commands),
                plan@ == fan_out::<DEVICE>(a, s, controller as nat, commands, SETTLE_US),
                self@ == old(self)@,
            decreases count - controller,
        {
            proof {
                lemma_rebase::<DEVICE>(
                    a,
                    device.signals(),
                    released_below(s, controller as int),
                    controller as int,
                    false,
                    commands[controller as int],
                );
            }
            let part = self.scroll_display_right_controller(device, controller)?;
            plan.extend(part);
            controller = controller + 1;
        }
        Ok(plan)
    }

    /// Plans the showing or hiding of the cursor. Only the active controller shows a cursor:
    /// every other controller is told to hide its own.
    fn show_cursor(&mut self, device: &mut DEVICE, show_cursor: bool) -> (result: Result<
        BusPlan,
        CharacterDisplayError,
    >) {
        let ghost s = device.signals();
        let ghost a = device.device_setup().address;
        let ghost active = self@.active;
        let ghost target = flagged_at(
            old(self)@.control,
            DEVICE::controllers(),
            LCD_FLAG_CURSORON,
            show_cursor,
            active,
        );
        let ghost commands = commands_of(LCD_CMD_DISPLAYCONTROL, target);
        let count: usize = DEVICE::controller_count();
        proof {
            DEVICE::lemma_controllers(0);
            use_type_invariant(&*self);
            assert(self@.control =~= flagged_at(
                old(self)@.control,
                0,
                LCD_FLAG_CURSORON,
                show_cursor,
                active,
            ));
        }
        let mut plan = BusPlan::new();
        let mut controller: usize = 0;
        while controller < count
            invariant
                controller <= count == DEVICE::controllers() <= MAX_CONTROLLER_COUNT,
                commands == commands_of(LCD_CMD_DISPLAYCONTROL, target),
                commands.len() == MAX_CONTROLLER_COUNT,
                device.device_setup() == old(device).device_setup(),
                a == device.device_setup().address,
                device.signals() == after_fan_out::<DEVICE>(s, controller as nat, commands),
                plan@ == fan_out::<DEVICE>(a, s, controller as nat, commands, SETTLE_US),
                target == flagged_at(
                    old(self)@.control,
                    DEVICE::controllers(),
                    LCD_FLAG_CURSORON,
                    show_cursor,
                    active,
                ),
                active == old(self)@.active,
                old(self)@.control.len() == MAX_CONTROLLER_COUNT,
                self@ == (ModeState {
                    control: flagged_at(
                        old(self)@.control,
                        controller as nat,
                        LCD_FLAG_CURSORON,
                        show_cursor,
                        active,
                    ),
                    ..old(self)@
                }),
            decreases count - controller,
        {
            proof {
                lemma_rebase::<DEVICE>(
                    a,
                    device.signals(),
                    released_below(s, controller as int),
                    controller as int,
                    false,
                    commands[controller as int],
                );
            }
            let local: bool = controller == self.active_controller && show_cursor;
            let part = self.show_cursor_controller(device, controller, local)?;
            plan.extend(part);
            assert(self@.control =~= flagged_at(
                old(self)@.control,
                (controller + 1) as nat,
                LCD_FLAG_CURSORON,
                show_cursor,
                active,
            ));
            controller = controller + 1;
        }
        Ok(plan)
    }

    /// Plans the blinking or steady cursor. Only the active controller's cursor blinks: every
    /// other controller is told to keep its own steady.
    fn blink_cursor(&mut self, device: &mut DEVICE, blink_cursor: bool) -> (result: Result<
        BusPlan,
        CharacterDisplayError,
    >) {
        let ghost s = device.signals();
        let ghost a = device.device_setup().address;
        let ghost active = self@.active;
        let ghost target = flagged_at(
            old(self)@.control,
            DEVICE::controllers(),
            LCD_FLAG_BLINKON,
            blink_cursor,
            active,
        );
        let ghost commands = commands_of(LCD_CMD_DISPLAYCONTROL, target);
        let count: usize = DEVICE::controller_count();
        proof {
            DEVICE::lemma_controllers(0);
            use_type_invariant(&*self);
            assert(self@.control =~= flagged_at(
                old(self)@.control,
                0,
                LCD_FLAG_BLINKON,
                blink_cursor,
                active,
            ));
        }
        let mut plan = BusPlan::new();
        let mut controller: usize = 0;
        while controller < count
            invariant
                controller <= count == DEVICE::controllers() <= MAX_CONTROLLER_COUNT,
                commands == commands_of(LCD_CMD_DISPLAYCONTROL, target),
                commands.len() == MAX_CONTROLLER_COUNT,
                device.device_setup() == old(device).device_setup(),
                a == device.device_setup().address,
                device.signals() == after_fan_out::<DEVICE>(s, controller as nat, commands),
                plan@ == fan_out::<DEVICE>(a, s, controller as nat, commands, SETTLE_US),
                target == flagged_at(
                    old(self)@.control,
                    DEVICE::controllers(),
                    LCD_FLAG_BLINKON,
                    blink_cursor,
                    active,
                ),
                active == old(self)@.active,
                old(self)@.control.len() == MAX_CONTROLLER_COUNT,
                self@ == (ModeState {
                    control: flagged_at(
                        old(self)@.control,
                        controller as nat,
                        LCD_FLAG_BLINKON,
                        blink_cursor,
                        active,
                    ),
                    ..old(self)@
                }),
            decreases count - controller,
        {
            proof {
                lemma_rebase::<DEVICE>(
                    a,
                    device.signals(),
                    released_below(s, controller as int),
                    controller as int,
                    false,
                    commands[controller as int],
                );
            }
            let local: bool = controller == self.active_controller && blink_cursor;
            let part = self.blink_cursor_controller(device, controller, local)?;
            plan.extend(part);
            assert(self@.control =~= flagged_at(
                old(self)@.control,
                (controller + 1) as nat,
                LCD_FLAG_BLINKON,
                blink_cursor,
                active,
            ));
            controller = controller + 1;
        }
        Ok(plan)
    }

    /// Plans the switching on or off of the whole display.
    fn show_display(&mut self, device: &mut DEVICE, show_display: bool) -> (result: Result<
        BusPlan,
        CharacterDisplayError,
    >) {
        let ghost s = device.signals();
        let ghost a = device.device_setup().address;
        let ghost active = self@.active;
        let ghost target = flagged(
            old(self)@.control,
            DEVICE::controllers(),
            LCD_FLAG_DISPLAYON,
            show_display,
        );
        let ghost commands = commands_of(LCD_CMD_DISPLAYCONTROL, target);
        let count: usize = DEVICE::controller_count();
        proof {
            DEVICE::lemma_controllers(0);
            use_type_invariant(&*self);
            assert(self@.control =~= flagged(
                old(self)@.control,
                0,
                LCD_FLAG_DISPLAYON,
                show_display,
            ));
        }
        let mut plan = BusPlan::new();
        let mut controller: usize = 0;
        while controller < count
            invariant
                controller <= count == DEVICE::controllers() <= MAX_CONTROLLER_COUNT,
                commands == commands_of(LCD_CMD_DISPLAYCONTROL, target),
                commands.len() == MAX_CONTROLLER_COUNT,
                device.device_setup() == old(device).device_setup(),
                a == device.device_setup().address,
                device.signals() == after_fan_out::<DEVICE>(s, controller as nat, commands),
                plan@ == fan_out::<DEVICE>(a, s, controller as nat, commands, SETTLE_US),
                target == flagged(
                    old(self)@.control,
                    DEVICE::controllers(),
                    LCD_FLAG_DISPLAYON,
                    show_display,
                ),
                active == old(self)@.active,
                old(self)@.control.len() == MAX_CONTROLLER_COUNT,
                self@ == (ModeState {
                    control: flagged(
                        old(self)@.control,
                        controller as nat,
                        LCD_FLAG_DISPLAYON,
                        show_display,
                    ),
                    ..old(self)@
                }),
            decreases count - controller,
        {
            proof {
                lemma_rebase::<DEVICE>(
                    a,
                    device.signals(),
                    released_below(s, controller as int),
                    controller as int,
                    false,
                    commands[controller as int],
                );
            }
            let part = self.show_display_controller(device, controller, show_display)?;
            plan.extend(part);
            assert(self@.control =~= flagged(
                old(self)@.control,
                (controller + 1) as nat,
                LCD_FLAG_DISPLAYON,
                show_display,
            ));
            controller = controller + 1;
        }
        Ok(plan)
    }

    /// Plans the setting of the text direction to left to right on every controller.
    fn left_to_right(&mut self, device: &mut DEVICE) -> (result: Result<
        BusPlan,
        CharacterDisplayError,
    >) {
        let ghost s = device.signals();
        let ghost a = device.device_setup().address;
        let ghost active = self@.active;
        let ghost target = flagged(
            old(self)@.mode,
            DEVICE::controllers(),
            LCD_FLAG_ENTRYLEFT,
            true,
        );
        let ghost commands = commands_of(LCD_CMD_ENTRYMODESET, target);
        let count: usize = DEVICE::controller_count();
        proof {
            DEVICE::lemma_controllers(0);
            use_type_invariant(&*self);
            assert(self@.mode =~= flagged(old(self)@.mode, 0, LCD_FLAG_ENTRYLEFT, true));
        }
        let mut plan = BusPlan::new();
        let mut controller: usize = 0;
        while controller < count
            invariant
                controller <= count == DEVICE::controllers() <= MAX_CONTROLLER_COUNT,
                commands == commands_of(LCD_CMD_ENTRYMODESET, target),
                commands.len() == MAX_CONTROLLER_COUNT,
                device.device_setup() == old(device).device_setup(),
                a == device.device_setup().address,
                device.signals() == after_fan_out::<DEVICE>(s, controller as nat, commands),
                plan@ == fan_out::<DEVICE>(a, s, controller as nat, commands, SETTLE_US),
                target == flagged(old(self)@.mode, DEVICE::controllers(), LCD_FLAG_ENTRYLEFT, true),
                active == old(self)@.active,
                old(self)@.mode.len() == MAX_CONTROLLER_COUNT,
                self@ == (ModeState {
                    mode: flagged(old(self)@.mode, controller as nat, LCD_FLAG_ENTRYLEFT, true),
                    ..old(self)@
                }),
            decreases count - controller,
        {
            proof {
                lemma_rebase::<DEVICE>(
                    a,
                    device.signals(),
                    released_below(s, controller as int),
                    controller as int,
                    false,
                    commands[controller as int],
                );
            }
            let part = self.left_to_right_controller(device, controller)?;
            plan.extend(part);
            assert(self@.mode =~= flagged(
                old(self)@.mode,
                (controller + 1) as nat,
                LCD_FLAG_ENTRYLEFT,
                true,
            ));
            controller = controller + 1;
        }
        Ok(plan)
    }

    /// Plans the setting of the text direction to right to left on every controller: the
    /// left-to-right flag of each entry mode is cleared.
    fn right_to_left(&mut self, device: &mut DEVICE) -> (result: Result<
        BusPlan,
        CharacterDisplayError,
    >) {
        let ghost s = device.signals();
        let ghost a = device.device_setup().address;
        let ghost active = self@.active;
        let ghost target = flagged(
            old(self)@.mode,
            DEVICE::controllers(),
            LCD_FLAG_ENTRYLEFT,
            false,
        );
        let ghost commands = commands_of(LCD_CMD_ENTRYMODESET, target);
        let count: usize = DEVICE::controller_count();
        proof {
            DEVICE::lemma_controllers(0);
            use_type_invariant(&*self);
            assert(self@.mode =~= flagged(old(self)@.mode, 0, LCD_FLAG_ENTRYLEFT, false));
        }
        let mut plan = BusPlan::new();
        let mut controller: usize = 0;
        while controller < count
            invariant
                controller <= count == DEVICE::controllers() <= MAX_CONTROLLER_COUNT,
                commands == commands_of(LCD_CMD_ENTRYMODESET, target),
                commands.len() == MAX_CONTROLLER_COUNT,
                device.device_setup() == old(device).device_setup(),
                a == device.device_setup().address,
                device.signals() == after_fan_out::<DEVICE>(s, controller as nat, commands),
                plan@ == fan_out::<DEVICE>(a, s, controller as nat, commands, SETTLE_US),
                target == flagged(
                    old(self)@.mode,
                    DEVICE::controllers(),
                    LCD_FLAG_ENTRYLEFT,
                    false,
                ),
                active == old(self)@.active,
                old(self)@.mode.len() == MAX_CONTROLLER_COUNT,
                self@ == (ModeState {
                    mode: flagged(old(self)@.mode, controller as nat, LCD_FLAG_ENTRYLEFT, false),
                    ..old(self)@
                }),
            decreases count - controller,
        {
            proof {
                lemma_rebase::<DEVICE>(
                    a,
                    device.signals(),
                    released_below(s, controller as int),
                    controller as int,
                    false,
                    commands[controller as int],
                );
            }
            let part = self.right_to_left_controller(device, controller)?;
            plan.extend(part);
            assert(self@.mode =~= flagged(
                old(self)@.mode,
                (controller + 1) as nat,
                LCD_FLAG_ENTRYLEFT,
                false,
            ));
            controller = controller + 1;
        }
        Ok(plan)
    }

    /// Plans the switching on or off of automatic scrolling on every controller.
    fn autoscroll(&mut self, device: &mut DEVICE, autoscroll: bool) -> (result: Result<
        BusPlan,
        CharacterDisplayError,
    >) {
        let ghost s = device.signals();
        let ghost a = device.device_setup().address;
        let ghost active = self@.active;
        let ghost target = flagged(
            old(self)@.mode,
            DEVICE::controllers(),
            LCD_FLAG_ENTRYSHIFTINCREMENT,
            autoscroll,
        );
        let ghost commands = commands_of(LCD_CMD_ENTRYMODESET, target);
        let count: usize = DEVICE::controller_count();
        proof {
            DEVICE::lemma_controllers(0);
            use_type_invariant(&*self);
            assert(self@.mode =~= flagged(
                old(self)@.mode,
                0,
                LCD_FLAG_ENTRYSHIFTINCREMENT,
                autoscroll,
            ));
        }
        let mut plan = BusPlan::new();
        let mut controller: usize = 0;
        while controller < count
            invariant
                controller <= count == DEVICE::controllers() <= MAX_CONTROLLER_COUNT,
                commands == commands_of(LCD_CMD_ENTRYMODESET, target),
                commands.len() == MAX_CONTROLLER_COUNT,
                device.device_setup() == old(device).device_setup(),
                a == device.device_setup().address,
                device.signals() == after_fan_out::<DEVICE>(s, controller as nat, commands),
                plan@ == fan_out::<DEVICE>(a, s, controller as nat, commands, SETTLE_US),
                target == flagged(
                    old(self)@.mode,
                    DEVICE::controllers(),
                    LCD_FLAG_ENTRYSHIFTINCREMENT,
                    autoscroll,
                ),
                active == old(self)@.active,
                old(self)@.mode.len() == MAX_CONTROLLER_COUNT,
                self@ == (ModeState {
                    mode: flagged(
                        old(self)@.mode,
                        controller as nat,
                        LCD_FLAG_ENTRYSHIFTINCREMENT,
                        autoscroll,
                    ),
                    ..old(self)@
                }),
            decreases count - controller,
        {
            proof {
                lemma_rebase::<DEVICE>(
                    a,
                    device.signals(),
                    released_below(s, controller as int),
                    controller as int,
                    false,
                    commands[controller as int],
                );
            }
            let part = self.autoscroll_controller(device, controller, autoscroll)?;
            plan.extend(part);
            assert(self@.mode =~= flagged(
                old(self)@.mode,
                (controller + 1) as nat,
                LCD_FLAG_ENTRYSHIFTINCREMENT,
                autoscroll,
            ));
            controller = controller + 1;
        }
        Ok(plan)
    }

    /// Plans the return of the cursor to the home position: the first controller moves its
    /// cursor home and becomes the active one.
    fn home(&mut self, device: &mut DEVICE) -> (result: Result<BusPlan, CharacterDisplayError>) {
        proof {
            DEVICE::lemma_controllers(0);
            use_type_invariant(&*self);
        }
        let plan = self.home_controller(device, 0)?;
        self.active_controller = 0;
        Ok(plan)
    }

    /// Plans the placing of the cursor at a column and row of the panel, both counted from
    /// zero. A row or column that the panel does not have is refused before anything is
    /// touched, the row first. Else the controller that shows the row becomes the active one
    /// and is given the address of the cell.
    fn set_cursor(&mut self, device: &mut DEVICE, col: u8, row: u8) -> (result: Result<
        BusPlan,
        CharacterDisplayError,
    >) {
        let lcd_type = device.device_config().lcd_type;
        if row >= lcd_type.rows() {
            return Err(CharacterDisplayError::RowOutOfRange);
        }
        if col >= lcd_type.cols() {
            return Err(CharacterDisplayError::ColumnOutOfRange);
        }
        proof {
            DEVICE::lemma_controllers(row);
            use_type_invariant(&*self);
        }
        let (controller, controller_row) = device.row_to_controller_row(row);
        self.active_controller = controller;
        self.set_cursor_controller(device, controller, col, controller_row)
    }

    /// Plans the printing of `text` at the cursor of the active controller.
    fn print(&mut self, device: &mut DEVICE, text: &str) -> (result: Result<
        BusPlan,
        CharacterDisplayError,
    >) {
        let controller: usize = self.active_controller();
        self.print_controller(device, controller, text)
    }

    /// Plans the switching on or off of the backlight: one write of the port, whichever
    /// controller is active.
    fn backlight(&mut self, device: &mut DEVICE, on: bool) -> (result: Result<
        BusPlan,
        CharacterDisplayError,
    >) {
        device.set_backlight(on)
    }

    /// Plans the storing of a custom character at one of eight places, on every controller.
    fn create_char(&mut self, device: &mut DEVICE, location: u8, charmap: [u8; 8]) -> (result:
        Result<BusPlan, CharacterDisplayError>) {
        let ghost s = device.signals();
        let ghost a = device.device_setup().address;
        let count: usize = DEVICE::controller_count();
        proof {
            DEVICE::lemma_controllers(0);
        }
        let mut plan = BusPlan::new();
        let mut controller: usize = 0;
        while controller < count
            invariant
                controller <= count == DEVICE::controllers() <= MAX_CONTROLLER_COUNT,
                self@ == old(self)@,
                device.device_setup() == old(device).device_setup(),
                a == device.device_setup().address,
                device.signals() == after_create_char::<DEVICE>(s, controller as nat, charmap@),
                plan@ == create_char_all::<DEVICE>(a, s, controller as nat, location, charmap@),
            decreases count - controller,
        {
            proof {
                lemma_rebase::<DEVICE>(
                    a,
                    device.signals(),
                    released_below(s, controller as int),
                    controller as int,
                    false,
                    LCD_CMD_SETCGRAMADDR | ((location & 0x7) << 3),
                );
                lemma_same_data::<DEVICE>(
                    a,
                    device.signals(),
                    released_below(s, controller as int),
                    controller as int,
                    charmap@,
                    Seq::empty(),
                );
                lemma_rebase::<DEVICE>(
                    a,
                    device.signals(),
                    released_below(s, controller as int),
                    controller as int,
                    true,
                    charmap@.last(),
                );
            }
            let part = self.create_char_controller(device, controller, location, charmap)?;
            plan.extend(part);
            controller = controller + 1;
        }
        Ok(plan)
    }

    /// The contrast of these displays is set by a potentiometer, not by command: always
    /// refused.
    fn set_contrast(&mut self, device: &mut DEVICE, contrast: u8) -> (result: Result<
        BusPlan,
        CharacterDisplayError,
    >) {
        Err(CharacterDisplayError::UnsupportedOperation)
    }

    /// Starts a read of `count` bytes from the display memory of the active controller, at its
    /// cursor. An adapter that cannot read is refused.
    fn read_device_data(&self, device: &mut DEVICE, count: usize) -> (result: Result<
        ReadSession,
        CharacterDisplayError,
    >) {
        if !DEVICE::supports_reads() {
            return Err(CharacterDisplayError::ReadNotSupported);
        }
        device.read_bytes_from_controller(self.active_controller, true, count)
    }

    /// Starts a read of the address counter of the active controller. The session delivers
    /// one byte, the busy flag in its bit 7 masked off. An adapter that cannot read is
    /// refused.
    fn read_address_counter(&mut self, device: &mut DEVICE) -> (result: Result<
        ReadSession,
        CharacterDisplayError,
    >) {
        if !DEVICE::supports_reads() {
            return Err(CharacterDisplayError::ReadNotSupported);
        }
        let session = device.read_bytes_from_controller(self.active_controller, false, 1)?;
        // Bit 7 of what comes back is the busy flag.
        Ok(session.with_mask(0x7F))
    }
}

} // verus!
