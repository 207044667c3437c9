//! The two halves of a display driver: the device, which knows how bytes reach the controller,
//! and the display actions, which know what bytes a command is made of.

use vstd::prelude::*;
use vstd::string::StringSliceAdditionalSpecFns;
use crate::bus::{BusOp, BusPlan};
use crate::driver::hd44780::read::{ReadSession, ReadState};
use crate::{CharacterDisplayError, DeviceSetupConfig, LcdDisplayType};

pub mod hd44780;
pub mod aip31068;
pub mod st7032i;
pub mod standard;

verus! {

/// A plan, or the error in its place, as a mathematical value.
pub open spec fn planned(result: Result<BusPlan, CharacterDisplayError>) -> Result<
    Seq<BusOp>,
    CharacterDisplayError,
> {
    match result {
        Ok(plan) => Ok(plan@),
        Err(e) => Err(e),
    }
}

/// A display operation, as a mathematical value.
pub enum DisplayOp {
    /// Clear the display.
    Clear,
    /// Set the cursor to the home position.
    Home,
    /// Set the cursor position at a column and row.
    SetCursor { col: u8, row: u8 },
    /// Set the cursor visibility.
    ShowCursor(bool),
    /// Set the cursor blinking.
    BlinkCursor(bool),
    /// Set the display visibility.
    ShowDisplay(bool),
    /// Scroll the display to the left.
    ScrollLeft,
    /// Scroll the display to the right.
    ScrollRight,
    /// Set the text flow direction to left to right.
    LeftToRight,
    /// Set the text flow direction to right to left.
    RightToLeft,
    /// Set the auto scroll mode.
    Autoscroll(bool),
    /// Print a text, given by its characters and by its bytes.
    Print { text: Seq<char>, bytes: Seq<u8> },
    /// Turn the backlight on or off.
    Backlight(bool),
    /// Store a custom character.
    CreateChar { location: u8, charmap: Seq<u8> },
    /// Set the contrast.
    SetContrast(u8),
}

/// A read session, or the error in its place, as a mathematical value.
pub open spec fn session_started(result: Result<ReadSession, CharacterDisplayError>) -> Result<
    ReadState,
    CharacterDisplayError,
> {
    match result {
        Ok(session) => Ok(session@),
        Err(e) => Err(e),
    }
}

/// The hardware side of a display: a controller with an I2C interface of its own, or an I2C
/// adapter in front of a controller with a parallel interface.
pub trait DeviceHardwareTrait: Sized {
    /// What the device was set up with.
    spec fn setup(&self) -> DeviceSetupConfig;

    /// The device as `new` makes it for the given panel and address.
    spec fn fresh(config: DeviceSetupConfig) -> Self;

    /// The bus address that the hardware answers at unless it is strapped otherwise.
    spec fn default_address() -> u8;

    /// Whether the hardware can read back from the controller.
    spec fn reads_supported() -> bool;

    /// What `write_bytes` hands back for this device, register and payload.
    spec fn write_bytes_model(&self, rs_setting: bool, data: Seq<u8>) -> Result<
        Seq<BusOp>,
        CharacterDisplayError,
    >;

    /// A device for the given panel and address.
    fn new(config: DeviceSetupConfig) -> (device: Self)
        ensures
            device == Self::fresh(config),
            device.setup() == config,
    ;

    /// Returns the default I2C address for the device.
    fn default_i2c_address() -> (address: u8)
        ensures
            address == Self::default_address(),
    ;

    /// Returns whether reads are supported by the device.
    fn supports_reads() -> (supported: bool)
        ensures
            supported == Self::reads_supported(),
    ;

    /// Returns the LCD type.
    fn lcd_type(&self) -> (lcd_type: LcdDisplayType)
        ensures
            lcd_type == self.setup().lcd_type,
    ;

    /// Returns the configured I2C address.
    fn i2c_address(&self) -> (address: u8)
        ensures
            address == self.setup().address,
    ;

    /// Whether `after` and `result` are what `init` makes of the device `before`.
    spec fn initialized(
        before: Self,
        after: Self,
        result: Result<((u8, u8, u8), BusPlan), CharacterDisplayError>,
    ) -> bool;

    /// Plans the power-on sequence of the hardware. On `Ok`, returns the mode bytes that the
    /// controller is left with, as (function, control, entry mode), and the plan.
    fn init(&mut self) -> (result: Result<((u8, u8, u8), BusPlan), CharacterDisplayError>)
        ensures
            final(self).setup() == old(self).setup(),
            Self::initialized(*old(self), *final(self), result),
    ;

    /// Plans the transfer of `data` to the controller's data register (`rs_setting` true) or
    /// instruction register (`rs_setting` false) as one framed write.
    fn write_bytes(&mut self, rs_setting: bool, data: &[u8]) -> (result: Result<
        BusPlan,
        CharacterDisplayError,
    >)
        ensures
            final(self).setup() == old(self).setup(),
            planned(result) == old(self).write_bytes_model(rs_setting, data@),
            forall|rs: bool, bytes: Seq<u8>| #[trigger]
                final(self).write_bytes_model(rs, bytes) == old(self).write_bytes_model(rs, bytes),
    ;
}

/// The command side of a display: it keeps the controller's mode bytes and turns each display
/// operation into the bytes to send through a device.
pub trait DisplayActionsTrait<DEVICE: DeviceHardwareTrait>: Sized {
    /// Whether `self` is `before` with the given mode bytes recorded for every controller that
    /// the display has, and nothing else changed but that the first controller is the active
    /// one.
    spec fn records(
        &self,
        before: Self,
        display_function: u8,
        display_control: u8,
        display_mode: u8,
    ) -> bool;

    /// Whether `after`, `device_after` and `result` are what the operation `op` makes of the
    /// display actions `before` and of `device`.
    spec fn performs(
        before: Self,
        device: DEVICE,
        op: DisplayOp,
        after: Self,
        device_after: DEVICE,
        result: Result<BusPlan, CharacterDisplayError>,
    ) -> bool;

    /// Whether `after`, `device_after` and `result` are what the start of a read of `count`
    /// bytes makes of the display actions `before` and of `device`: a read of display data if
    /// `data`, else of the address counter.
    spec fn starts_read(
        before: Self,
        device: DEVICE,
        data: bool,
        count: usize,
        after: Self,
        device_after: DEVICE,
        result: Result<ReadSession, CharacterDisplayError>,
    ) -> bool;

    /// Records the mode bytes that the device's power-on sequence left the controller with.
    /// This always succeeds.
    fn init_display_state(
        &mut self,
        display_function: u8,
        display_control: u8,
        display_mode: u8,
    ) -> (result: Result<(), CharacterDisplayError>)
        ensures
            result == Ok::<(), CharacterDisplayError>(()),
            final(self).records(*old(self), display_function, display_control, display_mode),
    ;

    /// Clear the display.
    fn clear(&mut self, device: &mut DEVICE) -> (result: Result<BusPlan, CharacterDisplayError>)
        ensures
            Self::performs(
                *old(self),
                *old(device),
                DisplayOp::Clear,
                *final(self),
                *final(device),
                result,
            ),
    ;

    /// Set the cursor to the home position.
    fn home(&mut self, device: &mut DEVICE) -> (result: Result<BusPlan, CharacterDisplayError>)
        ensures
            Self::performs(
                *old(self),
                *old(device),
                DisplayOp::Home,
                *final(self),
                *final(device),
                result,
            ),
    ;

    /// Set the cursor position at specified column and row. Columns and rows are zero-indexed.
    fn set_cursor(
        &mut self,
        device: &mut DEVICE,
        col: u8,
        row: u8,
    ) -> (result: Result<BusPlan, CharacterDisplayError>)
        ensures
            Self::performs(
                *old(self),
                *old(device),
                DisplayOp::SetCursor { col, row },
                *final(self),
                *final(device),
                result,
            ),
    ;

    /// Set the cursor visibility.
    fn show_cursor(
        &mut self,
        device: &mut DEVICE,
        show_cursor: bool,
    ) -> (result: Result<BusPlan, CharacterDisplayError>)
        ensures
            Self::performs(
                *old(self),
                *old(device),
                DisplayOp::ShowCursor(show_cursor),
                *final(self),
                *final(device),
                result,
            ),
    ;

    /// Set the cursor blinking.
    fn blink_cursor(
        &mut self,
        device: &mut DEVICE,
        blink_cursor: bool,
    ) -> (result: Result<BusPlan, CharacterDisplayError>)
        ensures
            Self::performs(
                *old(self),
                *old(device),
                DisplayOp::BlinkCursor(blink_cursor),
                *final(self),
                *final(device),
                result,
            ),
    ;

    /// Set the display visibility.
    fn show_display(
        &mut self,
        device: &mut DEVICE,
        show_display: bool,
    ) -> (result: Result<BusPlan, CharacterDisplayError>)
        ensures
            Self::performs(
                *old(self),
                *old(device),
                DisplayOp::ShowDisplay(show_display),
                *final(self),
                *final(device),
                result,
            ),
    ;

    /// Scroll display left.
    fn scroll_left(
        &mut self,
        device: &mut DEVICE,
    ) -> (result: Result<BusPlan, CharacterDisplayError>)
        ensures
            Self::performs(
                *old(self),
                *old(device),
                DisplayOp::ScrollLeft,
                *final(self),
                *final(device),
                result,
            ),
    ;

    /// Scroll display right.
    fn scroll_right(
        &mut self,
        device: &mut DEVICE,
    ) -> (result: Result<BusPlan, CharacterDisplayError>)
        ensures
            Self::performs(
                *old(self),
                *old(device),
                DisplayOp::ScrollRight,
                *final(self),
                *final(device),
                result,
            ),
    ;

    /// Set the text flow direction to left to right.
    fn left_to_right(
        &mut self,
        device: &mut DEVICE,
    ) -> (result: Result<BusPlan, CharacterDisplayError>)
        ensures
            Self::performs(
                *old(self),
                *old(device),
                DisplayOp::LeftToRight,
                *final(self),
                *final(device),
                result,
            ),
    ;

    /// Set the text flow direction to right to left.
    fn right_to_left(
        &mut self,
        device: &mut DEVICE,
    ) -> (result: Result<BusPlan, CharacterDisplayError>)
        ensures
            Self::performs(
                *old(self),
                *old(device),
                DisplayOp::RightToLeft,
                *final(self),
                *final(device),
                result,
            ),
    ;

    /// Set the auto scroll mode.
    fn autoscroll(
        &mut self,
        device: &mut DEVICE,
        autoscroll: bool,
    ) -> (result: Result<BusPlan, CharacterDisplayError>)
        ensures
            Self::performs(
                *old(self),
                *old(device),
                DisplayOp::Autoscroll(autoscroll),
                *final(self),
                *final(device),
                result,
            ),
    ;

    /// Prints a string to the LCD at the current cursor position of the active controller.
    fn print(
        &mut self,
        device: &mut DEVICE,
        text: &str,
    ) -> (result: Result<BusPlan, CharacterDisplayError>)
        ensures
            Self::performs(
                *old(self),
                *old(device),
                DisplayOp::Print { text: text@, bytes: text.spec_bytes() },
                *final(self),
                *final(device),
                result,
            ),
    ;

    /// Sets the backlight on or off.
    fn backlight(
        &mut self,
        device: &mut DEVICE,
        on: bool,
    ) -> (result: Result<BusPlan, CharacterDisplayError>)
        ensures
            Self::performs(
                *old(self),
                *old(device),
                DisplayOp::Backlight(on),
                *final(self),
                *final(device),
                result,
            ),
    ;

    /// Creates a new custom character.
    fn create_char(
        &mut self,
        device: &mut DEVICE,
        location: u8,
        charmap: [u8; 8],
    ) -> (result: Result<BusPlan, CharacterDisplayError>)
        ensures
            Self::performs(
                *old(self),
                *old(device),
                DisplayOp::CreateChar { location, charmap: charmap@ },
                *final(self),
                *final(device),
                result,
            ),
    ;

    /// Sets the contrast of the display, where the controller sets it by command.
    fn set_contrast(
        &mut self,
        device: &mut DEVICE,
        contrast: u8,
    ) -> (result: Result<BusPlan, CharacterDisplayError>)
        ensures
            Self::performs(
                *old(self),
                *old(device),
                DisplayOp::SetContrast(contrast),
                *final(self),
                *final(device),
                result,
            ),
    ;

    /// Starts a read of `count` bytes of display data from the active controller.
    fn read_device_data(&self, device: &mut DEVICE, count: usize) -> (result: Result<
        ReadSession,
        CharacterDisplayError,
    >)
        ensures
            Self::starts_read(*self, *old(device), true, count, *self, *final(device), result),
    ;

    /// Starts a read of the active controller's address counter.
    fn read_address_counter(&mut self, device: &mut DEVICE) -> (result: Result<
        ReadSession,
        CharacterDisplayError,
    >)
        ensures
            Self::starts_read(
                *old(self),
                *old(device),
                false,
                1,
                *final(self),
                *final(device),
                result,
            ),
    ;
}

} // verus!
