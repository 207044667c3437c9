//! Driver logic for character LCDs with an HD44780, AiP31068 or ST7032i controller on an I2C
//! bus.
//!
//! The crate holds everything that decides what goes over the wire: how each adapter packs the
//! display's control and data lines into a port byte, the 4-bit nibble protocol with its enable
//! strobes, the power-on sequence, the routing of rows to the right controller of a
//! two-controller panel, and the busy-flag and read protocol. It performs no I/O. Every
//! operation hands back a [`bus::BusPlan`], and a read is a small state machine that is fed the
//! bytes that came back.
//!
//! An operation changes what the crate remembers, the lines of the adapter's port, the mode
//! bytes of each controller and the controller that the cursor is on, when it is planned. The
//! plan is performed afterwards, by whoever owns the bus, who stops at the first step that
//! fails. So what the crate remembers is what holds once the plan was performed in full. After
//! a failure on the bus the controller may lag behind it, and the display is best initialized
//! anew.

use vstd::prelude::*;

pub mod adapter_config;
pub mod bit_configurations;
pub mod bit_range;
pub mod bus;
pub mod driver;
pub mod signal;

verus! {

/// The most controllers that one display can hold.
pub const MAX_DEVICE_COUNT: usize = 2;

/// What can go wrong in an operation on a display.
#[derive(Debug, PartialEq, Eq, Clone, Copy, Structural)]
pub enum CharacterDisplayError {
    /// The bus reported a failure.
    I2cError,
    /// Row is out of range.
    RowOutOfRange,
    /// Column is out of range.
    ColumnOutOfRange,
    /// Formatting error.
    FormattingError,
    /// The display type is not compatible with the adapter.
    UnsupportedDisplayType,
    /// The requested operation is not supported by the adapter or controller.
    UnsupportedOperation,
    /// Read operation is not supported by the adapter.
    ReadNotSupported,
    /// Internal error: bad controller index.
    BadDeviceId,
    /// Internal error: buffer too small.
    BufferTooSmall,
}

impl CharacterDisplayError {
    /// The error in words, as a sequence of characters.
    pub open spec fn message_text(self) -> Seq<char> {
        match self {
            CharacterDisplayError::I2cError => "I2C error"@,
            CharacterDisplayError::RowOutOfRange => "Row out of range"@,
            CharacterDisplayError::ColumnOutOfRange => "Column out of range"@,
            CharacterDisplayError::FormattingError => "Formatting error"@,
            CharacterDisplayError::UnsupportedDisplayType => "Unsupported display type"@,
            CharacterDisplayError::UnsupportedOperation => "Unsupported operation"@,
            CharacterDisplayError::ReadNotSupported => "Read operation not supported"@,
            CharacterDisplayError::BadDeviceId => "Bad device ID"@,
            CharacterDisplayError::BufferTooSmall => "Buffer too small"@,
        }
    }

    /// The error in words.
    pub fn message(&self) -> (text: &'static str)
        ensures
            text@ == self.message_text(),
    {
        match self {
            CharacterDisplayError::I2cError => "I2C error",
            CharacterDisplayError::RowOutOfRange => "Row out of range",
            CharacterDisplayError::ColumnOutOfRange => "Column out of range",
            CharacterDisplayError::FormattingError => "Formatting error",
            CharacterDisplayError::UnsupportedDisplayType => "Unsupported display type",
            CharacterDisplayError::UnsupportedOperation => "Unsupported operation",
            CharacterDisplayError::ReadNotSupported => "Read operation not supported",
            CharacterDisplayError::BadDeviceId => "Bad device ID",
            CharacterDisplayError::BufferTooSmall => "Buffer too small",
        }
    }
}

/// The type of LCD display. It fixes the number of rows and columns and the address at which
/// each row starts in the controller's display memory.
#[derive(Debug, PartialEq, Eq, Clone, Copy, Structural)]
pub enum LcdDisplayType {
    /// 20x4 display
    Lcd20x4,
    /// 20x2 display
    Lcd20x2,
    /// 16x2 display
    Lcd16x2,
    /// 16x4 display
    Lcd16x4,
    /// 8x2 display
    Lcd8x2,
    /// 40x2 display
    Lcd40x2,
    /// 40x4 display. It holds two controllers and needs an adapter with two enable lines.
    Lcd40x4,
}

impl LcdDisplayType {
    /// The number of rows of the panel.
    pub open spec fn row_count(self) -> u8 {
        match self {
            LcdDisplayType::Lcd20x4 | LcdDisplayType::Lcd16x4 | LcdDisplayType::Lcd40x4 => 4,
            _ => 2,
        }
    }

    /// The number of columns of the panel.
    pub open spec fn col_count(self) -> u8 {
        match self {
            LcdDisplayType::Lcd20x4 | LcdDisplayType::Lcd20x2 => 20,
            LcdDisplayType::Lcd16x2 | LcdDisplayType::Lcd16x4 => 16,
            LcdDisplayType::Lcd8x2 => 8,
            LcdDisplayType::Lcd40x2 | LcdDisplayType::Lcd40x4 => 40,
        }
    }

    /// The display-memory address of the first column of each of four rows. A panel with fewer
    /// than four rows repeats its two rows.
    pub open spec fn offsets(self) -> Seq<u8> {
        match self {
            LcdDisplayType::Lcd20x4 => seq![0x00u8, 0x40u8, 0x14u8, 0x54u8],
            LcdDisplayType::Lcd16x2 | LcdDisplayType::Lcd16x4 => seq![
                0x00u8,
                0x40u8,
                0x10u8,
                0x50u8,
            ],
            _ => seq![0x00u8, 0x40u8, 0x00u8, 0x40u8],
        }
    }

    /// The display type in words, as a sequence of characters.
    pub open spec fn name_text(self) -> Seq<char> {
        match self {
            LcdDisplayType::Lcd20x4 => "20x4"@,
            LcdDisplayType::Lcd20x2 => "20x2"@,
            LcdDisplayType::Lcd16x2 => "16x2"@,
            LcdDisplayType::Lcd16x4 => "16x4"@,
            LcdDisplayType::Lcd8x2 => "8x2"@,
            LcdDisplayType::Lcd40x2 => "40x2"@,
            LcdDisplayType::Lcd40x4 => "40x4"@,
        }
    }

    /// Get the number of rows for the display type.
    pub fn rows(&self) -> (rows: u8)
        ensures
            rows == self.row_count(),
    {
        match self {
            LcdDisplayType::Lcd20x4 => 4,
            LcdDisplayType::Lcd20x2 => 2,
            LcdDisplayType::Lcd16x2 => 2,
            LcdDisplayType::Lcd16x4 => 4,
            LcdDisplayType::Lcd8x2 => 2,
            LcdDisplayType::Lcd40x2 => 2,
            LcdDisplayType::Lcd40x4 => 4,
        }
    }

    /// Get the number of columns for the display type.
    pub fn cols(&self) -> (cols: u8)
        ensures
            cols == self.col_count(),
    {
        match self {
            LcdDisplayType::Lcd20x4 => 20,
            LcdDisplayType::Lcd20x2 => 20,
            LcdDisplayType::Lcd16x2 => 16,
            LcdDisplayType::Lcd16x4 => 16,
            LcdDisplayType::Lcd8x2 => 8,
            LcdDisplayType::Lcd40x2 => 40,
            LcdDisplayType::Lcd40x4 => 40,
        }
    }

    /// Get the row offsets for the display type. This always returns an array of length 4. For
    /// displays with less than 4 rows, the unused rows repeat the first two.
    pub fn row_offsets(&self) -> (offsets: [u8; 4])
        ensures
            offsets@ == self.offsets(),
    {
        let offsets: [u8; 4] = match self {
            LcdDisplayType::Lcd20x4 => [0x00, 0x40, 0x14, 0x54],
            LcdDisplayType::Lcd20x2 => [0x00, 0x40, 0x00, 0x40],
            LcdDisplayType::Lcd16x2 => [0x00, 0x40, 0x10, 0x50],
            LcdDisplayType::Lcd16x4 => [0x00, 0x40, 0x10, 0x50],
            LcdDisplayType::Lcd8x2 => [0x00, 0x40, 0x00, 0x40],
            LcdDisplayType::Lcd40x2 => [0x00, 0x40, 0x00, 0x40],
            LcdDisplayType::Lcd40x4 => [0x00, 0x40, 0x00, 0x40],
        };
        assert(offsets@ =~= self.offsets());
        offsets
    }

    /// The display type in words.
    pub fn name(&self) -> (text: &'static str)
        ensures
            text@ == self.name_text(),
    {
        match self {
            LcdDisplayType::Lcd20x4 => "20x4",
            LcdDisplayType::Lcd20x2 => "20x2",
            LcdDisplayType::Lcd16x2 => "16x2",
            LcdDisplayType::Lcd16x4 => "16x4",
            LcdDisplayType::Lcd8x2 => "8x2",
            LcdDisplayType::Lcd40x2 => "40x2",
            LcdDisplayType::Lcd40x4 => "40x4",
        }
    }

    /// Every cell of every panel has a display-memory address that fits the seven address bits
    /// of the set-address command.
    pub proof fn lemma_cell_address_fits(self, col: u8, row: u8)
        requires
            row < self.row_count(),
            col < self.col_count(),
        ensures
            self.offsets().len() == 4,
            col + self.offsets()[row as int] < 0x80,
    {
    }
}

/// What a device is set up with: the panel it drives and the bus address it answers at.
#[derive(Debug, PartialEq, Eq, Clone, Copy, Structural)]
pub struct DeviceSetupConfig {
    /// The panel.
    pub lcd_type: LcdDisplayType,
    /// The 7-bit I2C address.
    pub address: u8,
}

} // verus!
