//! The port of each I2C adapter on its own: the state of its lines, how they are packed into
//! the port byte, and the nibble protocol, for a bus address that the caller names with each
//! call.

use vstd::prelude::*;
use crate::bus::{BusOp, BusPlan};
use crate::driver::hd44780::adapter::{
    after_nibble, byte_ops, lemma_nibble_ops_after_nibble, nibble_ops, nibble_signals,
    state_write, PortLayout,
};
use crate::driver::hd44780::read::{busy_flag, ReadSession, ReadState};
use crate::signal::SignalState;
use crate::LcdDisplayType;

pub mod adafruit_lcd_backpack;
pub mod dual_hd44780;
pub mod generic_aip31068;
pub mod generic_pcf8574t;

verus! {

/// What can go wrong at an adapter's port.
#[derive(Debug, PartialEq, Eq, Clone, Copy, Structural)]
pub enum AdapterError {
    /// The device ID was not recognized.
    BadDeviceId,
    /// An I2C error occurred.
    I2CError,
    /// The adapter cannot do what was asked of it.
    UnsupportedOperation,
}

impl AdapterError {
    /// The error's name, as a sequence of characters.
    pub open spec fn name_text(self) -> Seq<char> {
        match self {
            AdapterError::BadDeviceId => "BadDeviceId"@,
            AdapterError::I2CError => "I2CError"@,
            AdapterError::UnsupportedOperation => "UnsupportedOperation"@,
        }
    }

    /// The error's name.
    pub fn name(&self) -> (text: &'static str)
        ensures
            text@ == self.name_text(),
    {
        match self {
            AdapterError::BadDeviceId => "BadDeviceId",
            AdapterError::I2CError => "I2CError",
            AdapterError::UnsupportedOperation => "UnsupportedOperation",
        }
    }
}

/// A plan, or the error in its place, as a mathematical value.
pub open spec fn port_planned(result: Result<BusPlan, AdapterError>) -> Result<
    Seq<BusOp>,
    AdapterError,
> {
    match result {
        Ok(plan) => Ok(plan@),
        Err(e) => Err(e),
    }
}

/// What a transfer to a device comes to: the steps `ops` and the lines `after` if the device
/// index names an enable line, a refusal if not, with the lines as they were when the
/// refusal came. `line` is the enable line that the index names, if any.
pub open spec fn transferred(
    line: Option<int>,
    result: Result<BusPlan, AdapterError>,
    left: SignalState,
    ops: Seq<BusOp>,
    after: SignalState,
    refused: SignalState,
) -> bool {
    match line {
        Some(_) => port_planned(result) == Ok::<Seq<BusOp>, AdapterError>(ops) && left == after,
        None => port_planned(result) == Err::<Seq<BusOp>, AdapterError>(AdapterError::BadDeviceId)
            && left == refused,
    }
}

/// The number of the enable line `line`, or of a line that no adapter has if there is none.
pub open spec fn line_of(line: Option<int>) -> int {
    match line {
        Some(line) => line,
        None => -1,
    }
}

/// The port of an I2C adapter in front of one or two HD44780 controllers.
pub trait AdapterConfigTrait: PortLayout + Sized {
    /// The lines as the adapter holds them.
    spec fn signals(&self) -> SignalState;

    /// The enable line that a device index names, if it names one. An adapter with one enable
    /// line takes every index for that line.
    spec fn enable_line(device: usize) -> Option<int>;

    /// The bus address that the adapter answers at unless it is strapped otherwise.
    spec fn default_address() -> u8;

    /// Returns the port byte for the lines as they stand.
    fn bits(&self) -> (byte: u8)
        ensures
            byte == Self::port_byte(self.signals()),
    ;

    /// Returns the default I2C address for the adapter.
    fn default_i2c_address() -> (address: u8)
        ensures
            address == Self::default_address(),
    ;

    /// Determines if reading from the controller is supported by this adapter.
    fn supports_reads() -> (supported: bool)
        ensures
            supported == Self::can_read(),
    ;

    /// Sets the RS line: `false` for an instruction, `true` for data.
    fn set_rs(&mut self, value: bool)
        ensures
            final(self).signals() == (SignalState { rs: value, ..old(self).signals() }),
    ;

    /// Sets the RW line: `false` for a write, `true` for a read. An adapter without that line
    /// does nothing.
    fn set_rw(&mut self, value: bool)
        ensures
            final(self).signals() == if Self::has_rw() {
                SignalState { rw: value, ..old(self).signals() }
            } else {
                old(self).signals()
            },
    ;

    /// Sets the enable line that the device index names. An index that names no line is
    /// refused, and the lines stay as they are.
    fn set_enable(&mut self, value: bool, device: usize) -> (result: Result<(), AdapterError>)
        ensures
            match Self::enable_line(device) {
                Some(line) => {
                    &&& result == Ok::<(), AdapterError>(())
                    &&& final(self).signals() == old(self).signals().with_enable(line, value)
                    &&& 0 <= line < Self::controllers()
                },
                None => {
                    &&& result == Err::<(), AdapterError>(AdapterError::BadDeviceId)
                    &&& final(self).signals() == old(self).signals()
                },
            },
    ;

    /// Sets the backlight line.
    fn set_backlight(&mut self, value: bool)
        ensures
            final(self).signals() == (SignalState { backlight: value, ..old(self).signals() }),
    ;

    /// Sets the four data lines to the low four bits of `value`.
    fn set_data(&mut self, value: u8)
        ensures
            final(self).signals() == (SignalState { data: value % 16, ..old(self).signals() }),
    ;

    /// Plans what the adapter chip itself needs at power-on.
    fn init(&self, i2c_address: u8) -> (plan: BusPlan)
        ensures
            plan@ == Self::power_up(i2c_address),
    ;

    /// Plans the one write that puts the lines, as they stand, on the port.
    fn write_bits_to_gpio(&self, i2c_address: u8) -> (result: Result<BusPlan, AdapterError>)
        ensures
            port_planned(result) == Ok::<Seq<BusOp>, AdapterError>(
                seq![state_write::<Self>(i2c_address, self.signals())],
            ),
    ;

    /// What `read_bytes_from_device` answers.
    spec fn read_model(
        &self,
        i2c_address: u8,
        device: usize,
        rs_setting: bool,
        count: usize,
    ) -> Result<ReadState, AdapterError>;

    /// Starts a read of `count` bytes from the given device: from its data register if
    /// `rs_setting` is `true`, else of its busy flag and address counter. An adapter that
    /// cannot read refuses.
    fn read_bytes_from_device(
        &self,
        i2c_address: u8,
        device: usize,
        rs_setting: bool,
        count: usize,
    ) -> (result: Result<ReadSession, AdapterError>)
        ensures
            match result {
                Ok(session) => self.read_model(i2c_address, device, rs_setting, count) == Ok::<
                    ReadState,
                    AdapterError,
                >(session@),
                Err(e) => self.read_model(i2c_address, device, rs_setting, count) == Err::<
                    ReadState,
                    AdapterError,
                >(e),
            },
    ;

    /// Tells from the port byte that a poll read whether the controller is busy. An adapter
    /// that cannot read is never busy.
    fn is_busy(&self, reply: u8) -> (result: Result<bool, AdapterError>)
        ensures
            result == Ok::<bool, AdapterError>(Self::can_read() && busy_flag(reply)),
    ;

    /// Returns how many controllers the adapter drives.
    fn device_count(&self) -> (count: usize)
        ensures
            count == Self::controllers(),
    ;

    /// Converts a row of the panel to the controller that shows it and the row's number on
    /// that controller.
    fn row_to_device_row(&self, row: u8) -> (place: (usize, u8))
        ensures
            place == Self::controller_row(row),
    ;

    /// Determines whether the display type is supported by this adapter.
    fn is_supported(display_type: LcdDisplayType) -> (supported: bool)
        ensures
            supported == Self::supported(display_type),
    ;

    /// Plans the transfer of the low four bits of `value` to the given device: to its data
    /// register if `rs_setting` is `true`, else to its instruction register. The nibble goes
    /// out in two writes, the device's enable line high and then low again.
    fn write_nibble_to_device(
        &mut self,
        i2c_address: u8,
        device: usize,
        rs_setting: bool,
        value: u8,
    ) -> (result: Result<BusPlan, AdapterError>)
        ensures
            transferred(
                Self::enable_line(device),
                result,
                final(self).signals(),
                nibble_ops::<Self>(
                    i2c_address,
                    old(self).signals(),
                    line_of(Self::enable_line(device)),
                    rs_setting,
                    value,
                ),
                after_nibble::<Self>(
                    old(self).signals(),
                    line_of(Self::enable_line(device)),
                    rs_setting,
                    value,
                ),
                nibble_signals::<Self>(old(self).signals(), rs_setting, value),
            ),
    {
        self.set_rs(rs_setting);
        self.set_rw(false);
        self.set_data(value & 0x0F);
        assert((value & 0x0F) % 16 == value % 16) by (bit_vector);
        self.set_enable(true, device)?;
        let mut plan = self.write_bits_to_gpio(i2c_address)?;
        self.set_enable(false, device)?;
        let second = self.write_bits_to_gpio(i2c_address)?;
        plan.extend(second);
        assert(plan@ =~= nibble_ops::<Self>(
            i2c_address,
            old(self).signals(),
            line_of(Self::enable_line(device)),
            rs_setting,
            value,
        ));
        Ok(plan)
    }

    /// Plans the transfer of `value` to the given device: its high nibble, then its low
    /// nibble, both to the same register.
    fn write_byte_to_device(
        &mut self,
        i2c_address: u8,
        device: usize,
        rs_setting: bool,
        value: u8,
    ) -> (result: Result<BusPlan, AdapterError>)
        ensures
            transferred(
                Self::enable_line(device),
                result,
                final(self).signals(),
                byte_ops::<Self>(
                    i2c_address,
                    old(self).signals(),
                    line_of(Self::enable_line(device)),
                    rs_setting,
                    value,
                ),
                after_nibble::<Self>(
                    old(self).signals(),
                    line_of(Self::enable_line(device)),
                    rs_setting,
                    value,
                ),
                nibble_signals::<Self>(old(self).signals(), rs_setting, value / 16),
            ),
    {
        let ghost s = self.signals();
        assert(value >> 4 == value / 16 && value & 0x0F == value % 16) by (bit_vector);
        let mut plan = self.write_nibble_to_device(i2c_address, device, rs_setting, value >> 4)?;
        let low = self.write_nibble_to_device(i2c_address, device, rs_setting, value & 0x0F)?;
        plan.extend(low);
        proof {
            lemma_nibble_ops_after_nibble::<Self>(
                i2c_address,
                s,
                line_of(Self::enable_line(device)),
                rs_setting,
                value / 16,
                rs_setting,
                value % 16,
            );
        }
        Ok(plan)
    }
}

} // verus!
