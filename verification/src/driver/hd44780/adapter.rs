//! I2C adapters in front of an HD44780: what every adapter must say of itself, and the nibble
//! protocol that is the same for all of them.

use vstd::prelude::*;
use crate::bus::{BusOp, BusPlan};
use crate::driver::hd44780::read::{busy_flag, ReadSession, ReadState};
use crate::driver::hd44780::{
    LCD_CMD_CLEARDISPLAY, LCD_CMD_DISPLAYCONTROL, LCD_CMD_ENTRYMODESET, LCD_CMD_FUNCTIONSET,
    LCD_CMD_RETURNHOME, LCD_FLAG_2LINE, LCD_FLAG_4BITMODE, LCD_FLAG_5x8_DOTS, LCD_FLAG_BLINKOFF,
    LCD_FLAG_CURSOROFF, LCD_FLAG_DISPLAYON, LCD_FLAG_ENTRYLEFT, LCD_FLAG_ENTRYSHIFTDECREMENT,
    MAX_CONTROLLER_COUNT,
};
use crate::driver::{planned, DeviceHardwareTrait};
use crate::signal::SignalState;
use crate::{CharacterDisplayError, DeviceSetupConfig, LcdDisplayType};

pub mod adafruit_lcd_backpack;
pub mod dual_controller_pcf8574t;
pub mod generic_pcf8574t;

verus! {

/// The write that puts the lines `s` on the port of an adapter `A` at `address`.
pub open spec fn state_write<A: PortLayout>(address: u8, s: SignalState) -> BusOp {
    BusOp::Write { address, bytes: A::frame(A::port_byte(s)) }
}

/// The lines while a nibble for register `rs` stands on the port, before the strobe: RS and
/// the data lines as asked, RW low where the adapter has that line.
pub open spec fn nibble_signals<A: PortLayout>(
    s: SignalState,
    rs: bool,
    value: u8,
) -> SignalState {
    SignalState { rs, rw: s.rw && !A::has_rw(), data: value % 16, ..s }
}

/// The lines after the low four bits of `value` went to `controller`: as during the nibble,
/// the controller's enable line low again.
pub open spec fn after_nibble<A: PortLayout>(
    s: SignalState,
    controller: int,
    rs: bool,
    value: u8,
) -> SignalState {
    nibble_signals::<A>(s, rs, value).with_enable(controller, false)
}

/// The two writes that hand the low four bits of `value` to `controller`: one with the
/// controller's enable line high, one with the line low again, on whose edge the controller
/// takes the nibble.
pub open spec fn nibble_ops<A: PortLayout>(
    address: u8,
    s: SignalState,
    controller: int,
    rs: bool,
    value: u8,
) -> Seq<BusOp> {
    seq![
        state_write::<A>(address, nibble_signals::<A>(s, rs, value).with_enable(controller, true)),
        state_write::<A>(address, nibble_signals::<A>(s, rs, value).with_enable(controller, false)),
    ]
}

/// The four writes that hand `value` to `controller`: its high nibble, then its low nibble.
pub open spec fn byte_ops<A: PortLayout>(
    address: u8,
    s: SignalState,
    controller: int,
    rs: bool,
    value: u8,
) -> Seq<BusOp> {
    nibble_ops::<A>(address, s, controller, rs, value / 16) + nibble_ops::<A>(
        address,
        s,
        controller,
        rs,
        value % 16,
    )
}

/// The lines with the enable lines of all controllers below `controller` low.
pub open spec fn released_below(s: SignalState, controller: int) -> SignalState {
    if controller <= 0 {
        s
    } else if controller == 1 {
        s.with_enable(0, false)
    } else {
        s.released()
    }
}

/// The function-set flags that the power-on sequence leaves a controller with.
pub open spec fn initial_function() -> u8 {
    0x08
}

/// The display-control flags that the power-on sequence leaves a controller with.
pub open spec fn initial_control() -> u8 {
    0x04
}

/// The entry-mode flags that the power-on sequence leaves a controller with.
pub open spec fn initial_mode() -> u8 {
    0x02
}

/// The power-on sequence of one controller: the reset handshake that brings it into 4-bit mode
/// from whatever state it is in, then function set, display control and entry mode, then
/// clear and home, each with its wait.
pub open spec fn controller_init_ops<A: PortLayout>(
    address: u8,
    s: SignalState,
    controller: int,
) -> Seq<BusOp> {
    let reset = nibble_ops::<A>(address, s, controller, false, 0x03);
    let four_bit = nibble_ops::<A>(address, s, controller, false, 0x02);
    let function_set = byte_ops::<A>(address, s, controller, false, 0x28);
    let display_control = byte_ops::<A>(address, s, controller, false, 0x0c);
    let entry_mode = byte_ops::<A>(address, s, controller, false, 0x06);
    let clear = byte_ops::<A>(address, s, controller, false, 0x01);
    let home = byte_ops::<A>(address, s, controller, false, 0x02);
    ((((((reset.push(BusOp::DelayMs(5)) + reset).push(BusOp::DelayMs(5)) + reset).push(
        BusOp::DelayUs(150),
    ) + four_bit) + function_set + display_control + entry_mode + clear).push(BusOp::DelayMs(2))
        + home).push(BusOp::DelayMs(2)))
}

/// The power-on sequences of the controllers `0..count`, in that order.
pub open spec fn controllers_init_ops<A: PortLayout>(
    address: u8,
    s: SignalState,
    count: nat,
) -> Seq<BusOp>
    decreases count,
{
    if count == 0 {
        Seq::empty()
    } else {
        controllers_init_ops::<A>(address, s, (count - 1) as nat) + controller_init_ops::<A>(
            address,
            released_below(s, count - 1),
            count - 1,
        )
    }
}

/// The lines after the power-on sequence of the controllers `0..count`, the backlight not yet
/// touched.
pub open spec fn after_controllers_init<A: PortLayout>(
    s: SignalState,
    count: nat,
) -> SignalState {
    if count == 0 {
        s
    } else {
        released_below(nibble_signals::<A>(s, false, 0x02), count as int)
    }
}

/// The lines after the whole power-on sequence: as after the last controller's, the backlight
/// on.
pub open spec fn after_init<A: PortLayout>(s: SignalState) -> SignalState {
    SignalState { backlight: true, ..after_controllers_init::<A>(s, A::controllers()) }
}

/// The whole power-on sequence: the adapter's own, each controller's in turn, and the write
/// that turns the backlight on.
pub open spec fn init_ops<A: PortLayout>(address: u8, s: SignalState) -> Seq<BusOp> {
    A::power_up(address) + controllers_init_ops::<A>(address, s, A::controllers()) + seq![
        state_write::<A>(address, after_init::<A>(s)),
    ]
}

/// Whether the lines `x` and `y` agree in all that a nibble for `controller` does not set anew
/// on an adapter `A`: the enable line of the other controller, the backlight, and RW where the
/// adapter has no such line.
pub open spec fn same_carried<A: PortLayout>(
    x: SignalState,
    y: SignalState,
    controller: int,
) -> bool {
    &&& x.with_enable(controller, false).enable0 == y.with_enable(controller, false).enable0
    &&& x.with_enable(controller, false).enable1 == y.with_enable(controller, false).enable1
    &&& x.backlight == y.backlight
    &&& (x.rw && !A::has_rw()) == (y.rw && !A::has_rw())
}

/// How an adapter is wired: which port bit is which line, how a port byte travels over the
/// bus, and which controllers and panels the adapter serves.
pub trait PortLayout {
    /// The port byte that stands for the lines `s`.
    spec fn port_byte(s: SignalState) -> u8;

    /// The bytes of the bus write that puts `byte` on the port.
    spec fn frame(byte: u8) -> Seq<u8>;

    /// Whether the adapter drives the controller's RW line.
    spec fn has_rw() -> bool;

    /// Whether the controller can be read through the adapter.
    spec fn can_read() -> bool;

    /// How many controllers the adapter drives.
    spec fn controllers() -> nat;

    /// Whether the adapter can drive a panel of the given type.
    spec fn supported(display_type: LcdDisplayType) -> bool;

    /// What the adapter chip itself needs written at power-on.
    spec fn power_up(address: u8) -> Seq<BusOp>;

    /// The controller that shows the panel's row `row`, and the row's number there.
    spec fn controller_row(row: u8) -> (usize, u8);

    /// An adapter drives one or two controllers, and every row of a panel is shown by one of
    /// them, under a number no higher than its own.
    proof fn lemma_controllers(row: u8)
        ensures
            1 <= Self::controllers() <= MAX_CONTROLLER_COUNT,
            Self::controller_row(row).0 < Self::controllers(),
            Self::controller_row(row).1 <= row,
    ;
}

/// An I2C adapter in front of one or two HD44780 controllers. The adapter has eight port pins:
/// four for the data lines of the controller's 4-bit interface, the others for RS, RW where it
/// is wired, one enable line per controller, and the backlight.
pub trait HD44780AdapterTrait: PortLayout + Sized {
    /// The lines as the adapter holds them.
    spec fn signals(&self) -> SignalState;

    /// What the adapter was set up with.
    spec fn device_setup(&self) -> DeviceSetupConfig;

    /// Returns what the adapter was set up with.
    fn device_config(&self) -> (config: &DeviceSetupConfig)
        ensures
            *config == self.device_setup(),
    ;

    /// What `read_bytes_from_controller` answers.
    spec fn read_model(&self, controller: usize, rs_setting: bool, count: usize) -> Result<
        ReadState,
        CharacterDisplayError,
    >;

    /// Returns the most controllers that the adapter can drive.
    fn max_controller_count() -> (count: usize)
        ensures
            count == Self::controllers(),
    ;

    /// Plans what the adapter chip itself needs at power-on.
    fn hardware_init(&mut self) -> (plan: BusPlan)
        ensures
            plan@ == Self::power_up(old(self).device_setup().address),
            final(self).device_setup() == old(self).device_setup(),
            final(self).signals() == old(self).signals(),
    ;

    /// Determines whether the display type is supported by this adapter.
    fn is_supported(display_type: LcdDisplayType) -> (supported: bool)
        ensures
            supported == Self::supported(display_type),
    ;

    /// Returns the port byte for the lines as they stand.
    fn bits(&self) -> (byte: u8)
        ensures
            byte == Self::port_byte(self.signals()),
    ;

    /// Sets the RS line: `false` for an instruction, `true` for data.
    fn set_rs(&mut self, value: bool)
        ensures
            final(self).device_setup() == old(self).device_setup(),
            final(self).signals() == (SignalState { rs: value, ..old(self).signals() }),
    ;

    /// Sets the RW line: `false` for a write, `true` for a read. An adapter without that line
    /// does nothing.
    fn set_rw(&mut self, value: bool)
        ensures
            final(self).device_setup() == old(self).device_setup(),
            final(self).signals() == if Self::has_rw() {
                SignalState { rw: value, ..old(self).signals() }
            } else {
                old(self).signals()
            },
    ;

    /// Sets the enable line of the given controller. A controller that the adapter does not
    /// drive is refused, and the lines stay as they are.
    fn set_enable(&mut self, value: bool, controller: usize) -> (result: Result<
        (),
        CharacterDisplayError,
    >)
        ensures
            final(self).device_setup() == old(self).device_setup(),
            controller < Self::controllers() ==> result == Ok::<(), CharacterDisplayError>(())
                && final(self).signals() == old(self).signals().with_enable(
                controller as int,
                value,
            ),
            controller >= Self::controllers() ==> result == Err::<(), CharacterDisplayError>(
                CharacterDisplayError::BadDeviceId,
            ) && final(self).signals() == old(self).signals(),
    ;

    /// Sets the backlight line and plans the write that puts it on the port.
    fn set_backlight(&mut self, value: bool) -> (result: Result<BusPlan, CharacterDisplayError>)
        ensures
            final(self).device_setup() == old(self).device_setup(),
            final(self).signals() == (SignalState { backlight: value, ..old(self).signals() }),
            planned(result) == Ok::<Seq<BusOp>, CharacterDisplayError>(
                seq![state_write::<Self>(old(self).device_setup().address, final(self).signals())],
            ),
    ;

    /// Sets the four data lines to the low four bits of `value`.
    fn set_data(&mut self, value: u8)
        ensures
            final(self).device_setup() == old(self).device_setup(),
            final(self).signals() == (SignalState { data: value % 16, ..old(self).signals() }),
    ;

    /// Plans the one write that puts the lines, as they stand, on the port.
    fn write_bits_to_gpio(&mut self) -> (result: Result<BusPlan, CharacterDisplayError>)
        ensures
            final(self).device_setup() == old(self).device_setup(),
            final(self).signals() == old(self).signals(),
            planned(result) == Ok::<Seq<BusOp>, CharacterDisplayError>(
                seq![state_write::<Self>(old(self).device_setup().address, old(self).signals())],
            ),
    ;

    /// Returns how many controllers the adapter drives.
    fn controller_count() -> (count: usize)
        ensures
            count == Self::controllers(),
    ;

    /// Converts a row of the panel to the controller that shows it and the row's number on
    /// that controller, as `(controller, row)`.
    fn row_to_controller_row(&self, row: u8) -> (place: (usize, u8))
        ensures
            place == Self::controller_row(row),
    ;

    /// Starts a read of `count` bytes from the given controller: from its data register if
    /// `rs_setting` is `true`, else of its busy flag and address counter. An adapter that
    /// cannot read refuses.
    fn read_bytes_from_controller(
        &mut self,
        controller: usize,
        rs_setting: bool,
        count: usize,
    ) -> (result: Result<ReadSession, CharacterDisplayError>)
        ensures
            final(self).device_setup() == old(self).device_setup(),
            final(self).signals() == old(self).signals(),
            match result {
                Ok(session) => old(self).read_model(controller, rs_setting, count) == Ok::<
                    ReadState,
                    CharacterDisplayError,
                >(session@),
                Err(e) => old(self).read_model(controller, rs_setting, count) == Err::<
                    ReadState,
                    CharacterDisplayError,
                >(e),
            },
    ;

    /// Tells from the port byte that a poll read whether the controller is busy. An adapter
    /// that cannot read is never busy.
    fn is_busy(&mut self, reply: u8) -> (result: Result<bool, CharacterDisplayError>)
        ensures
            final(self).device_setup() == old(self).device_setup(),
            final(self).signals() == old(self).signals(),
            result == Ok::<bool, CharacterDisplayError>(
                Self::can_read() && busy_flag(reply),
            ),
    ;

    /// Plans the power-on sequence of one controller.
    fn init_controller(&mut self, controller: usize) -> (result: Result<
        BusPlan,
        CharacterDisplayError,
    >)
        ensures
            final(self).device_setup() == old(self).device_setup(),
            controller < Self::controllers() ==> planned(result) == Ok::<
                Seq<BusOp>,
                CharacterDisplayError,
            >(
                controller_init_ops::<Self>(
                    old(self).device_setup().address,
                    old(self).signals(),
                    controller as int,
                ),
            ) && final(self).signals() == after_nibble::<Self>(
                old(self).signals(),
                controller as int,
                false,
                0x02,
            ),
            controller >= Self::controllers() ==> planned(result) == Err::<
                Seq<BusOp>,
                CharacterDisplayError,
            >(CharacterDisplayError::BadDeviceId),
    {
        let ghost s = self.signals();
        let ghost a = self.device_setup().address;
        let ghost c = controller as int;
        if controller >= Self::max_controller_count() {
            return Err(CharacterDisplayError::BadDeviceId);
        }
        let display_function: u8 = LCD_FLAG_4BITMODE | LCD_FLAG_2LINE | LCD_FLAG_5x8_DOTS;
        let display_control: u8 = LCD_FLAG_DISPLAYON | LCD_FLAG_CURSOROFF | LCD_FLAG_BLINKOFF;
        let display_mode: u8 = LCD_FLAG_ENTRYLEFT | LCD_FLAG_ENTRYSHIFTDECREMENT;
        assert(0x00u8 | 0x08u8 | 0x00u8 == 0x08u8 && 0x04u8 | 0x00u8 | 0x00u8 == 0x04u8 && 0x02u8
            | 0x00u8 == 0x02u8 && 0x20u8 | 0x08u8 == 0x28u8 && 0x08u8 | 0x04u8 == 0x0cu8 && 0x04u8
            | 0x02u8 == 0x06u8) by (bit_vector);
        // The controller may come up in 8-bit mode, or half way through a 4-bit transfer.
        // Three times 0x3 brings it to 8-bit mode from either, 0x2 then selects 4-bit mode.
        let mut plan = self.write_nibble_to_controller(controller, false, 0x03)?;
        plan.delay_ms(5);
        proof {
            lemma_same_carried::<Self>(a, self.signals(), s, c);
        }
        let second = self.write_nibble_to_controller(controller, false, 0x03)?;
        plan.extend(second);
        plan.delay_ms(5);
        proof {
            lemma_same_carried::<Self>(a, self.signals(), s, c);
        }
        let third = self.write_nibble_to_controller(controller, false, 0x03)?;
        plan.extend(third);
        plan.delay_us(150);
        proof {
            lemma_same_carried::<Self>(a, self.signals(), s, c);
        }
        let fourth = self.write_nibble_to_controller(controller, false, 0x02)?;
        plan.extend(fourth);
        proof {
            lemma_same_carried::<Self>(a, self.signals(), s, c);
        }
        let function_set = self.send_command_to_controller(
            controller,
            LCD_CMD_FUNCTIONSET | display_function,
        )?;
        plan.extend(function_set);
        proof {
            lemma_same_carried::<Self>(a, self.signals(), s, c);
        }
        let control = self.send_command_to_controller(
            controller,
            LCD_CMD_DISPLAYCONTROL | display_control,
        )?;
        plan.extend(control);
        proof {
            lemma_same_carried::<Self>(a, self.signals(), s, c);
        }
        let mode = self.send_command_to_controller(
            controller,
            LCD_CMD_ENTRYMODESET | display_mode,
        )?;
        plan.extend(mode);
        proof {
            lemma_same_carried::<Self>(a, self.signals(), s, c);
        }
        let clear = self.send_command_to_controller(controller, LCD_CMD_CLEARDISPLAY)?;
        plan.extend(clear);
        plan.delay_ms(2);
        proof {
            lemma_same_carried::<Self>(a, self.signals(), s, c);
        }
        let home = self.send_command_to_controller(controller, LCD_CMD_RETURNHOME)?;
        plan.extend(home);
        plan.delay_ms(2);
        Ok(plan)
    }

    /// Plans the whole power-on sequence: the adapter's own, each controller's in ascending
    /// order, and at last the backlight is turned on. A panel that the adapter cannot drive is
    /// refused before anything is planned. On `Ok`, returns the mode bytes that the controllers
    /// are left with, as (function, control, entry mode), and the plan.
    fn adapter_init(&mut self) -> (result: Result<((u8, u8, u8), BusPlan), CharacterDisplayError>)
        ensures
            final(self).device_setup() == old(self).device_setup(),
            match result {
                Ok((modes, plan)) => {
                    &&& Self::supported(old(self).device_setup().lcd_type)
                    &&& modes == (initial_function(), initial_control(), initial_mode())
                    &&& plan@ == init_ops::<Self>(
                        old(self).device_setup().address,
                        old(self).signals(),
                    )
                    &&& final(self).signals() == after_init::<Self>(old(self).signals())
                },
                Err(e) => {
                    &&& !Self::supported(old(self).device_setup().lcd_type)
                    &&& e == CharacterDisplayError::UnsupportedDisplayType
                    &&& final(self).signals() == old(self).signals()
                },
            },
    {
        let ghost s = self.signals();
        let ghost a = self.device_setup().address;
        if !Self::is_supported(self.device_config().lcd_type) {
            return Err(CharacterDisplayError::UnsupportedDisplayType);
        }
        let mut plan = self.hardware_init();
        let count: usize = Self::controller_count();
        proof {
            Self::lemma_controllers(0);
        }
        let mut controller: usize = 0;
        while controller < count
            invariant
                controller <= count == Self::controllers() <= MAX_CONTROLLER_COUNT,
                self.device_setup() == old(self).device_setup(),
                a == self.device_setup().address,
                s == old(self).signals(),
                self.signals() == after_controllers_init::<Self>(s, controller as nat),
                plan@ == Self::power_up(a) + controllers_init_ops::<Self>(a, s, controller as nat),
            decreases count - controller,
        {
            proof {
                lemma_same_carried::<Self>(
                    a,
                    self.signals(),
                    released_below(s, controller as int),
                    controller as int,
                );
                lemma_same_nibble::<Self>(
                    self.signals(),
                    released_below(s, controller as int),
                    controller as int,
                    false,
                    0x02,
                );
            }
            match self.init_controller(controller) {
                Err(e) => {
                    assert(false);
                    return Err(e);
                },
                Ok(part) => {
                    plan.extend(part);
                },
            }
            controller = controller + 1;
            assert(plan@ =~= Self::power_up(a) + controllers_init_ops::<Self>(
                a,
                s,
                controller as nat,
            ));
        }
        match self.set_backlight(true) {
            Err(e) => {
                assert(false);
                return Err(e);
            },
            Ok(light) => {
                plan.extend(light);
            },
        }
        assert(plan@ =~= init_ops::<Self>(a, s));
        let display_function: u8 = LCD_FLAG_4BITMODE | LCD_FLAG_2LINE | LCD_FLAG_5x8_DOTS;
        let display_control: u8 = LCD_FLAG_DISPLAYON | LCD_FLAG_CURSOROFF | LCD_FLAG_BLINKOFF;
        let display_mode: u8 = LCD_FLAG_ENTRYLEFT | LCD_FLAG_ENTRYSHIFTDECREMENT;
        assert(0x00u8 | 0x08u8 | 0x00u8 == 0x08u8 && 0x04u8 | 0x00u8 | 0x00u8 == 0x04u8 && 0x02u8
            | 0x00u8 == 0x02u8) by (bit_vector);
        Ok(((display_function, display_control, display_mode), plan))
    }

    /// Plans the transfer of the low four bits of `value` to the given controller: to its data
    /// register if `rs_setting` is `true`, else to its instruction register. The nibble goes
    /// out in two writes, the controller's enable line high and then low again. For a
    /// controller that the adapter does not drive nothing is planned.
    fn write_nibble_to_controller(
        &mut self,
        controller: usize,
        rs_setting: bool,
        value: u8,
    ) -> (result: 
        Result<BusPlan, CharacterDisplayError>)
        ensures
            final(self).device_setup() == old(self).device_setup(),
            controller < Self::controllers() ==> planned(result) == Ok::<
                Seq<BusOp>,
                CharacterDisplayError,
            >(
                nibble_ops::<Self>(
                    old(self).device_setup().address,
                    old(self).signals(),
                    controller as int,
                    rs_setting,
                    value,
                ),
            ) && final(self).signals() == after_nibble::<Self>(
                old(self).signals(),
                controller as int,
                rs_setting,
                value,
            ),
            controller >= Self::controllers() ==> planned(result) == Err::<
                Seq<BusOp>,
                CharacterDisplayError,
            >(CharacterDisplayError::BadDeviceId) && final(self).signals() == nibble_signals::<
                Self,
            >(old(self).signals(), rs_setting, value),
    {
        self.set_rs(rs_setting);
        self.set_rw(false);
        self.set_data(value & 0x0F);
        assert((value & 0x0F) % 16 == value % 16) by (bit_vector);
        match self.set_enable(true, controller) {
            Err(e) => { return Err(e); },
            Ok(_) => {},
        }
        let mut plan = match self.write_bits_to_gpio() {
            Err(e) => { return Err(e); },
            Ok(plan) => plan,
        };
        match self.set_enable(false, controller) {
            Err(e) => { return Err(e); },
            Ok(_) => {},
        }
        match self.write_bits_to_gpio() {
            Err(e) => { return Err(e); },
            Ok(second) => { plan.extend(second); },
        }
        assert(plan@ =~= nibble_ops::<Self>(
            old(self).device_setup().address,
            old(self).signals(),
            controller as int,
            rs_setting,
            value,
        ));
        Ok(plan)
    }

    /// Plans the transfer of `value` to the given controller: its high nibble, then its low
    /// nibble, both to the same register.
    fn write_byte_to_controller(
        &mut self,
        controller: usize,
        rs_setting: bool,
        value: u8,
    ) -> (result: 
        Result<BusPlan, CharacterDisplayError>)
        ensures
            final(self).device_setup() == old(self).device_setup(),
            controller < Self::controllers() ==> planned(result) == Ok::<
                Seq<BusOp>,
                CharacterDisplayError,
            >(
                byte_ops::<Self>(
                    old(self).device_setup().address,
                    old(self).signals(),
                    controller as int,
                    rs_setting,
                    value,
                ),
            ) && final(self).signals() == after_nibble::<Self>(
                old(self).signals(),
                controller as int,
                rs_setting,
                value,
            ),
            controller >= Self::controllers() ==> planned(result) == Err::<
                Seq<BusOp>,
                CharacterDisplayError,
            >(CharacterDisplayError::BadDeviceId) && final(self).signals() == nibble_signals::<
                Self,
            >(old(self).signals(), rs_setting, value / 16),
    {
        let ghost s = self.signals();
        assert(value >> 4 == value / 16 && value & 0x0F == value % 16) by (bit_vector);
        let mut plan = match self.write_nibble_to_controller(controller, rs_setting, value >> 4) {
            Err(e) => { return Err(e); },
            Ok(plan) => plan,
        };
        match self.write_nibble_to_controller(controller, rs_setting, value & 0x0F) {
            Err(e) => { return Err(e); },
            Ok(low) => { plan.extend(low); },
        }
        proof {
            lemma_nibble_ops_after_nibble::<Self>(
                self.device_setup().address,
                s,
                controller as int,
                rs_setting,
                value / 16,
                rs_setting,
                value % 16,
            );
        }
        Ok(plan)
    }

    /// Plans the transfer of a command byte to the given controller's instruction register.
    fn send_command_to_controller(&mut self, controller: usize, command: u8) -> (result: Result<
        BusPlan,
        CharacterDisplayError,
    >)
        ensures
            final(self).device_setup() == old(self).device_setup(),
            controller < Self::controllers() ==> planned(result) == Ok::<
                Seq<BusOp>,
                CharacterDisplayError,
            >(
                byte_ops::<Self>(
                    old(self).device_setup().address,
                    old(self).signals(),
                    controller as int,
                    false,
                    command,
                ),
            ) && final(self).signals() == after_nibble::<Self>(
                old(self).signals(),
                controller as int,
                false,
                command,
            ),
            controller >= Self::controllers() ==> planned(result) == Err::<
                Seq<BusOp>,
                CharacterDisplayError,
            >(CharacterDisplayError::BadDeviceId) && final(self).signals() == nibble_signals::<
                Self,
            >(old(self).signals(), false, command / 16),
    {
        self.write_byte_to_controller(controller, false, command)
    }
}

/// An adapter as the display actions need it: the device that a display is made of and the
/// adapter in front of its controllers, which are one thing.
pub trait HD44780DeviceTrait: DeviceHardwareTrait + HD44780AdapterTrait {
    /// The adapter has one setup and one answer on reads, whichever of its two roles is asked,
    /// and a new adapter has the setup that it was made with and every line low.
    proof fn lemma_one_device(&self, config: DeviceSetupConfig)
        ensures
            self.setup() == self.device_setup(),
            Self::reads_supported() == Self::can_read(),
            Self::fresh(config).setup() == config,
            Self::fresh(config).signals() == SignalState::idle(),
    ;
}

/// What a nibble looks like on the port does not depend on the nibble that went to the same
/// controller before it: the earlier one left nothing behind but RS and data lines, which the
/// later one sets anew.
pub proof fn lemma_nibble_ops_after_nibble<A: PortLayout>(
    address: u8,
    s: SignalState,
    controller: int,
    rs_before: bool,
    before: u8,
    rs: bool,
    value: u8,
)
    ensures
        nibble_ops::<A>(
            address,
            after_nibble::<A>(s, controller, rs_before, before),
            controller,
            rs,
            value,
        )
            == nibble_ops::<A>(address, s, controller, rs, value),
        after_nibble::<A>(
            after_nibble::<A>(s, controller, rs_before, before),
            controller,
            rs,
            value,
        )
            == after_nibble::<A>(s, controller, rs, value),
{
    let t = after_nibble::<A>(s, controller, rs_before, before);
    assert(nibble_signals::<A>(t, rs, value).with_enable(controller, true) == nibble_signals::<A>(
        s,
        rs,
        value,
    ).with_enable(controller, true));
    assert(nibble_signals::<A>(t, rs, value).with_enable(controller, false) == nibble_signals::<A>(
        s,
        rs,
        value,
    ).with_enable(controller, false));
}

/// What goes to a controller looks the same on the port, and leaves the lines the same,
/// from any two states that agree in what a nibble does not set anew.
pub proof fn lemma_same_carried<A: PortLayout>(
    address: u8,
    x: SignalState,
    y: SignalState,
    controller: int,
)
    requires
        same_carried::<A>(x, y, controller),
    ensures
        forall|rs: bool, value: u8| #[trigger]
            nibble_ops::<A>(address, x, controller, rs, value) == nibble_ops::<A>(
                address,
                y,
                controller,
                rs,
                value,
            ),
        forall|rs: bool, value: u8| #[trigger]
            byte_ops::<A>(address, x, controller, rs, value) == byte_ops::<A>(
                address,
                y,
                controller,
                rs,
                value,
            ),
        forall|rs: bool, value: u8| #[trigger]
            after_nibble::<A>(x, controller, rs, value) == after_nibble::<A>(
                y,
                controller,
                rs,
                value,
            ),
        forall|rs: bool, value: u8|
            same_carried::<A>(
                #[trigger] after_nibble::<A>(x, controller, rs, value),
                y,
                controller,
            ),
        controller_init_ops::<A>(address, x, controller) == controller_init_ops::<A>(
            address,
            y,
            controller,
        ),
{
    assert forall|rs: bool, value: u8| #[trigger]
        nibble_ops::<A>(address, x, controller, rs, value) == nibble_ops::<A>(
            address,
            y,
            controller,
            rs,
            value,
        ) by {
        lemma_same_nibble::<A>(x, y, controller, rs, value);
    }
    assert forall|rs: bool, value: u8| #[trigger]
        byte_ops::<A>(address, x, controller, rs, value) == byte_ops::<A>(
            address,
            y,
            controller,
            rs,
            value,
        ) by {
        lemma_same_nibble::<A>(x, y, controller, rs, value / 16);
        lemma_same_nibble::<A>(x, y, controller, rs, value % 16);
    }
    assert forall|rs: bool, value: u8| #[trigger]
        after_nibble::<A>(x, controller, rs, value) == after_nibble::<A>(
            y,
            controller,
            rs,
            value,
        ) by {
        lemma_same_nibble::<A>(x, y, controller, rs, value);
    }
    assert forall|rs: bool, value: u8|
        same_carried::<A>(
            #[trigger] after_nibble::<A>(x, controller, rs, value),
            y,
            controller,
        ) by {
        lemma_same_nibble::<A>(x, y, controller, rs, value);
    }
}

/// The lines during the two writes of a nibble are the same from any two states that agree in
/// what the nibble does not set anew.
proof fn lemma_same_nibble<A: PortLayout>(
    x: SignalState,
    y: SignalState,
    controller: int,
    rs: bool,
    value: u8,
)
    requires
        same_carried::<A>(x, y, controller),
    ensures
        nibble_signals::<A>(x, rs, value).with_enable(controller, true) == nibble_signals::<A>(
            y,
            rs,
            value,
        ).with_enable(controller, true),
        nibble_signals::<A>(x, rs, value).with_enable(controller, false) == nibble_signals::<A>(
            y,
            rs,
            value,
        ).with_enable(controller, false),
{
}

/// One transfer looks the same on the port, and leaves the lines the same, from any two
/// states that agree in what a nibble does not set anew.
pub proof fn lemma_rebase<A: PortLayout>(
    address: u8,
    x: SignalState,
    y: SignalState,
    controller: int,
    rs: bool,
    value: u8,
)
    requires
        same_carried::<A>(x, y, controller),
    ensures
        nibble_ops::<A>(address, x, controller, rs, value) == nibble_ops::<A>(
            address,
            y,
            controller,
            rs,
            value,
        ),
        byte_ops::<A>(address, x, controller, rs, value) == byte_ops::<A>(
            address,
            y,
            controller,
            rs,
            value,
        ),
        after_nibble::<A>(x, controller, rs, value) == after_nibble::<A>(y, controller, rs, value),
        same_carried::<A>(after_nibble::<A>(x, controller, rs, value), y, controller),
{
    lemma_same_nibble::<A>(x, y, controller, rs, value);
    lemma_same_nibble::<A>(x, y, controller, rs, value / 16);
    lemma_same_nibble::<A>(x, y, controller, rs, value % 16);
}

/// A byte always goes out as two nibbles, the high one first, both to the same register of
/// the same controller, and each nibble as two writes of the port: one with the controller's
/// enable line high and one with the line low again. That makes four writes, in this order.
pub proof fn lemma_byte_is_two_nibbles<A: PortLayout>(
    address: u8,
    s: SignalState,
    controller: int,
    rs: bool,
    value: u8,
)
    ensures
        byte_ops::<A>(address, s, controller, rs, value) == nibble_ops::<A>(
            address,
            s,
            controller,
            rs,
            value / 16,
        ) + nibble_ops::<A>(address, s, controller, rs, value % 16),
        byte_ops::<A>(address, s, controller, rs, value).len() == 4,
        byte_ops::<A>(address, s, controller, rs, value)[0] == state_write::<A>(
            address,
            nibble_signals::<A>(s, rs, value / 16).with_enable(controller, true),
        ),
        byte_ops::<A>(address, s, controller, rs, value)[1] == state_write::<A>(
            address,
            nibble_signals::<A>(s, rs, value / 16).with_enable(controller, false),
        ),
        byte_ops::<A>(address, s, controller, rs, value)[2] == state_write::<A>(
            address,
            nibble_signals::<A>(s, rs, value % 16).with_enable(controller, true),
        ),
        byte_ops::<A>(address, s, controller, rs, value)[3] == state_write::<A>(
            address,
            nibble_signals::<A>(s, rs, value % 16).with_enable(controller, false),
        ),
{
}

/// On the PCF8574T adapters each of the four writes of a byte carries one byte, the port
/// byte. On the MCP23008 backpack each carries two, the number of the GPIO register and the
/// port byte, eight in all.
pub proof fn lemma_write_frames(s: SignalState)
    ensures
        generic_pcf8574t::GenericPCF8574TAdapter::frame(
            generic_pcf8574t::GenericPCF8574TAdapter::port_byte(s),
        ) == seq![crate::signal::pcf8574t_byte(s)],
        dual_controller_pcf8574t::DualHD44780_PCF8574TAdapter::frame(
            dual_controller_pcf8574t::DualHD44780_PCF8574TAdapter::port_byte(s),
        ) == seq![crate::signal::dual_pcf8574t_byte(s)],
        adafruit_lcd_backpack::AdafruitLCDBackpackAdapter::frame(
            adafruit_lcd_backpack::AdafruitLCDBackpackAdapter::port_byte(s),
        ) == seq![0x09u8, crate::signal::backpack_byte(s)],
{
}

/// The adapter with two enable lines drives the 40x4 panel and no other; the adapters with
/// one enable line drive every panel but that one.
pub proof fn lemma_compatibility(display_type: LcdDisplayType)
    ensures
        dual_controller_pcf8574t::DualHD44780_PCF8574TAdapter::supported(display_type) <==> (
        display_type == LcdDisplayType::Lcd40x4),
        generic_pcf8574t::GenericPCF8574TAdapter::supported(display_type) <==> (display_type
            != LcdDisplayType::Lcd40x4),
        adafruit_lcd_backpack::AdafruitLCDBackpackAdapter::supported(display_type) <==> (
        display_type != LcdDisplayType::Lcd40x4),
{
}

/// On the adapter with two controllers the first controller shows rows 0 and 1 of the panel
/// and the second shows rows 2 and 3, each as its own rows 0 and 1. The adapters with one
/// controller leave every row where it is.
pub proof fn lemma_rows(row: u8)
    ensures
        dual_controller_pcf8574t::DualHD44780_PCF8574TAdapter::controller_row(0) == (0usize, 0u8),
        dual_controller_pcf8574t::DualHD44780_PCF8574TAdapter::controller_row(1) == (0usize, 1u8),
        dual_controller_pcf8574t::DualHD44780_PCF8574TAdapter::controller_row(2) == (1usize, 0u8),
        dual_controller_pcf8574t::DualHD44780_PCF8574TAdapter::controller_row(3) == (1usize, 1u8),
        generic_pcf8574t::GenericPCF8574TAdapter::controller_row(row) == (0usize, row),
        adafruit_lcd_backpack::AdafruitLCDBackpackAdapter::controller_row(row) == (0usize, row),
{
}

} // verus!
