use embedded_hal::delay::DelayNs;
use embedded_hal::i2c::I2c;
use embedded_hal_mock::eh1::delay::NoopDelay;
use embedded_hal_mock::eh1::i2c::{Mock as I2cMock, Transaction as I2cTransaction};
use i2c_character_display::bus::{BusAction, BusPlan};
use i2c_character_display::driver::hd44780::adapter::generic_pcf8574t::GenericPCF8574TAdapter;
use i2c_character_display::driver::hd44780::adapter::HD44780AdapterTrait;
use i2c_character_display::driver::hd44780::read::{ReadSession, ReadStep};
use i2c_character_display::driver::hd44780::GenericHD44780PCF8574T;
use i2c_character_display::driver::{DeviceHardwareTrait, DisplayActionsTrait};
use i2c_character_display::{DeviceSetupConfig, LcdDisplayType};

/// Performs a plan on a bus, step by step, and returns what its reads brought back.
fn perform<I2C: I2c, DELAY: DelayNs>(
    plan: BusPlan,
    i2c: &mut I2C,
    delay: &mut DELAY,
) -> Result<Vec<u8>, I2C::Error> {
    let mut replies = Vec::new();
    for action in plan.into_actions() {
        match action {
            BusAction::Write { address, bytes } => i2c.write(address, &bytes)?,
            BusAction::Read { address } => {
                let mut byte = [0u8];
                i2c.read(address, &mut byte)?;
                replies.push(byte[0]);
            }
            BusAction::DelayMs(ms) => delay.delay_ms(ms),
            BusAction::DelayUs(us) => delay.delay_us(us),
        }
    }
    Ok(replies)
}

/// Performs the plans of a read until the read is over.
fn read<I2C: I2c, DELAY: DelayNs>(
    mut session: ReadSession,
    i2c: &mut I2C,
    delay: &mut DELAY,
) -> Vec<u8> {
    let mut replies = Vec::new();
    loop {
        match session.step(&replies) {
            ReadStep::Perform(plan) => replies = perform(plan, i2c, delay).unwrap(),
            ReadStep::Finished(result) => return result.unwrap(),
        }
    }
}

#[test]
fn print_on_a_mock_bus() {
    let i2c_address = 0x27_u8;
    let expected_i2c_transactions = vec![
        I2cTransaction::write(i2c_address, vec![0b0110_0101]), // 'h' 0x68 - high nibble, enable=1
        I2cTransaction::write(i2c_address, vec![0b0110_0001]), // 'h' 0x68 - high nibble, enable=0
        I2cTransaction::write(i2c_address, vec![0b1000_0101]), // 'h' 0x68 - low nibble, enable=1
        I2cTransaction::write(i2c_address, vec![0b1000_0001]), // 'h' 0x68 - low nibble, enable=0
        I2cTransaction::write(i2c_address, vec![0b0110_0101]), // 'i' 0x69 - high nibble, enable=1
        I2cTransaction::write(i2c_address, vec![0b0110_0001]), // 'i' 0x69 - high nibble, enable=0
        I2cTransaction::write(i2c_address, vec![0b1001_0101]), // 'i' 0x69 - low nibble, enable=1
        I2cTransaction::write(i2c_address, vec![0b1001_0001]), // 'i' 0x69 - low nibble, enable=0
    ];
    let mut i2c = I2cMock::new(&expected_i2c_transactions);
    let mut delay = NoopDelay::new();
    let mut driver = GenericHD44780PCF8574T::new_adapter(DeviceSetupConfig {
        address: i2c_address,
        lcd_type: LcdDisplayType::Lcd16x4,
    });
    let mut actions = GenericHD44780PCF8574T::default();
    let plan = actions.print(&mut driver, "hi").unwrap();
    assert_eq!(perform(plan, &mut i2c, &mut delay), Ok(vec![]));
    i2c.done();
}

#[test]
fn init_on_a_mock_bus() {
    let i2c_address = 0x27_u8;
    let mut expected_i2c_transactions = Vec::new();
    for byte in [
        0x34u8, 0x30, 0x34, 0x30, 0x34, 0x30, 0x24, 0x20, // 0x3 three times, then 0x2
        0x24, 0x20, 0x84, 0x80, // function set 0x28
        0x04, 0x00, 0xC4, 0xC0, // display control 0x0C
        0x04, 0x00, 0x64, 0x60, // entry mode 0x06
        0x04, 0x00, 0x14, 0x10, // clear
        0x04, 0x00, 0x24, 0x20, // home
        0x28, // backlight on
    ] {
        expected_i2c_transactions.push(I2cTransaction::write(i2c_address, vec![byte]));
    }
    let mut i2c = I2cMock::new(&expected_i2c_transactions);
    let mut delay = NoopDelay::new();
    let mut driver = GenericPCF8574TAdapter::new(DeviceSetupConfig {
        address: i2c_address,
        lcd_type: LcdDisplayType::Lcd16x2,
    });
    let (_, plan) = driver.init().unwrap();
    assert_eq!(perform(plan, &mut i2c, &mut delay), Ok(vec![]));
    i2c.done();
}

#[test]
fn read_on_a_mock_bus() {
    let poll = |reply: u8| {
        vec![
            I2cTransaction::write(0x27, vec![0b11110010]),
            I2cTransaction::write(0x27, vec![0b11110110]),
            I2cTransaction::read(0x27, vec![reply]),
            I2cTransaction::write(0x27, vec![0b11110010]),
            I2cTransaction::write(0x27, vec![0b11110010]),
            I2cTransaction::write(0x27, vec![0b11110110]),
            I2cTransaction::write(0x27, vec![0b11110010]),
        ]
    };
    let fetch = |high: u8, low: u8| {
        vec![
            I2cTransaction::write(0x27, vec![0b11110010]),
            I2cTransaction::write(0x27, vec![0b11110110]),
            I2cTransaction::read(0x27, vec![high]),
            I2cTransaction::write(0x27, vec![0b11110010]),
            I2cTransaction::write(0x27, vec![0b11110110]),
            I2cTransaction::read(0x27, vec![low]),
            I2cTransaction::write(0x27, vec![0b11110010]),
        ]
    };
    let mut expected_transactions = Vec::new();
    expected_transactions.extend(poll(0b10100110)); // busy
    expected_transactions.extend(poll(0b00100110)); // not busy
    expected_transactions.extend(fetch(0b11010110, 0b11100110)); // $DE
    expected_transactions.extend(poll(0b00100110)); // not busy
    expected_transactions.extend(fetch(0b10100110, 0b11010110)); // $AD
    let mut i2c = I2cMock::new(&expected_transactions);
    let mut delay = NoopDelay::new();
    let mut adapter = GenericPCF8574TAdapter::new(DeviceSetupConfig {
        address: 0x27,
        lcd_type: LcdDisplayType::Lcd16x4,
    });
    let session = adapter.read_bytes_from_controller(0, false, 2).unwrap();
    assert_eq!(read(session, &mut i2c, &mut delay), vec![0xDE, 0xAD]);
    i2c.done();
}
