use i2c_character_display::bus::{BusAction, BusPlan};
use i2c_character_display::driver::hd44780::adapter::adafruit_lcd_backpack::AdafruitLCDBackpackAdapter;
use i2c_character_display::driver::hd44780::adapter::dual_controller_pcf8574t::DualHD44780_PCF8574TAdapter;
use i2c_character_display::driver::hd44780::adapter::generic_pcf8574t::GenericPCF8574TAdapter;
use i2c_character_display::driver::hd44780::adapter::{HD44780AdapterTrait, HD44780DeviceTrait};
use i2c_character_display::driver::hd44780::HD44780;
use i2c_character_display::driver::{DeviceHardwareTrait, DisplayActionsTrait};
use i2c_character_display::{CharacterDisplayError, DeviceSetupConfig, LcdDisplayType};

fn write(address: u8, bytes: Vec<u8>) -> BusAction {
    BusAction::Write { address, bytes }
}

/// The writes and reads of a plan, without its waits.
fn traffic(plan: &BusPlan) -> Vec<BusAction> {
    plan.actions()
        .iter()
        .filter(|a| matches!(a, BusAction::Write { .. } | BusAction::Read { .. }))
        .cloned()
        .collect()
}

/// Initializes a display as its owner does: the device plans its power-on sequence and the
/// actions take over the mode bytes that it leaves.
fn init<D: HD44780DeviceTrait>(
    device: &mut D,
    actions: &mut HD44780<D>,
) -> Result<BusPlan, CharacterDisplayError> {
    let ((display_function, display_control, display_mode), plan) = device.init()?;
    actions.init_display_state(display_function, display_control, display_mode)?;
    Ok(plan)
}

#[test]
fn test_character_display_pcf8574t_init() {
    let i2c_address = 0x27_u8;
    let expected_i2c_transactions = vec![
        // the PCF8574T has no adapter init sequence, so nothing to prepend
        // the LCD init sequence
        // write low nibble of 0x03 3 times
        write(i2c_address, vec![0b0011_0100]), // low nibble, rw=0, enable=1
        write(i2c_address, vec![0b0011_0000]), // low nibble, rw=0, enable=0
        write(i2c_address, vec![0b0011_0100]), // low nibble, rw=0, enable=1
        write(i2c_address, vec![0b0011_0000]), // low nibble, rw=0, enable=0
        write(i2c_address, vec![0b0011_0100]), // low nibble, rw=0, enable=1
        write(i2c_address, vec![0b0011_0000]), // low nibble, rw=0, enable=0
        // write high nibble of 0x02 one time
        write(i2c_address, vec![0b0010_0100]), // high nibble, rw=0, enable=1
        write(i2c_address, vec![0b0010_0000]), // high nibble, rw=0, enable=0
        // LCD_CMD_FUNCTIONSET | LCD_FLAG_4BITMODE | LCD_FLAG_5x8_DOTS | LCD_FLAG_2LINE
        // = 0x20 | 0x00 | 0x00 | 0x08 = 0x28
        write(i2c_address, vec![0b0010_0100]), // high nibble, rw=0, enable=1
        write(i2c_address, vec![0b0010_0000]), // high nibble, rw=0, enable=0
        write(i2c_address, vec![0b1000_0100]), // low nibble, rw=0, enable=1
        write(i2c_address, vec![0b1000_0000]), // low nibble, rw=0, enable=0
        // LCD_CMD_DISPLAYCONTROL | LCD_FLAG_DISPLAYON | LCD_FLAG_CURSOROFF | LCD_FLAG_BLINKOFF
        // = 0x08 | 0x04 | 0x00 | 0x00 = 0x0C
        write(i2c_address, vec![0b0000_0100]), // high nibble, rw=0, enable=1
        write(i2c_address, vec![0b0000_0000]), // high nibble, rw=0, enable=0
        write(i2c_address, vec![0b1100_0100]), // low nibble, rw=0, enable=1
        write(i2c_address, vec![0b1100_0000]), // low nibble, rw=0, enable=0
        // LCD_CMD_ENTRYMODESET | LCD_FLAG_ENTRYLEFT | LCD_FLAG_ENTRYSHIFTDECREMENT
        // = 0x04 | 0x02 | 0x00 = 0x06
        write(i2c_address, vec![0b0000_0100]), // high nibble, rw=0, enable=1
        write(i2c_address, vec![0b0000_0000]), // high nibble, rw=0, enable=0
        write(i2c_address, vec![0b0110_0100]), // low nibble, rw=0, enable=1
        write(i2c_address, vec![0b0110_0000]), // low nibble, rw=0, enable=0
        // LCD_CMD_CLEARDISPLAY
        // = 0x01
        write(i2c_address, vec![0b0000_0100]), // high nibble, rw=0, enable=1
        write(i2c_address, vec![0b0000_0000]), // high nibble, rw=0, enable=0
        write(i2c_address, vec![0b0001_0100]), // low nibble, rw=0, enable=1
        write(i2c_address, vec![0b0001_0000]), // low nibble, rw=0, enable=0
        // LCD_CMD_RETURNHOME
        // = 0x02
        write(i2c_address, vec![0b0000_0100]), // high nibble, rw=0, enable=1
        write(i2c_address, vec![0b0000_0000]), // high nibble, rw=0, enable=0
        write(i2c_address, vec![0b0010_0100]), // low nibble, rw=0, enable=1
        write(i2c_address, vec![0b0010_0000]), // low nibble, rw=0, enable=0
        // Set Backlight
        write(i2c_address, vec![0b0010_1000]), // backlight on
    ];

    assert_eq!(GenericPCF8574TAdapter::default_i2c_address(), i2c_address);
    let mut device = GenericPCF8574TAdapter::new(DeviceSetupConfig {
        lcd_type: LcdDisplayType::Lcd16x2,
        address: GenericPCF8574TAdapter::default_i2c_address(),
    });
    let mut actions = HD44780::<GenericPCF8574TAdapter>::default();
    let result = init(&mut device, &mut actions);
    assert!(result.is_ok());
    assert_eq!(traffic(&result.unwrap()), expected_i2c_transactions);
}

#[test]
fn test_adafruit_lcd_backpack_init() {
    let i2c_address = 0x20_u8;
    let expected_i2c_transactions = vec![
        // the Adafruit Backpack need to init the adapter IC first
        // write 0x00 to the MCP23008 IODIR register to set all pins as outputs
        write(i2c_address, vec![0x00, 0x00]),
        // the LCD init sequence
        // write low nibble of 0x03 3 times
        write(i2c_address, vec![0x09, 0b0_0011_100]), // low nibble, rw=0, enable=1
        write(i2c_address, vec![0x09, 0b0_0011_000]), // low nibble, rw=0, enable=0
        write(i2c_address, vec![0x09, 0b0_0011_100]), // low nibble, rw=0, enable=1
        write(i2c_address, vec![0x09, 0b0_0011_000]), // low nibble, rw=0, enable=0
        write(i2c_address, vec![0x09, 0b0_0011_100]), // low nibble, rw=0, enable=1
        write(i2c_address, vec![0x09, 0b0_0011_000]), // low nibble, rw=0, enable=0
        // write high nibble of 0x02 one time
        write(i2c_address, vec![0x09, 0b0_0010_100]), // high nibble, rw=0, enable=1
        write(i2c_address, vec![0x09, 0b0_0010_000]), // high nibble, rw=0, enable=0
        // LCD_CMD_FUNCTIONSET | LCD_FLAG_4BITMODE | LCD_FLAG_5x8_DOTS | LCD_FLAG_2LINE
        // = 0x20 | 0x00 | 0x00 | 0x08 = 0x28
        write(i2c_address, vec![0x09, 0b0_0010_100]), // high nibble, rw=0, enable=1
        write(i2c_address, vec![0x09, 0b0_0010_000]), // high nibble, rw=0, enable=0
        write(i2c_address, vec![0x09, 0b0_1000_100]), // low nibble, rw=0, enable=1
        write(i2c_address, vec![0x09, 0b0_1000_000]), // low nibble, rw=0, enable=0
        // LCD_CMD_DISPLAYCONTROL | LCD_FLAG_DISPLAYON | LCD_FLAG_CURSOROFF | LCD_FLAG_BLINKOFF
        // = 0x08 | 0x04 | 0x00 | 0x00 = 0x0C
        write(i2c_address, vec![0x09, 0b0_0000_100]), // high nibble, rw=0, enable=1
        write(i2c_address, vec![0x09, 0b0_0000_000]), // high nibble, rw=0, enable=0
        write(i2c_address, vec![0x09, 0b0_1100_100]), // low nibble, rw=0, enable=1
        write(i2c_address, vec![0x09, 0b0_1100_000]), // low nibble, rw=0, enable=0
        // LCD_CMD_ENTRYMODESET | LCD_FLAG_ENTRYLEFT | LCD_FLAG_ENTRYSHIFTDECREMENT
        // = 0x04 | 0x02 | 0x00 = 0x06
        write(i2c_address, vec![0x09, 0b0_0000_100]), // high nibble, rw=0, enable=1
        write(i2c_address, vec![0x09, 0b0_0000_000]), // high nibble, rw=0, enable=0
        write(i2c_address, vec![0x09, 0b0_0110_100]), // low nibble, rw=0, enable=1
        write(i2c_address, vec![0x09, 0b0_0110_000]), // low nibble, rw=0, enable=0
        // LCD_CMD_CLEARDISPLAY
        // = 0x01
        write(i2c_address, vec![0x09, 0b0_0000_100]), // high nibble, rw=0, enable=1
        write(i2c_address, vec![0x09, 0b0_0000_000]), // high nibble, rw=0, enable=0
        write(i2c_address, vec![0x09, 0b0_0001_100]), // low nibble, rw=0, enable=1
        write(i2c_address, vec![0x09, 0b0_0001_000]), // low nibble, rw=0, enable=0
        // LCD_CMD_RETURNHOME
        // = 0x02
        write(i2c_address, vec![0x09, 0b0_0000_100]), // high nibble, rw=0, enable=1
        write(i2c_address, vec![0x09, 0b0_0000_000]), // high nibble, rw=0, enable=0
        write(i2c_address, vec![0x09, 0b0_0010_100]), // low nibble, rw=0, enable=1
        write(i2c_address, vec![0x09, 0b0_0010_000]), // low nibble, rw=0, enable=0
        // Set Backlight
        write(i2c_address, vec![0x09, 0b1_0010_000]), // backlight on
    ];

    assert_eq!(AdafruitLCDBackpackAdapter::default_i2c_address(), i2c_address);
    let mut device = AdafruitLCDBackpackAdapter::new(DeviceSetupConfig {
        lcd_type: LcdDisplayType::Lcd16x2,
        address: AdafruitLCDBackpackAdapter::default_i2c_address(),
    });
    let mut actions = HD44780::<AdafruitLCDBackpackAdapter>::default();

    let result = init(&mut device, &mut actions);
    assert!(result.is_ok());
    assert!(device.lcd_type() == LcdDisplayType::Lcd16x2);
    assert_eq!(traffic(&result.unwrap()), expected_i2c_transactions);
}

#[test]
fn test_character_display_dual_hd44780_init() {
    let i2c_address = 0x27_u8;
    let mut expected_i2c_transactions = Vec::new();
    // the PCF8574T has no adapter init sequence, so nothing to prepend
    // *** Device 0 ***, then *** Device 1 ***: the enable line is bit 2, then bit 1
    for enable in [0b0000_0100u8, 0b0000_0010u8] {
        expected_i2c_transactions.extend(vec![
            // write low nibble of 0x03 3 times
            write(i2c_address, vec![0b0011_0000 | enable]), // low nibble, rw=0, enable=1
            write(i2c_address, vec![0b0011_0000]),          // low nibble, rw=0, enable=0
            write(i2c_address, vec![0b0011_0000 | enable]), // low nibble, rw=0, enable=1
            write(i2c_address, vec![0b0011_0000]),          // low nibble, rw=0, enable=0
            write(i2c_address, vec![0b0011_0000 | enable]), // low nibble, rw=0, enable=1
            write(i2c_address, vec![0b0011_0000]),          // low nibble, rw=0, enable=0
            // write high nibble of 0x02 one time
            write(i2c_address, vec![0b0010_0000 | enable]), // high nibble, rw=0, enable=1
            write(i2c_address, vec![0b0010_0000]),          // high nibble, rw=0, enable=0
            // LCD_CMD_FUNCTIONSET | LCD_FLAG_4BITMODE | LCD_FLAG_5x8_DOTS | LCD_FLAG_2LINE
            // = 0x20 | 0x00 | 0x00 | 0x08 = 0x28
            write(i2c_address, vec![0b0010_0000 | enable]), // high nibble, rw=0, enable=1
            write(i2c_address, vec![0b0010_0000]),          // high nibble, rw=0, enable=0
            write(i2c_address, vec![0b1000_0000 | enable]), // low nibble, rw=0, enable=1
            write(i2c_address, vec![0b1000_0000]),          // low nibble, rw=0, enable=0
            // LCD_CMD_DISPLAYCONTROL | LCD_FLAG_DISPLAYON | LCD_FLAG_CURSOROFF | LCD_FLAG_BLINKOFF
            // = 0x08 | 0x04 | 0x00 | 0x00 = 0x0C
            write(i2c_address, vec![0b0000_0000 | enable]), // high nibble, rw=0, enable=1
            write(i2c_address, vec![0b0000_0000]),          // high nibble, rw=0, enable=0
            write(i2c_address, vec![0b1100_0000 | enable]), // low nibble, rw=0, enable=1
            write(i2c_address, vec![0b1100_0000]),          // low nibble, rw=0, enable=0
            // LCD_CMD_ENTRYMODESET | LCD_FLAG_ENTRYLEFT | LCD_FLAG_ENTRYSHIFTDECREMENT
            // = 0x04 | 0x02 | 0x00 = 0x06
            write(i2c_address, vec![0b0000_0000 | enable]), // high nibble, rw=0, enable=1
            write(i2c_address, vec![0b0000_0000]),          // high nibble, rw=0, enable=0
            write(i2c_address, vec![0b0110_0000 | enable]), // low nibble, rw=0, enable=1
            write(i2c_address, vec![0b0110_0000]),          // low nibble, rw=0, enable=0
            // LCD_CMD_CLEARDISPLAY
            // = 0x01
            write(i2c_address, vec![0b0000_0000 | enable]), // high nibble, rw=0, enable=1
            write(i2c_address, vec![0b0000_0000]),          // high nibble, rw=0, enable=0
            write(i2c_address, vec![0b0001_0000 | enable]), // low nibble, rw=0, enable=1
            write(i2c_address, vec![0b0001_0000]),          // low nibble, rw=0, enable=0
            // LCD_CMD_RETURNHOME
            // = 0x02
            write(i2c_address, vec![0b0000_0000 | enable]), // high nibble, rw=0, enable=1
            write(i2c_address, vec![0b0000_0000]),          // high nibble, rw=0, enable=0
            write(i2c_address, vec![0b0010_0000 | enable]), // low nibble, rw=0, enable=1
            write(i2c_address, vec![0b0010_0000]),          // low nibble, rw=0, enable=0
        ]);
    }
    // Set Backlight
    expected_i2c_transactions.push(write(i2c_address, vec![0b0010_1000])); // backlight on

    assert_eq!(DualHD44780_PCF8574TAdapter::default_i2c_address(), i2c_address);
    let mut device = DualHD44780_PCF8574TAdapter::new(DeviceSetupConfig {
        lcd_type: LcdDisplayType::Lcd40x4,
        address: DualHD44780_PCF8574TAdapter::default_i2c_address(),
    });
    let mut actions = HD44780::<DualHD44780_PCF8574TAdapter>::default();
    let result = init(&mut device, &mut actions);
    assert!(result.is_ok());
    assert!(device.lcd_type() == LcdDisplayType::Lcd40x4);
    assert_eq!(traffic(&result.unwrap()), expected_i2c_transactions);
    assert_eq!(actions.active_controller(), 0);
}

#[test]
fn init_refuses_a_panel_that_the_adapter_cannot_drive() {
    let mut device = GenericPCF8574TAdapter::new(DeviceSetupConfig {
        lcd_type: LcdDisplayType::Lcd40x4,
        address: 0x27,
    });
    let mut actions = HD44780::<GenericPCF8574TAdapter>::default();
    assert_eq!(
        init(&mut device, &mut actions),
        Err(CharacterDisplayError::UnsupportedDisplayType)
    );
    assert_eq!(device.bits(), 0);
    let mut device = AdafruitLCDBackpackAdapter::new(DeviceSetupConfig {
        lcd_type: LcdDisplayType::Lcd40x4,
        address: 0x20,
    });
    assert_eq!(device.adapter_init().err(), Some(CharacterDisplayError::UnsupportedDisplayType));
}

#[test]
fn errors_say_what_they_are() {
    assert_eq!(CharacterDisplayError::I2cError.message(), "I2C error");
    assert_eq!(CharacterDisplayError::RowOutOfRange.message(), "Row out of range");
    assert_eq!(CharacterDisplayError::ColumnOutOfRange.message(), "Column out of range");
    assert_eq!(CharacterDisplayError::FormattingError.message(), "Formatting error");
    assert_eq!(CharacterDisplayError::UnsupportedDisplayType.message(), "Unsupported display type");
    assert_eq!(CharacterDisplayError::UnsupportedOperation.message(), "Unsupported operation");
    assert_eq!(CharacterDisplayError::ReadNotSupported.message(), "Read operation not supported");
    assert_eq!(CharacterDisplayError::BadDeviceId.message(), "Bad device ID");
    assert_eq!(CharacterDisplayError::BufferTooSmall.message(), "Buffer too small");
}
