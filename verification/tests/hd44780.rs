use i2c_character_display::bus::{BusAction, BusPlan};
use i2c_character_display::driver::hd44780::adapter::HD44780AdapterTrait;
use i2c_character_display::driver::hd44780::read::ReadStep;
use i2c_character_display::driver::hd44780::{
    AdafruitLCDBackpack, DualHD44780PCF8574T, GenericHD44780PCF8574T,
};
use i2c_character_display::driver::{DeviceHardwareTrait, DisplayActionsTrait};
use i2c_character_display::{CharacterDisplayError, DeviceSetupConfig, LcdDisplayType};

fn write(address: u8, bytes: Vec<u8>) -> BusAction {
    BusAction::Write { address, bytes }
}

/// The writes and reads of a plan, without its waits.
fn traffic(plan: &BusPlan) -> Vec<BusAction> {
    plan.actions()
        .iter()
        .filter(|a| matches!(a, BusAction::Write { .. } | BusAction::Read { .. }))
        .cloned()
        .collect()
}

/// The four writes that carry a byte through a PCF8574T port whose other lines stand at
/// `lines`, with the enable line on bit `enable`.
fn byte_writes(address: u8, value: u8, lines: u8, enable: u8) -> Vec<BusAction> {
    vec![
        write(address, vec![(value & 0xF0) | lines | enable]),
        write(address, vec![(value & 0xF0) | lines]),
        write(address, vec![(value << 4) | lines | enable]),
        write(address, vec![(value << 4) | lines]),
    ]
}

#[test]
fn test_generic_hd44780_pcf8574t_init() {
    let i2c_address = 0x27_u8;
    let expected_i2c_transactions = vec![
        // the PCF8574T has no adapter init sequence, so nothing to prepend
        // the LCD init sequence
        // write low nibble of 0x03 3 times
        write(i2c_address, vec![0b0011_0100]), // low nibble, rw=0, enable=1
        write(i2c_address, vec![0b0011_0000]), // low nibble, rw=0, enable=0
        write(i2c_address, vec![0b0011_0100]), // low nibble, rw=0, enable=1
        write(i2c_address, vec![0b0011_0000]), // low nibble, rw=0, enable=0
        write(i2c_address, vec![0b0011_0100]), // low nibble, rw=0, enable=1
        write(i2c_address, vec![0b0011_0000]), // low nibble, rw=0, enable=0
        // write high nibble of 0x02 one time
        write(i2c_address, vec![0b0010_0100]), // high nibble, rw=0, enable=1
        write(i2c_address, vec![0b0010_0000]), // high nibble, rw=0, enable=0
        // LCD_CMD_FUNCTIONSET | LCD_FLAG_4BITMODE | LCD_FLAG_5x8_DOTS | LCD_FLAG_2LINE
        // = 0x20 | 0x00 | 0x00 | 0x08 = 0x28
        write(i2c_address, vec![0b0010_0100]), // high nibble, rw=0, enable=1
        write(i2c_address, vec![0b0010_0000]), // high nibble, rw=0, enable=0
        write(i2c_address, vec![0b1000_0100]), // low nibble, rw=0, enable=1
        write(i2c_address, vec![0b1000_0000]), // low nibble, rw=0, enable=0
        // LCD_CMD_DISPLAYCONTROL | LCD_FLAG_DISPLAYON | LCD_FLAG_CURSOROFF | LCD_FLAG_BLINKOFF
        // = 0x08 | 0x04 | 0x00 | 0x00 = 0x0C
        write(i2c_address, vec![0b0000_0100]), // high nibble, rw=0, enable=1
        write(i2c_address, vec![0b0000_0000]), // high nibble, rw=0, enable=0
        write(i2c_address, vec![0b1100_0100]), // low nibble, rw=0, enable=1
        write(i2c_address, vec![0b1100_0000]), // low nibble, rw=0, enable=0
        // LCD_CMD_ENTRYMODESET | LCD_FLAG_ENTRYLEFT | LCD_FLAG_ENTRYSHIFTDECREMENT
        // = 0x04 | 0x02 | 0x00 = 0x06
        write(i2c_address, vec![0b0000_0100]), // high nibble, rw=0, enable=1
        write(i2c_address, vec![0b0000_0000]), // high nibble, rw=0, enable=0
        write(i2c_address, vec![0b0110_0100]), // low nibble, rw=0, enable=1
        write(i2c_address, vec![0b0110_0000]), // low nibble, rw=0, enable=0
        // LCD_CMD_CLEARDISPLAY
        // = 0x01
        write(i2c_address, vec![0b0000_0100]), // high nibble, rw=0, enable=1
        write(i2c_address, vec![0b0000_0000]), // high nibble, rw=0, enable=0
        write(i2c_address, vec![0b0001_0100]), // low nibble, rw=0, enable=1
        write(i2c_address, vec![0b0001_0000]), // low nibble, rw=0, enable=0
        // LCD_CMD_RETURNHOME
        // = 0x02
        write(i2c_address, vec![0b0000_0100]), // high nibble, rw=0, enable=1
        write(i2c_address, vec![0b0000_0000]), // high nibble, rw=0, enable=0
        write(i2c_address, vec![0b0010_0100]), // low nibble, rw=0, enable=1
        write(i2c_address, vec![0b0010_0000]), // low nibble, rw=0, enable=0
        // Set Backlight
        write(i2c_address, vec![0b0010_1000]), // backlight on
    ];

    let device = DeviceSetupConfig { address: i2c_address, lcd_type: LcdDisplayType::Lcd16x4 };
    let mut driver = GenericHD44780PCF8574T::new_adapter(device);
    let result = driver.init();
    assert!(result.is_ok());
    let (modes, plan) = result.unwrap();
    assert_eq!(modes, (0x08, 0x04, 0x02));
    assert_eq!(traffic(&plan), expected_i2c_transactions);
}

#[test]
fn init_waits_as_the_controller_needs() {
    let device = DeviceSetupConfig { address: 0x27, lcd_type: LcdDisplayType::Lcd16x2 };
    let mut driver = GenericHD44780PCF8574T::new_adapter(device);
    let (_, plan) = driver.init().unwrap();
    let actions = plan.into_actions();
    let waits: Vec<(usize, BusAction)> = actions
        .iter()
        .cloned()
        .enumerate()
        .filter(|(_, a)| matches!(a, BusAction::DelayMs(_) | BusAction::DelayUs(_)))
        .collect();
    assert_eq!(
        waits,
        vec![
            (2, BusAction::DelayMs(5)),
            (5, BusAction::DelayMs(5)),
            (8, BusAction::DelayUs(150)),
            // 0x02, function set, display control, entry mode and clear: 2 + 4 * 4 writes
            (27, BusAction::DelayMs(2)),
            (32, BusAction::DelayMs(2)),
        ]
    );
    assert_eq!(actions.len(), 34);
    assert_eq!(actions[33], write(0x27, vec![0b0010_1000]));
}

#[test]
fn test_generic_hd44780_pcf8574t_set_backlight() {
    let i2c_address = 0x27_u8;
    let expected_i2c_transactions = vec![
        write(i2c_address, vec![0b0000_1000]), // backlight on
        write(i2c_address, vec![0b0000_0000]), // backlight off
    ];
    let mut driver = GenericHD44780PCF8574T::new_adapter(DeviceSetupConfig {
        address: i2c_address,
        lcd_type: LcdDisplayType::Lcd16x4,
    });
    let mut actions = GenericHD44780PCF8574T::default();

    let mut bus = Vec::new();
    let on = actions.backlight(&mut driver, true);
    assert!(on.is_ok());
    bus.extend(on.unwrap().into_actions());
    let off = actions.backlight(&mut driver, false);
    assert!(off.is_ok());
    bus.extend(off.unwrap().into_actions());
    assert_eq!(bus, expected_i2c_transactions);
}

#[test]
fn test_generic_hd44780_pcf8574t_print() {
    let i2c_address = 0x27_u8;
    let expected_i2c_transactions = vec![
        // print "hello" to the display
        write(i2c_address, vec![0b0110_0101]), // 'h' 0x68 - high nibble, rw=0, enable=1
        write(i2c_address, vec![0b0110_0001]), // 'h' 0x68 - high nibble, rw=0, enable=0
        write(i2c_address, vec![0b1000_0101]), // 'h' 0x68 - low nibble, rw=0, enable=1
        write(i2c_address, vec![0b1000_0001]), // 'h' 0x68 - low nibble, rw=0, enable=0
        write(i2c_address, vec![0b0110_0101]), // 'e' 0x65 - high nibble, rw=0, enable=1
        write(i2c_address, vec![0b0110_0001]), // 'e' 0x65 - high nibble, rw=0, enable=0
        write(i2c_address, vec![0b0101_0101]), // 'e' 0x65 - low nibble, rw=0, enable=1
        write(i2c_address, vec![0b0101_0001]), // 'e' 0x65 - low nibble, rw=0, enable=0
        write(i2c_address, vec![0b0110_0101]), // 'l' 0x6C - high nibble, rw=0, enable=1
        write(i2c_address, vec![0b0110_0001]), // 'l' 0x6C - high nibble, rw=0, enable=0
        write(i2c_address, vec![0b1100_0101]), // 'l' 0x6C - low nibble, rw=0, enable=1
        write(i2c_address, vec![0b1100_0001]), // 'l' 0x6C - low nibble, rw=0, enable=0
        write(i2c_address, vec![0b0110_0101]), // 'l' 0x6C - high nibble, rw=0, enable=1
        write(i2c_address, vec![0b0110_0001]), // 'l' 0x6C - high nibble, rw=0, enable=0
        write(i2c_address, vec![0b1100_0101]), // 'l' 0x6C - low nibble, rw=0, enable=1
        write(i2c_address, vec![0b1100_0001]), // 'l' 0x6C - low nibble, rw=0, enable=0
        write(i2c_address, vec![0b0110_0101]), // 'o' 0x6F - high nibble, rw=0, enable=1
        write(i2c_address, vec![0b0110_0001]), // 'o' 0x6F - high nibble, rw=0, enable=0
        write(i2c_address, vec![0b1111_0101]), // 'o' 0x6F - low nibble, rw=0, enable=1
        write(i2c_address, vec![0b1111_0001]), // 'o' 0x6F - low nibble, rw=0, enable=0
    ];
    let mut driver = GenericHD44780PCF8574T::new_adapter(DeviceSetupConfig {
        address: i2c_address,
        lcd_type: LcdDisplayType::Lcd16x4,
    });
    let mut actions = GenericHD44780PCF8574T::default();

    let plan = actions.print(&mut driver, "hello");
    assert!(plan.is_ok());
    let plan = plan.unwrap();
    assert_eq!(traffic(&plan), expected_i2c_transactions);
    // each character is followed by its wait
    let all = plan.into_actions();
    assert_eq!(all.len(), 25);
    for i in 0..5 {
        assert_eq!(all[5 * i + 4], BusAction::DelayUs(43));
    }
}

#[test]
fn print_sends_the_low_byte_of_each_character() {
    let mut driver = GenericHD44780PCF8574T::new_adapter(DeviceSetupConfig {
        address: 0x27,
        lcd_type: LcdDisplayType::Lcd16x2,
    });
    let mut actions = GenericHD44780PCF8574T::default();
    // U+00E9 and U+2192: one byte each, 0xE9 and 0x92
    let plan = actions.print(&mut driver, "\u{e9}\u{2192}").unwrap();
    let mut expected = byte_writes(0x27, 0xE9, 0b0001, 0b0100);
    expected.extend(byte_writes(0x27, 0x92, 0b0001, 0b0100));
    assert_eq!(traffic(&plan), expected);
    assert_eq!(actions.print(&mut driver, "").unwrap().len(), 0);
}

#[test]
fn test_set_cursor_out_of_range() {
    let i2c_address = 0x27_u8;
    let mut driver = GenericHD44780PCF8574T::new_adapter(DeviceSetupConfig {
        address: i2c_address,
        lcd_type: LcdDisplayType::Lcd16x4,
    });
    let mut actions = GenericHD44780PCF8574T::default();

    assert!(actions.set_cursor(&mut driver, 20, 0).is_err());
    assert!(actions.set_cursor(&mut driver, 0, 20).is_err());
}

#[test]
fn set_cursor_names_what_is_out_of_range() {
    let mut driver = GenericHD44780PCF8574T::new_adapter(DeviceSetupConfig {
        address: 0x27,
        lcd_type: LcdDisplayType::Lcd16x2,
    });
    let mut actions = GenericHD44780PCF8574T::default();
    assert_eq!(actions.set_cursor(&mut driver, 16, 0), Err(CharacterDisplayError::ColumnOutOfRange));
    assert_eq!(actions.set_cursor(&mut driver, 0, 2), Err(CharacterDisplayError::RowOutOfRange));
    // the row is looked at first
    assert_eq!(actions.set_cursor(&mut driver, 16, 2), Err(CharacterDisplayError::RowOutOfRange));
    assert_eq!(driver.bits(), 0);
    // the last cell: 0x80 | (15 + 0x40) = 0xCF
    let plan = actions.set_cursor(&mut driver, 15, 1).unwrap();
    assert_eq!(traffic(&plan), byte_writes(0x27, 0xCF, 0, 0b0100));
    assert_eq!(plan.into_actions()[4], BusAction::DelayUs(39));
}

#[test]
fn test_set_cursor_dual_controller() {
    let i2c_address = 0x27_u8;
    let expected = vec![
        // first set cursor to (20,1), which on first controller
        // command = LCD_CMD_SETDDRAMADDR = 0x80
        // cursor = 20 + (row 1 offset =0x40) = 0x14 + 0x40 = 0x54)
        // byte to send = 0x80 | 0x54 = 0xD4
        write(i2c_address, vec![0b1101_0100]), // high nibble 0xD, rw=0, enable1=1, enabl2=0
        write(i2c_address, vec![0b1101_0000]), // high nibble 0xD, rw=0, enable1=0, enabl2=0
        write(i2c_address, vec![0b0100_0100]), // low nibble 0x4, rw=0, enable1=1, enabl2=0
        write(i2c_address, vec![0b0100_0000]), // low nibble 0x4, rw=0, enable1=0, enabl2=0
        // now set cursor to (10,2), which is in the second controller
        // command = LCD_CMD_SETDDRAMADDR = 0x80
        // cursor = 10 + (2 row offset = 0x00) = 0x0A + 0x00
        // byte to send = 0x80 | 0x0A = 0x8A
        write(i2c_address, vec![0b1000_0010]), // high nibble 0x8, rw=0, enable1=0, enabl2=1
        write(i2c_address, vec![0b1000_0000]), // high nibble 0x8, rw=0, enable1=0, enabl2=0
        write(i2c_address, vec![0b1010_0010]), // low nibble 0xA, rw=0, enable1=0, enabl2=1
        write(i2c_address, vec![0b1010_0000]), // low nibble 0xA, rw=0, enable1=0, enabl2=0
    ];
    let mut driver = DualHD44780PCF8574T::new_adapter(DeviceSetupConfig {
        address: i2c_address,
        lcd_type: LcdDisplayType::Lcd40x4,
    });
    let mut actions = DualHD44780PCF8574T::default();

    let mut bus = Vec::new();
    let first = actions.set_cursor(&mut driver, 20, 1);
    assert!(first.is_ok());
    bus.extend(traffic(&first.unwrap()));
    assert_eq!(actions.active_controller(), 0);
    let second = actions.set_cursor(&mut driver, 10, 2);
    assert!(second.is_ok());
    bus.extend(traffic(&second.unwrap()));
    assert_eq!(actions.active_controller(), 1);
    assert_eq!(bus, expected);
}

#[test]
fn every_row_of_the_wide_panel_goes_to_its_controller() {
    let mut driver = DualHD44780PCF8574T::new_adapter(DeviceSetupConfig {
        address: 0x27,
        lcd_type: LcdDisplayType::Lcd40x4,
    });
    let mut actions = DualHD44780PCF8574T::default();
    // (row, controller, enable bit, address of column 39)
    for (row, controller, enable, command) in
        [(0u8, 0usize, 0b0100u8, 0xA7u8), (1, 0, 0b0100, 0xE7), (2, 1, 0b0010, 0xA7), (3, 1, 0b0010, 0xE7)]
    {
        let plan = actions.set_cursor(&mut driver, 39, row).unwrap();
        assert_eq!(actions.active_controller(), controller);
        assert_eq!(traffic(&plan), byte_writes(0x27, command, 0, enable));
    }
    assert_eq!(actions.set_cursor(&mut driver, 0, 4), Err(CharacterDisplayError::RowOutOfRange));
    assert_eq!(actions.set_cursor(&mut driver, 40, 3), Err(CharacterDisplayError::ColumnOutOfRange));
    assert_eq!(actions.active_controller(), 1);
    // text goes to the controller that the cursor is on
    let plan = actions.print(&mut driver, "A").unwrap();
    assert_eq!(traffic(&plan), byte_writes(0x27, 0x41, 0b0001, 0b0010));
    // home is the first controller's business
    let plan = actions.home(&mut driver).unwrap();
    assert_eq!(actions.active_controller(), 0);
    assert_eq!(traffic(&plan), byte_writes(0x27, 0x02, 0, 0b0100));
    assert_eq!(plan.into_actions()[4], BusAction::DelayUs(1530));
}

#[test]
fn commands_go_to_every_controller() {
    let mut driver = DualHD44780PCF8574T::new_adapter(DeviceSetupConfig {
        address: 0x27,
        lcd_type: LcdDisplayType::Lcd40x4,
    });
    let mut actions = DualHD44780PCF8574T::default();
    assert_eq!(actions.init_display_state(0x08, 0x04, 0x02), Ok(()));
    let both = |command: u8| {
        let mut expected = byte_writes(0x27, command, 0, 0b0100);
        expected.extend(byte_writes(0x27, command, 0, 0b0010));
        expected
    };
    assert_eq!(traffic(&actions.clear(&mut driver).unwrap()), both(0x01));
    assert_eq!(traffic(&actions.show_display(&mut driver, false).unwrap()), both(0x08));
    assert_eq!(traffic(&actions.show_display(&mut driver, true).unwrap()), both(0x0C));
    assert_eq!(traffic(&actions.scroll_left(&mut driver).unwrap()), both(0x18));
    assert_eq!(traffic(&actions.scroll_right(&mut driver).unwrap()), both(0x1C));
    assert_eq!(traffic(&actions.autoscroll(&mut driver, true).unwrap()), both(0x07));
    assert_eq!(traffic(&actions.autoscroll(&mut driver, false).unwrap()), both(0x06));
    assert_eq!(traffic(&actions.left_to_right(&mut driver).unwrap()), both(0x06));
    assert_eq!(traffic(&actions.right_to_left(&mut driver).unwrap()), both(0x04));
    assert_eq!(traffic(&actions.autoscroll(&mut driver, true).unwrap()), both(0x05));
    assert_eq!(traffic(&actions.right_to_left(&mut driver).unwrap()), both(0x05));
    assert_eq!(traffic(&actions.left_to_right(&mut driver).unwrap()), both(0x07));
    let plan = actions.clear(&mut driver).unwrap().into_actions();
    assert_eq!(plan.len(), 10);
    assert_eq!(plan[4], BusAction::DelayUs(1530));
    assert_eq!(plan[9], BusAction::DelayUs(1530));
}

#[test]
fn only_the_active_controller_shows_a_cursor() {
    let mut driver = DualHD44780PCF8574T::new_adapter(DeviceSetupConfig {
        address: 0x27,
        lcd_type: LcdDisplayType::Lcd40x4,
    });
    let mut actions = DualHD44780PCF8574T::default();
    assert_eq!(actions.init_display_state(0x08, 0x04, 0x02), Ok(()));
    let _ = actions.set_cursor(&mut driver, 0, 3).unwrap();
    let plan = actions.show_cursor(&mut driver, true).unwrap();
    let mut expected = byte_writes(0x27, 0x0C, 0, 0b0100);
    expected.extend(byte_writes(0x27, 0x0E, 0, 0b0010));
    assert_eq!(traffic(&plan), expected);
    let plan = actions.blink_cursor(&mut driver, true).unwrap();
    let mut expected = byte_writes(0x27, 0x0C, 0, 0b0100);
    expected.extend(byte_writes(0x27, 0x0F, 0, 0b0010));
    assert_eq!(traffic(&plan), expected);
    // the cursor moves to the first controller: the second is told to hide its own
    let _ = actions.set_cursor(&mut driver, 0, 0).unwrap();
    let plan = actions.show_cursor(&mut driver, true).unwrap();
    let mut expected = byte_writes(0x27, 0x0E, 0, 0b0100);
    expected.extend(byte_writes(0x27, 0x0D, 0, 0b0010));
    assert_eq!(traffic(&plan), expected);
}

#[test]
fn create_char_sends_the_pattern_to_every_controller() {
    let mut driver = GenericHD44780PCF8574T::new_adapter(DeviceSetupConfig {
        address: 0x27,
        lcd_type: LcdDisplayType::Lcd16x2,
    });
    let mut actions = GenericHD44780PCF8574T::default();
    let pattern = [0b11011, 0b10001, 0b11011, 0b00000, 0b00000, 0b00100, 0b01110, 0b10001];
    // place 10 is place 2: 0x40 | (2 << 3)
    let plan = actions.create_char(&mut driver, 10, pattern).unwrap();
    let mut expected = byte_writes(0x27, 0x50, 0, 0b0100);
    for row in pattern {
        expected.extend(byte_writes(0x27, row, 0b0001, 0b0100));
    }
    assert_eq!(traffic(&plan), expected);

    let mut driver = DualHD44780PCF8574T::new_adapter(DeviceSetupConfig {
        address: 0x27,
        lcd_type: LcdDisplayType::Lcd40x4,
    });
    let mut actions = DualHD44780PCF8574T::default();
    let plan = actions.create_char(&mut driver, 7, pattern).unwrap();
    let mut expected = Vec::new();
    for enable in [0b0100, 0b0010] {
        expected.extend(byte_writes(0x27, 0x78, 0, enable));
        for row in pattern {
            expected.extend(byte_writes(0x27, row, 0b0001, enable));
        }
    }
    assert_eq!(traffic(&plan), expected);
}

#[test]
fn single_controller_commands_refuse_a_second_controller() {
    let mut driver = GenericHD44780PCF8574T::new_adapter(DeviceSetupConfig {
        address: 0x27,
        lcd_type: LcdDisplayType::Lcd16x2,
    });
    let mut actions = GenericHD44780PCF8574T::default();
    let bad = Err(CharacterDisplayError::BadDeviceId);
    assert_eq!(actions.clear_controller(&mut driver, 1), bad);
    assert_eq!(actions.home_controller(&mut driver, 1), bad);
    assert_eq!(actions.show_cursor_controller(&mut driver, 1, true), bad);
    assert_eq!(actions.blink_cursor_controller(&mut driver, 1, true), bad);
    assert_eq!(actions.show_display_controller(&mut driver, 2, true), bad);
    assert_eq!(actions.scroll_display_left_controller(&mut driver, 1), bad);
    assert_eq!(actions.scroll_display_right_controller(&mut driver, 1), bad);
    assert_eq!(actions.left_to_right_controller(&mut driver, 1), bad);
    assert_eq!(actions.right_to_left_controller(&mut driver, 1), bad);
    assert_eq!(actions.autoscroll_controller(&mut driver, 7, true), bad);
    assert_eq!(actions.print_controller(&mut driver, 1, "x"), bad);
    assert_eq!(actions.create_char_controller(&mut driver, 1, 0, [0; 8]), bad);
    assert_eq!(actions.set_cursor_controller(&mut driver, 1, 0, 0), bad);
    assert_eq!(driver.bits(), 0);
    // nothing was remembered for the controller that is not there
    let plan = actions.show_display_controller(&mut driver, 0, true).unwrap();
    assert_eq!(traffic(&plan), byte_writes(0x27, 0x0C, 0, 0b0100));
    assert_eq!(actions.set_contrast(&mut driver, 3), Err(CharacterDisplayError::UnsupportedOperation));
}

#[test]
fn reads_need_an_adapter_that_can_read() {
    let mut backpack = AdafruitLCDBackpack::new_adapter(DeviceSetupConfig {
        address: 0x20,
        lcd_type: LcdDisplayType::Lcd16x2,
    });
    let mut actions = AdafruitLCDBackpack::default();
    assert_eq!(
        actions.read_device_data(&mut backpack, 4).err(),
        Some(CharacterDisplayError::ReadNotSupported)
    );
    assert_eq!(
        actions.read_address_counter(&mut backpack).err(),
        Some(CharacterDisplayError::ReadNotSupported)
    );
    let mut dual = DualHD44780PCF8574T::new_adapter(DeviceSetupConfig {
        address: 0x27,
        lcd_type: LcdDisplayType::Lcd40x4,
    });
    let actions = DualHD44780PCF8574T::default();
    assert_eq!(
        actions.read_device_data(&mut dual, 1).err(),
        Some(CharacterDisplayError::ReadNotSupported)
    );
}

#[test]
fn address_counter_comes_without_the_busy_flag() {
    let mut driver = GenericHD44780PCF8574T::new_adapter(DeviceSetupConfig {
        address: 0x27,
        lcd_type: LcdDisplayType::Lcd16x2,
    });
    let mut actions = GenericHD44780PCF8574T::default();
    let session = actions.read_address_counter(&mut driver).unwrap();
    // not busy, then 0xC5 in two nibbles: the address counter is 0x45
    let (plan, result) = session.replay(&[0x00, 0xC0, 0x50]);
    assert_eq!(result, Ok(vec![0x45]));
    assert_eq!(plan.len(), 14);

    let mut session = actions.read_device_data(&mut driver, 2).unwrap();
    let mut step = session.step(&[]);
    let mut replies = vec![vec![0x0Fu8], vec![0xCF, 0x5F], vec![0x80], vec![0x70], vec![0x01, 0x12]]
        .into_iter();
    let bytes = loop {
        match step {
            ReadStep::Perform(_) => step = session.step(&replies.next().unwrap()),
            ReadStep::Finished(result) => break result,
        }
    };
    assert_eq!(bytes, Ok(vec![0xC5, 0x01]));
}

#[test]
fn device_accessors_of_adapters() {
    let driver = GenericHD44780PCF8574T::new_adapter(DeviceSetupConfig {
        address: 0x26,
        lcd_type: LcdDisplayType::Lcd8x2,
    });
    assert_eq!(driver.i2c_address(), 0x26);
    assert_eq!(driver.lcd_type(), LcdDisplayType::Lcd8x2);
    assert_eq!(driver.bits(), 0);
}

#[test]
fn right_to_left_clears_the_direction_flag_of_one_controller() {
    let mut driver = DualHD44780PCF8574T::new_adapter(DeviceSetupConfig {
        address: 0x27,
        lcd_type: LcdDisplayType::Lcd40x4,
    });
    let mut actions = DualHD44780PCF8574T::default();
    assert_eq!(actions.init_display_state(0x08, 0x04, 0x03), Ok(()));
    // the autoscroll flag stays, the direction flag goes: 0x04 | 0x01
    let plan = actions.right_to_left_controller(&mut driver, 1).unwrap();
    assert_eq!(traffic(&plan), byte_writes(0x27, 0x05, 0, 0b0010));
    // the other controller still has its flag: 0x04 | 0x03
    let plan = actions.autoscroll_controller(&mut driver, 0, true).unwrap();
    assert_eq!(traffic(&plan), byte_writes(0x27, 0x07, 0, 0b0100));
    let plan = actions.left_to_right_controller(&mut driver, 1).unwrap();
    assert_eq!(traffic(&plan), byte_writes(0x27, 0x07, 0, 0b0010));
}
