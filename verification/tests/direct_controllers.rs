use i2c_character_display::bus::{BusAction, BusPlan};
use i2c_character_display::driver::aip31068::AIP31068;
use i2c_character_display::driver::hd44780::adapter::generic_pcf8574t::GenericPCF8574TAdapter;
use i2c_character_display::driver::st7032i::{ST7032i, ST7032iDisplayActions};
use i2c_character_display::driver::standard::StandardCharacterDisplayHandler;
use i2c_character_display::driver::{DeviceHardwareTrait, DisplayActionsTrait};
use i2c_character_display::{CharacterDisplayError, DeviceSetupConfig, LcdDisplayType};

fn write(address: u8, bytes: Vec<u8>) -> BusAction {
    BusAction::Write { address, bytes }
}

/// The writes and reads of a plan, without its waits.
fn traffic(plan: &BusPlan) -> Vec<BusAction> {
    plan.actions()
        .iter()
        .filter(|a| matches!(a, BusAction::Write { .. } | BusAction::Read { .. }))
        .cloned()
        .collect()
}

fn setup(address: u8, lcd_type: LcdDisplayType) -> DeviceSetupConfig {
    DeviceSetupConfig { lcd_type, address }
}

const SMILEY: [u8; 8] = [0b11011, 0b10001, 0b11011, 0b00000, 0b00000, 0b00100, 0b01110, 0b10001];

#[test]
fn aip31068_test_write_bytes() {
    let i2c_address = 0x3e;
    let expected_i2c_transactions = vec![
        write(i2c_address, vec![0b0100_0000, 0x01, 0x02, 0x03]),
        write(i2c_address, vec![0b0100_0000, 0x04]),
        write(i2c_address, vec![0b0000_0000, 0xAB]),
    ];
    let mut driver = AIP31068::new(setup(i2c_address, LcdDisplayType::Lcd16x4));

    let mut bus = Vec::new();
    bus.extend(driver.write_bytes(true, &[0x01, 0x02, 0x03]).unwrap().into_actions());
    bus.extend(driver.write_bytes(true, &[0x04]).unwrap().into_actions());
    bus.extend(driver.write_bytes(false, &[0xAB]).unwrap().into_actions());
    assert_eq!(bus, expected_i2c_transactions);
}

#[test]
fn aip31068_test_clear() {
    let i2c_address = 0x3e;
    let expected_i2c_transactions = vec![write(i2c_address, vec![0b0000_0000, 0x01])];
    let mut device = AIP31068::new(setup(i2c_address, LcdDisplayType::Lcd16x4));
    let mut display = StandardCharacterDisplayHandler::default();

    let plan = display.clear(&mut device);
    assert!(plan.is_ok());
    assert_eq!(traffic(&plan.unwrap()), expected_i2c_transactions);
}

#[test]
fn aip31068_test_print() {
    let i2c_address = 0x3e;
    let expected_i2c_transactions = vec![write(
        i2c_address,
        vec![0b0100_0000, 0x48, 0x65, 0x6c, 0x6c, 0x6f, 0x20, 0x57, 0x6f, 0x72, 0x6c, 0x64],
    )];
    let mut device = AIP31068::new(setup(i2c_address, LcdDisplayType::Lcd16x4));
    let mut display = StandardCharacterDisplayHandler::default();

    let plan = display.print(&mut device, "Hello World");
    assert!(plan.is_ok());
    assert_eq!(traffic(&plan.unwrap()), expected_i2c_transactions);
}

#[test]
fn aip31068_test_create_char() {
    let i2c_address = 0x3e;
    let expected_i2c_transactions = vec![
        // send set CGRAM address command for location 2
        write(i2c_address, vec![0b0000_0000, 0x40 | (2 << 3)]),
        // send the character data
        write(
            i2c_address,
            vec![
                0b0100_0000, // control byte
                0b11011,
                0b10001,
                0b11011,
                0b00000,
                0b00000,
                0b00100,
                0b01110,
                0b10001,
            ],
        ),
    ];
    let mut device = AIP31068::new(setup(i2c_address, LcdDisplayType::Lcd16x4));
    let mut display = StandardCharacterDisplayHandler::default();

    let plan = display.create_char(&mut device, 2, SMILEY);
    assert!(plan.is_ok());
    assert_eq!(traffic(&plan.unwrap()), expected_i2c_transactions);
}

#[test]
fn st7032i_test_write_bytes() {
    let i2c_address = 0x3e;
    let expected_i2c_transactions = vec![
        write(i2c_address, vec![0b0100_0000, 0x01, 0x02, 0x03]),
        write(i2c_address, vec![0b0100_0000, 0x04]),
        write(i2c_address, vec![0b0000_0000, 0xAB]),
    ];
    let mut driver = ST7032i::new(setup(i2c_address, LcdDisplayType::Lcd16x4));

    let mut bus = Vec::new();
    bus.extend(driver.write_bytes(true, &[0x01, 0x02, 0x03]).unwrap().into_actions());
    bus.extend(driver.write_bytes(true, &[0x04]).unwrap().into_actions());
    bus.extend(driver.write_bytes(false, &[0xAB]).unwrap().into_actions());
    assert_eq!(bus, expected_i2c_transactions);
}

#[test]
fn st7032i_test_clear() {
    let i2c_address = 0x3e;
    let expected_i2c_transactions = vec![write(i2c_address, vec![0b0000_0000, 0x01])];
    let mut device = ST7032i::new(setup(i2c_address, LcdDisplayType::Lcd16x4));
    let mut display = StandardCharacterDisplayHandler::default();

    let plan = display.clear(&mut device);
    assert!(plan.is_ok());
    assert_eq!(traffic(&plan.unwrap()), expected_i2c_transactions);
}

#[test]
fn st7032i_test_print() {
    let i2c_address = 0x3e;
    let expected_i2c_transactions = vec![write(
        i2c_address,
        vec![0b0100_0000, 0x48, 0x65, 0x6c, 0x6c, 0x6f, 0x20, 0x57, 0x6f, 0x72, 0x6c, 0x64],
    )];
    let mut device = ST7032i::new(setup(i2c_address, LcdDisplayType::Lcd16x4));
    let mut display = StandardCharacterDisplayHandler::default();

    let plan = display.print(&mut device, "Hello World");
    assert!(plan.is_ok());
    assert_eq!(traffic(&plan.unwrap()), expected_i2c_transactions);
}

#[test]
fn st7032i_test_create_char() {
    let i2c_address = 0x3e;
    let expected_i2c_transactions = vec![
        // send set CGRAM address command for location 2
        write(i2c_address, vec![0b0000_0000, 0x40 | (2 << 3)]),
        // send the character data
        write(
            i2c_address,
            vec![
                0b0100_0000, // control byte
                0b11011,
                0b10001,
                0b11011,
                0b00000,
                0b00000,
                0b00100,
                0b01110,
                0b10001,
            ],
        ),
    ];
    let mut device = ST7032i::new(setup(i2c_address, LcdDisplayType::Lcd16x4));
    let mut display = StandardCharacterDisplayHandler::default();

    let plan = display.create_char(&mut device, 2, SMILEY);
    assert!(plan.is_ok());
    assert_eq!(traffic(&plan.unwrap()), expected_i2c_transactions);
}

#[test]
fn test_set_contrast() {
    let contrast_value = 0x24;
    let i2c_address = 0x3e;
    let expected_i2c_transactions = vec![
        // send function set command to set to extended instruction mode
        write(i2c_address, vec![0b0000_0000, 0x39]),
        // set the lower 4 bits of the contrast
        write(i2c_address, vec![0b0000_0000, 0x70 | (contrast_value & 0x0F)]),
        // set the higher 2 bits of the contrast
        write(i2c_address, vec![0b0000_0000, 0x50 | 0x0C | ((contrast_value >> 4) & 0x03)]),
        // return to normal instructions
        write(i2c_address, vec![0b0000_0000, 0x38]),
    ];
    let mut device = ST7032i::new(setup(i2c_address, LcdDisplayType::Lcd16x4));
    let mut display = ST7032iDisplayActions::default();
    assert!(<ST7032iDisplayActions as DisplayActionsTrait<ST7032i>>::init_display_state(
        &mut display,
        0x18,
        0x04,
        0x02,
    )
    .is_ok());
    let plan = display.set_contrast(&mut device, contrast_value);
    assert!(plan.is_ok());
    let plan = plan.unwrap();
    assert_eq!(traffic(&plan), expected_i2c_transactions);
    let all = plan.into_actions();
    assert_eq!(all.len(), 8);
    for i in 0..4 {
        assert_eq!(all[2 * i + 1], BusAction::DelayUs(27));
    }
}

#[test]
fn power_on_sequences_of_the_direct_controllers() {
    let mut device = AIP31068::new(setup(0x3E, LcdDisplayType::Lcd16x2));
    let ((function, control, mode), plan) = device.init().unwrap();
    assert_eq!((function, control, mode), (0x08, 0x04, 0x02));
    assert_eq!(
        plan.into_actions(),
        vec![
            BusAction::DelayMs(15),
            write(0x3E, vec![0x00, 0x28]),
            BusAction::DelayUs(39),
            write(0x3E, vec![0x00, 0x0C]),
            BusAction::DelayUs(39),
            write(0x3E, vec![0x00, 0x01]),
            BusAction::DelayUs(1530),
            write(0x3E, vec![0x00, 0x06]),
        ]
    );
    let mut device = ST7032i::new(setup(0x3E, LcdDisplayType::Lcd16x2));
    let ((function, control, mode), plan) = device.init().unwrap();
    assert_eq!((function, control, mode), (0x18, 0x04, 0x02));
    assert_eq!(
        plan.into_actions(),
        vec![
            BusAction::DelayMs(40),
            write(0x3E, vec![0x00, 0x38]),
            BusAction::DelayUs(27),
            write(0x3E, vec![0x00, 0x39]),
            BusAction::DelayUs(27),
            write(0x3E, vec![0x00, 0x14]),
            BusAction::DelayUs(27),
            write(0x3E, vec![0x00, 0x78]),
            BusAction::DelayUs(27),
            write(0x3E, vec![0x00, 0x5E]),
            BusAction::DelayUs(27),
            write(0x3E, vec![0x00, 0x6A]),
            BusAction::DelayMs(200),
            write(0x3E, vec![0x00, 0x38]),
            BusAction::DelayUs(27),
            write(0x3E, vec![0x00, 0x0C]),
            BusAction::DelayUs(27),
            write(0x3E, vec![0x00, 0x01]),
            BusAction::DelayMs(2),
            write(0x3E, vec![0x00, 0x06]),
            BusAction::DelayUs(27),
        ]
    );
    assert_eq!(AIP31068::default_i2c_address(), 0x3E);
    assert_eq!(ST7032i::default_i2c_address(), 0x3E);
    assert!(!AIP31068::supports_reads());
    assert!(!ST7032i::supports_reads());
    assert_eq!(device.i2c_address(), 0x3E);
    assert_eq!(device.lcd_type(), LcdDisplayType::Lcd16x2);
}

#[test]
fn frames_have_a_longest_length() {
    let mut device = AIP31068::new(setup(0x3E, LcdDisplayType::Lcd40x2));
    assert_eq!(device.write_bytes(true, &[]).unwrap().len(), 0);
    let fits = [0x20u8; 81];
    let plan = device.write_bytes(true, &fits).unwrap().into_actions();
    assert_eq!(plan.len(), 1);
    match &plan[0] {
        BusAction::Write { address, bytes } => {
            assert_eq!(*address, 0x3E);
            assert_eq!(bytes.len(), 82);
            assert_eq!(bytes[0], 0x40);
        }
        other => panic!("not a write: {:?}", other),
    }
    let too_long = [0x20u8; 82];
    assert_eq!(device.write_bytes(true, &too_long), Err(CharacterDisplayError::BufferTooSmall));
    let mut display = StandardCharacterDisplayHandler::default();
    let text = "x".repeat(90);
    assert_eq!(display.print(&mut device, &text), Err(CharacterDisplayError::BufferTooSmall));
}

#[test]
fn standard_commands_and_their_waits() {
    let mut device = AIP31068::new(setup(0x3E, LcdDisplayType::Lcd20x4));
    let mut display = StandardCharacterDisplayHandler::default();
    assert!(<StandardCharacterDisplayHandler as DisplayActionsTrait<AIP31068>>::init_display_state(
        &mut display,
        0x08,
        0x04,
        0x02,
    )
    .is_ok());
    assert_eq!(display.get_display_function(), 0x08);
    let one = |command: u8, us: u32| vec![write(0x3E, vec![0x00, command]), BusAction::DelayUs(us)];
    assert_eq!(display.clear(&mut device).unwrap().into_actions(), one(0x01, 1530));
    assert_eq!(display.home(&mut device).unwrap().into_actions(), one(0x02, 1530));
    // row 3 of a 20x4 panel starts at 0x54: 0x80 | (19 + 0x54) = 0xE7
    assert_eq!(display.set_cursor(&mut device, 19, 3).unwrap().into_actions(), one(0xE7, 39));
    assert_eq!(display.set_cursor(&mut device, 20, 3), Err(CharacterDisplayError::ColumnOutOfRange));
    assert_eq!(display.set_cursor(&mut device, 0, 4), Err(CharacterDisplayError::RowOutOfRange));
    assert_eq!(display.show_cursor(&mut device, true).unwrap().into_actions(), one(0x0E, 39));
    assert_eq!(display.blink_cursor(&mut device, true).unwrap().into_actions(), one(0x0F, 39));
    assert_eq!(display.show_cursor(&mut device, false).unwrap().into_actions(), one(0x0D, 39));
    assert_eq!(display.show_display(&mut device, false).unwrap().into_actions(), one(0x09, 39));
    assert_eq!(display.blink_cursor(&mut device, false).unwrap().into_actions(), one(0x08, 39));
    assert_eq!(display.show_display(&mut device, true).unwrap().into_actions(), one(0x0C, 39));
    assert_eq!(display.scroll_left(&mut device).unwrap().into_actions(), one(0x18, 39));
    assert_eq!(display.scroll_right(&mut device).unwrap().into_actions(), one(0x1C, 39));
    assert_eq!(display.autoscroll(&mut device, true).unwrap().into_actions(), one(0x07, 39));
    assert_eq!(display.autoscroll(&mut device, false).unwrap().into_actions(), one(0x06, 39));
    assert_eq!(display.left_to_right(&mut device).unwrap().into_actions(), one(0x06, 39));
    assert_eq!(display.right_to_left(&mut device).unwrap().into_actions(), one(0x04, 39));
    assert_eq!(display.left_to_right(&mut device).unwrap().into_actions(), one(0x06, 39));
    let plan = display.print(&mut device, "ok").unwrap().into_actions();
    assert_eq!(plan, vec![write(0x3E, vec![0x40, 0x6F, 0x6B]), BusAction::DelayUs(43)]);
    let plan = display.create_char(&mut device, 1, SMILEY).unwrap().into_actions();
    assert_eq!(plan.len(), 3);
    assert_eq!(plan[2], BusAction::DelayUs(39));
    let unsupported = Err(CharacterDisplayError::UnsupportedOperation);
    assert_eq!(display.backlight(&mut device, true), unsupported);
    assert_eq!(display.set_contrast(&mut device, 1), unsupported);
    assert_eq!(
        display.read_device_data(&mut device, 1).err(),
        Some(CharacterDisplayError::UnsupportedOperation)
    );
    assert_eq!(
        display.read_address_counter(&mut device).err(),
        Some(CharacterDisplayError::UnsupportedOperation)
    );
}

#[test]
fn standard_commands_need_a_device_that_takes_bytes() {
    let mut device = GenericPCF8574TAdapter::new(setup(0x27, LcdDisplayType::Lcd16x2));
    let mut display = StandardCharacterDisplayHandler::default();
    assert_eq!(display.clear(&mut device), Err(CharacterDisplayError::UnsupportedOperation));
    assert_eq!(display.print(&mut device, "x"), Err(CharacterDisplayError::UnsupportedOperation));
}

#[test]
fn st7032i_actions_are_the_standard_ones() {
    let mut device = ST7032i::new(setup(0x3E, LcdDisplayType::Lcd16x2));
    let mut display = ST7032iDisplayActions::default();
    assert!(<ST7032iDisplayActions as DisplayActionsTrait<ST7032i>>::init_display_state(
        &mut display,
        0x18,
        0x04,
        0x02,
    )
    .is_ok());
    let one = |command: u8, us: u32| vec![write(0x3E, vec![0x00, command]), BusAction::DelayUs(us)];
    assert_eq!(display.clear(&mut device).unwrap().into_actions(), one(0x01, 1530));
    assert_eq!(display.home(&mut device).unwrap().into_actions(), one(0x02, 1530));
    assert_eq!(display.set_cursor(&mut device, 3, 1).unwrap().into_actions(), one(0xC3, 39));
    assert_eq!(display.show_cursor(&mut device, true).unwrap().into_actions(), one(0x0E, 39));
    assert_eq!(display.blink_cursor(&mut device, true).unwrap().into_actions(), one(0x0F, 39));
    assert_eq!(display.show_display(&mut device, false).unwrap().into_actions(), one(0x0B, 39));
    assert_eq!(display.scroll_left(&mut device).unwrap().into_actions(), one(0x18, 39));
    assert_eq!(display.scroll_right(&mut device).unwrap().into_actions(), one(0x1C, 39));
    assert_eq!(display.left_to_right(&mut device).unwrap().into_actions(), one(0x06, 39));
    assert_eq!(display.right_to_left(&mut device).unwrap().into_actions(), one(0x04, 39));
    assert_eq!(display.autoscroll(&mut device, true).unwrap().into_actions(), one(0x05, 39));
    assert_eq!(
        display.print(&mut device, "A").unwrap().into_actions(),
        vec![write(0x3E, vec![0x40, 0x41]), BusAction::DelayUs(43)]
    );
    assert_eq!(display.create_char(&mut device, 0, SMILEY).unwrap().len(), 3);
    assert_eq!(display.backlight(&mut device, true), Err(CharacterDisplayError::UnsupportedOperation));
    assert!(display.read_device_data(&mut device, 1).is_err());
    assert!(display.read_address_counter(&mut device).is_err());
    // contrast 0x3F and more: six bits count
    let plan = display.set_contrast(&mut device, 0xFF).unwrap();
    assert_eq!(
        traffic(&plan),
        vec![
            write(0x3E, vec![0x00, 0x39]),
            write(0x3E, vec![0x00, 0x7F]),
            write(0x3E, vec![0x00, 0x5F]),
            write(0x3E, vec![0x00, 0x38]),
        ]
    );
}
