use i2c_character_display::bus::{BusAction, BusPlan};
use i2c_character_display::signal::{
    encode_backpack, encode_dual_pcf8574t, encode_pcf8574t, read_data_lines, SignalState,
};
use i2c_character_display::driver::hd44780::read::{is_busy_reply, join_nibbles};

#[test]
fn a_plan_keeps_its_steps_in_order() {
    let mut plan = BusPlan::new();
    assert_eq!(plan.len(), 0);
    plan.write_byte(0x27, 0x12);
    plan.delay_ms(5);
    plan.write_pair(0x20, 0x09, 0x34);
    plan.read(0x27);
    plan.delay_us(150);
    plan.write(0x3E, vec![1, 2, 3]);
    plan.push(BusAction::DelayMs(1));
    let mut more = BusPlan::new();
    more.write_byte(0x01, 0x02);
    more.read(0x03);
    plan.extend(more);
    assert_eq!(plan.len(), 9);
    let expected = vec![
        BusAction::Write { address: 0x27, bytes: vec![0x12] },
        BusAction::DelayMs(5),
        BusAction::Write { address: 0x20, bytes: vec![0x09, 0x34] },
        BusAction::Read { address: 0x27 },
        BusAction::DelayUs(150),
        BusAction::Write { address: 0x3E, bytes: vec![1, 2, 3] },
        BusAction::DelayMs(1),
        BusAction::Write { address: 0x01, bytes: vec![0x02] },
        BusAction::Read { address: 0x03 },
    ];
    assert_eq!(plan.actions(), &expected);
    assert_eq!(plan.into_actions(), expected);
}

#[test]
fn each_adapter_packs_the_lines_its_own_way() {
    let mut lines = SignalState::new();
    assert_eq!(encode_pcf8574t(&lines), 0);
    assert_eq!(encode_dual_pcf8574t(&lines), 0);
    assert_eq!(encode_backpack(&lines), 0);
    lines.rs = true;
    assert_eq!(encode_pcf8574t(&lines), 0b0000_0001);
    assert_eq!(encode_dual_pcf8574t(&lines), 0b0000_0001);
    assert_eq!(encode_backpack(&lines), 0b0000_0010);
    lines.rs = false;
    lines.rw = true;
    assert_eq!(encode_pcf8574t(&lines), 0b0000_0010);
    assert_eq!(encode_dual_pcf8574t(&lines), 0);
    assert_eq!(encode_backpack(&lines), 0);
    lines.rw = false;
    lines.enable0 = true;
    assert_eq!(encode_pcf8574t(&lines), 0b0000_0100);
    assert_eq!(encode_dual_pcf8574t(&lines), 0b0000_0100);
    assert_eq!(encode_backpack(&lines), 0b0000_0100);
    lines.enable0 = false;
    lines.enable1 = true;
    assert_eq!(encode_pcf8574t(&lines), 0);
    assert_eq!(encode_dual_pcf8574t(&lines), 0b0000_0010);
    assert_eq!(encode_backpack(&lines), 0);
    lines.enable1 = false;
    lines.backlight = true;
    assert_eq!(encode_pcf8574t(&lines), 0b0000_1000);
    assert_eq!(encode_dual_pcf8574t(&lines), 0b0000_1000);
    assert_eq!(encode_backpack(&lines), 0b1000_0000);
    lines.backlight = false;
    lines.data = 0b1001;
    assert_eq!(encode_pcf8574t(&lines), 0b1001_0000);
    assert_eq!(encode_dual_pcf8574t(&lines), 0b1001_0000);
    assert_eq!(encode_backpack(&lines), 0b0100_1000);
    // data beyond four bits does not reach the port
    lines.data = 0xF9;
    assert_eq!(encode_pcf8574t(&lines), 0b1001_0000);
    assert_eq!(encode_backpack(&lines), 0b0100_1000);
    let all = SignalState {
        rs: true,
        rw: true,
        enable0: true,
        enable1: true,
        backlight: true,
        data: 0x0F,
    };
    assert_eq!(encode_pcf8574t(&all), 0xFF);
    assert_eq!(encode_dual_pcf8574t(&all), 0xFF);
    assert_eq!(encode_backpack(&all), 0xFE);
    assert_eq!(encode_pcf8574t(&all), encode_pcf8574t(&all.clone()));
}

#[test]
fn port_bytes_that_were_read() {
    assert_eq!(read_data_lines(0b1101_0110), 0b1101);
    assert_eq!(read_data_lines(0x0F), 0);
    assert_eq!(read_data_lines(0xF0), 0x0F);
    assert!(is_busy_reply(0b1000_0000));
    assert!(is_busy_reply(0b1010_0110));
    assert!(!is_busy_reply(0b0111_1111));
    assert!(!is_busy_reply(0b0010_0110));
    assert_eq!(join_nibbles(0b1101_0110, 0b1110_0110), 0xDE);
    assert_eq!(join_nibbles(0b1010_0110, 0b1101_0110), 0xAD);
    assert_eq!(join_nibbles(0x0F, 0x0F), 0x00);
    assert_eq!(join_nibbles(0xF0, 0xF0), 0xFF);
}
