use i2c_character_display::LcdDisplayType;

#[test]
fn rows_cols_and_offsets_of_each_panel() {
    assert_eq!(LcdDisplayType::Lcd20x4.rows(), 4);
    assert_eq!(LcdDisplayType::Lcd20x4.cols(), 20);
    assert_eq!(LcdDisplayType::Lcd20x4.row_offsets(), [0x00, 0x40, 0x14, 0x54]);
    assert_eq!(LcdDisplayType::Lcd16x2.rows(), 2);
    assert_eq!(LcdDisplayType::Lcd16x2.cols(), 16);
    assert_eq!(LcdDisplayType::Lcd16x2.row_offsets(), [0x00, 0x40, 0x10, 0x50]);
    assert_eq!(LcdDisplayType::Lcd40x4.rows(), 4);
    assert_eq!(LcdDisplayType::Lcd40x4.cols(), 40);
    assert_eq!(LcdDisplayType::Lcd40x4.row_offsets(), [0x00, 0x40, 0x00, 0x40]);
    assert_eq!(LcdDisplayType::Lcd8x2.cols(), 8);
    assert_eq!(LcdDisplayType::Lcd40x2.name(), "40x2");
}
