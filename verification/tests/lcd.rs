use bitbang_periph::lcd::{BusOp, Lcd, ADDRESS};

fn write(byte: u8) -> BusOp {
    BusOp::Write(byte)
}

fn pause(millis: u64) -> BusOp {
    BusOp::Pause(millis)
}

/// The six operations of one byte: each nibble with enable high, a pause,
/// then with enable low.
fn frame(high: u8, low: u8) -> Vec<BusOp> {
    vec![write(high | 0x04), pause(2), write(high), write(low | 0x04), pause(2), write(low)]
}

#[test]
fn display_address() {
    assert_eq!(ADDRESS, 0x27);
}

#[test]
fn new_display_has_nothing_queued() {
    assert_eq!(Lcd::new().take(), vec![]);
    assert_eq!(Lcd::default().take(), vec![]);
}

#[test]
fn write_byte_sets_the_backlight_line() {
    let mut lcd = Lcd::new();
    lcd.write_byte(0x00);
    lcd.write_byte(0x08);
    lcd.write_byte(0xf4);
    lcd.write_byte(0xff);
    assert_eq!(lcd.take(), vec![write(0x08), write(0x08), write(0xfc), write(0xff)]);
}

#[test]
fn send_command_strobes_both_nibbles() {
    let mut lcd = Lcd::new();
    lcd.send_command(0x33);
    assert_eq!(
        lcd.take(),
        vec![write(0x3c), pause(2), write(0x38), write(0x3c), pause(2), write(0x38)]
    );
}

#[test]
fn send_command_sends_the_upper_nibble_first() {
    let mut lcd = Lcd::new();
    lcd.send_command(0xa5);
    assert_eq!(lcd.take(), frame(0xa8, 0x58));
    lcd.send_command(0x0c);
    assert_eq!(lcd.take(), frame(0x08, 0xc8));
}

#[test]
fn send_data_selects_the_data_register() {
    let mut lcd = Lcd::new();
    lcd.send_data(b'A');
    assert_eq!(
        lcd.take(),
        vec![write(0x4d), pause(2), write(0x49), write(0x1d), pause(2), write(0x19)]
    );
}

#[test]
fn send_data_of_every_byte() {
    for byte in 0..=255u8 {
        let mut lcd = Lcd::new();
        lcd.send_data(byte);
        assert_eq!(lcd.take(), frame(byte & 0xf0 | 0x09, byte << 4 | 0x09));
        lcd.send_command(byte);
        assert_eq!(lcd.take(), frame(byte & 0xf0 | 0x08, byte << 4 | 0x08));
    }
}

#[test]
fn clear_sends_command_one() {
    let mut lcd = Lcd::new();
    lcd.clear();
    assert_eq!(lcd.take(), frame(0x08, 0x18));
}

#[test]
fn init_brings_the_display_up() {
    let mut lcd = Lcd::new();
    lcd.init();
    let mut expected = Vec::new();
    expected.extend(frame(0x38, 0x38));
    expected.push(pause(5));
    expected.extend(frame(0x38, 0x28));
    expected.push(pause(5));
    expected.extend(frame(0x28, 0x88));
    expected.push(pause(5));
    expected.extend(frame(0x08, 0xc8));
    expected.push(pause(5));
    expected.extend(frame(0x08, 0x18));
    expected.push(write(0x08));
    assert_eq!(lcd.take(), expected);
}

#[test]
fn write_places_the_cursor_then_sends_the_text() {
    let mut lcd = Lcd::new();
    lcd.write(0, 0, b"Hi");
    let mut expected = frame(0x88, 0x08);
    expected.extend(frame(0x49, 0x89));
    expected.extend(frame(0x69, 0x99));
    assert_eq!(lcd.take(), expected);
}

#[test]
fn write_addresses_the_second_row() {
    let mut lcd = Lcd::new();
    lcd.write(3, 1, b"");
    assert_eq!(lcd.take(), frame(0xc8, 0x38));
}

#[test]
fn write_pulls_the_cursor_back_onto_the_display() {
    let mut lcd = Lcd::new();
    lcd.write(15, 1, b"");
    let corner = lcd.take();
    assert_eq!(corner, frame(0xc8, 0xf8));
    for (x, y) in [(16u8, 1u8), (200, 2), (255, 255), (15, 9)] {
        lcd.write(x, y, b"");
        assert_eq!(lcd.take(), corner);
    }
    lcd.write(16, 0, b"");
    assert_eq!(lcd.take(), frame(0x88, 0xf8));
}

#[test]
fn write_of_empty_text_only_places_the_cursor() {
    let mut lcd = Lcd::new();
    lcd.write(5, 0, &[]);
    assert_eq!(lcd.take().len(), 6);
}

#[test]
fn operations_queue_up_in_order() {
    let mut lcd = Lcd::new();
    lcd.clear();
    lcd.write(0, 1, b"7");
    lcd.write_byte(0x00);
    let mut expected = frame(0x08, 0x18);
    expected.extend(frame(0xc8, 0x08));
    expected.extend(frame(0x39, 0x79));
    expected.push(write(0x08));
    assert_eq!(lcd.take(), expected);
}

#[test]
fn take_empties_the_queue() {
    let mut lcd = Lcd::new();
    lcd.init();
    assert_eq!(lcd.take().len(), 35);
    assert_eq!(lcd.take(), vec![]);
}
