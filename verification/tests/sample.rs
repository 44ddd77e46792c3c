use bitbang_periph::sample::{place_in, reconcile, shift_in, WIDTH};

#[test]
fn width_is_one_byte() {
    assert_eq!(WIDTH, 8);
}

#[test]
fn shift_in_doubles_and_adds_the_level() {
    assert_eq!(shift_in(0, false), 0);
    assert_eq!(shift_in(0, true), 1);
    assert_eq!(shift_in(1, false), 2);
    assert_eq!(shift_in(0b101, true), 0b1011);
    assert_eq!(shift_in(0x7f, true), 0xff);
}

#[test]
fn shift_in_drops_the_top_bit() {
    assert_eq!(shift_in(0x80, false), 0);
    assert_eq!(shift_in(0xff, true), 0xff);
    assert_eq!(shift_in(0xc1, false), 0x82);
}

#[test]
fn shift_in_eight_levels_most_significant_first() {
    let mut value = 0;
    for level in [true, false, true, false, false, true, false, true] {
        value = shift_in(value, level);
    }
    assert_eq!(value, 0xa5);
}

#[test]
fn place_in_sets_the_bit_of_its_place() {
    assert_eq!(place_in(0, 0, true), 1);
    assert_eq!(place_in(0, 7, true), 0x80);
    assert_eq!(place_in(0b11, 2, true), 0b111);
    assert_eq!(place_in(0b11, 2, false), 0b11);
    assert_eq!(place_in(0xff, 3, false), 0xff);
}

#[test]
fn place_in_eight_levels_least_significant_first() {
    let mut value = 0;
    let levels = [true, false, true, false, false, true, false, true];
    for place in 0..8 {
        value = place_in(value, place, levels[place as usize]);
    }
    assert_eq!(value, 0xa5);
}

#[test]
fn both_orders_agree_on_a_reversed_stream() {
    for pattern in 0..=255u8 {
        let mut forward = 0;
        for place in (0..8).rev() {
            forward = shift_in(forward, pattern >> place & 1 == 1);
        }
        let mut backward = 0;
        for place in 0..8 {
            backward = place_in(backward, place, pattern >> place & 1 == 1);
        }
        assert_eq!(forward, pattern);
        assert_eq!(backward, pattern);
    }
}

#[test]
fn reconcile_keeps_agreeing_passes() {
    assert_eq!(reconcile(0, 0), 0);
    assert_eq!(reconcile(0x7b, 0x7b), 0x7b);
    assert_eq!(reconcile(0xff, 0xff), 0xff);
}

#[test]
fn reconcile_zeroes_disagreeing_passes() {
    assert_eq!(reconcile(0x7b, 0x7a), 0);
    assert_eq!(reconcile(0, 0xff), 0);
    assert_eq!(reconcile(0xff, 0), 0);
}
