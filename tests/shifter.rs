use cupi_shift::{Line, ShiftRegister, Shifter, Signal};

fn latch(high: bool) -> Signal {
    Signal { line: Line::Latch, high }
}

fn pulse(high: bool) -> Vec<Signal> {
    vec![
        Signal { line: Line::Clock, high: false },
        Signal { line: Line::Data, high },
        Signal { line: Line::Clock, high: true },
    ]
}

fn data_levels(signals: &[Signal]) -> Vec<u8> {
    signals
        .iter()
        .filter(|s| s.line == Line::Data)
        .map(|s| if s.high { 1 } else { 0 })
        .collect()
}

fn rising_clock_edges(signals: &[Signal]) -> usize {
    signals.iter().filter(|s| s.line == Line::Clock && s.high).count()
}

#[test]
fn it_works() {
}

#[test]
fn add_returns_consecutive_indices() {
    let mut s = Shifter::new(29, 28, 27);
    assert_eq!(s.add(8), 0);
    assert_eq!(s.add(8), 1);
    assert_eq!(s.add(4), 2);
    assert_eq!(s.len(), 3);
    assert_eq!(s.width(2), Some(4));
    assert_eq!(s.state(0), Some(0));
    assert_eq!(s.state(3), None);
}

#[test]
fn new_keeps_pin_numbers_and_starts_empty() {
    let s = Shifter::new(29, 28, 27);
    assert_eq!((s.data, s.latch, s.clock), (29, 28, 27));
    assert_eq!(s.len(), 0);
    assert!(!s.is_inverted());
}

#[test]
fn set_pin_high_touches_one_bit() {
    let mut s = Shifter::new(0, 1, 2);
    let sr = s.add(8);
    s.set(sr, 0b1000_0001, false);
    s.set_pin_high(sr, 3, false);
    assert_eq!(s.state(sr), Some(0b1000_1001));
    s.set_pin_high(sr, 3, false);
    assert_eq!(s.state(sr), Some(0b1000_1001));
    s.set_pin_high(sr, 7, false);
    assert_eq!(s.state(sr), Some(0b1000_1001));
}

#[test]
fn set_pin_low_touches_one_bit() {
    let mut s = Shifter::new(0, 1, 2);
    let sr = s.add(8);
    s.set(sr, 0b1111_1111, false);
    s.set_pin_low(sr, 0, false);
    assert_eq!(s.state(sr), Some(0b1111_1110));
    s.set_pin_low(sr, 7, false);
    assert_eq!(s.state(sr), Some(0b0111_1110));
    s.set_pin_low(sr, 7, false);
    assert_eq!(s.state(sr), Some(0b0111_1110));
}

#[test]
fn pin_ops_leave_other_registers_alone() {
    let mut s = Shifter::new(0, 1, 2);
    let a = s.add(8);
    let b = s.add(8);
    s.set(a, 0b0101_0101, false);
    s.set(b, 0b0000_1111, false);
    s.set_pin_high(b, 6, false);
    s.set_pin_low(b, 0, false);
    assert_eq!(s.state(a), Some(0b0101_0101));
    assert_eq!(s.state(b), Some(0b0100_1110));
}

#[test]
fn out_of_range_index_changes_nothing() {
    let mut s = Shifter::new(0, 1, 2);
    let a = s.add(8);
    s.set(a, 0b11, false);
    assert!(s.set(5, 0xff, false).is_empty());
    s.set_pin_high(5, 200, false);
    s.set_pin_low(5, 1, false);
    assert_eq!(s.len(), 1);
    assert_eq!(s.state(a), Some(0b11));
}

#[test]
fn invert_twice_restores_polarity() {
    let mut s = Shifter::new(0, 1, 2);
    let sr = s.add(8);
    s.set(sr, 0b1011_0001, false);
    s.invert();
    assert!(s.is_inverted());
    assert_eq!(s.state(sr), Some(0b1011_0001));
    s.invert();
    assert!(!s.is_inverted());
    assert_eq!(s.state(sr), Some(0b1011_0001));
}

#[test]
fn apply_shifts_bit_zero_first() {
    let mut s = Shifter::new(0, 1, 2);
    let sr = s.add(8);
    s.set(sr, 0b1011_0001, false);
    let signals = s.apply();
    assert_eq!(data_levels(&signals), vec![1, 0, 0, 0, 1, 1, 0, 1]);
    assert_eq!(signals.len(), 2 + 3 * 8);
    assert_eq!(signals[0], latch(false));
    assert_eq!(signals[signals.len() - 1], latch(true));
    let mut expected = vec![latch(false)];
    for level in [true, false, false, false, true, true, false, true] {
        expected.extend(pulse(level));
    }
    expected.push(latch(true));
    assert_eq!(signals, expected);
}

#[test]
fn apply_inverted_complements_every_bit() {
    let mut s = Shifter::new(0, 1, 2);
    let sr = s.add(8);
    s.set(sr, 0b1011_0001, false);
    s.invert();
    let signals = s.apply();
    assert_eq!(data_levels(&signals), vec![0, 1, 1, 1, 0, 0, 1, 0]);
    assert_eq!(signals[0], latch(false));
    assert_eq!(signals[signals.len() - 1], latch(true));
}

#[test]
fn apply_shifts_first_added_register_first() {
    let mut s = Shifter::new(0, 1, 2);
    let a = s.add(4);
    let b = s.add(4);
    s.set(a, 0b1111, false);
    s.set(b, 0b0000, false);
    let signals = s.apply();
    assert_eq!(data_levels(&signals), vec![1, 1, 1, 1, 0, 0, 0, 0]);
    assert_eq!(rising_clock_edges(&signals), 8);
}

#[test]
fn apply_uses_each_register_width() {
    let mut s = Shifter::new(0, 1, 2);
    let a = s.add(3);
    let b = s.add(2);
    s.set(a, 0b1111_0101, false);
    s.set(b, 0b10, false);
    let signals = s.apply();
    assert_eq!(data_levels(&signals), vec![1, 0, 1, 0, 1]);
    assert_eq!(rising_clock_edges(&signals), 5);
}

#[test]
fn deferred_changes_go_out_in_one_latch_cycle() {
    let mut s = Shifter::new(0, 1, 2);
    let a = s.add(2);
    let b = s.add(2);
    assert!(s.set(a, 0b01, false).is_empty());
    assert!(s.set_pin_high(b, 1, false).is_empty());
    assert!(s.set_pin_low(a, 0, false).is_empty());
    let signals = s.set(a, 0b10, true);
    assert_eq!(data_levels(&signals), vec![0, 1, 0, 1]);
    let latches: Vec<Signal> = signals.iter().copied().filter(|x| x.line == Line::Latch).collect();
    assert_eq!(latches, vec![latch(false), latch(true)]);
    assert_eq!(s.apply(), signals);
}

#[test]
fn pin_ops_with_apply_return_the_update() {
    let mut s = Shifter::new(0, 1, 2);
    let sr = s.add(4);
    let signals = s.set_pin_high(sr, 2, true);
    assert_eq!(data_levels(&signals), vec![0, 0, 1, 0]);
    let signals = s.set_pin_low(sr, 2, true);
    assert_eq!(data_levels(&signals), vec![0, 0, 0, 0]);
}

#[test]
fn apply_on_empty_chain_only_pulses_latch() {
    let s = Shifter::new(0, 1, 2);
    assert_eq!(s.apply(), vec![latch(false), latch(true)]);
    let mut t = Shifter::new(0, 1, 2);
    t.invert();
    assert_eq!(t.apply(), vec![latch(false), latch(true)]);
}

#[test]
fn wide_register_shifts_top_bit() {
    let mut s = Shifter::new(0, 1, 2);
    let sr = s.add(usize::BITS as u8);
    s.set_pin_high(sr, (usize::BITS - 1) as u8, false);
    let levels = data_levels(&s.apply());
    assert_eq!(levels.len(), usize::BITS as usize);
    assert_eq!(levels[levels.len() - 1], 1);
    assert!(levels[..levels.len() - 1].iter().all(|l| *l == 0));
}

#[test]
fn zero_width_register_shifts_nothing() {
    let mut s = Shifter::new(0, 1, 2);
    let sr = s.add(0);
    s.set(sr, 0xff, false);
    assert_eq!(s.apply(), vec![latch(false), latch(true)]);
}

#[test]
fn shift_register_set_replaces_word() {
    let mut r = ShiftRegister { data: 0b1, pins: 8 };
    r.set(0b1010);
    assert_eq!(r, ShiftRegister { data: 0b1010, pins: 8 });
    let cell = r.get_ref();
    assert_eq!(*cell.borrow(), ShiftRegister { data: 0b1010, pins: 8 });
}
