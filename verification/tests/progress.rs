use troll_overlay::progress::{draw_increment, increment_from_word, ProgressState, DRAW_SPAN, FULL, SEED};

#[test]
fn the_constants_stand_for_one_a_thousandth_and_a_tenth() {
    assert_eq!(FULL, 16_777_216_000);
    assert_eq!(DRAW_SPAN, 1 << 24);
    assert_eq!(DRAW_SPAN * 1000, FULL);
    assert_eq!(SEED * 10, FULL);
}

#[test]
fn a_fresh_gauge_stands_at_its_seed() {
    let p = ProgressState::seeded();
    assert_eq!(p.value(), 1_677_721_600);
    assert!(!p.is_terminal());
}

#[test]
fn new_takes_values_up_to_full_and_no_more() {
    assert_eq!(ProgressState::new(0).map(|p| p.value()), Some(0));
    assert_eq!(ProgressState::new(FULL).map(|p| p.value()), Some(FULL));
    assert_eq!(ProgressState::new(FULL + 1), None);
    assert_eq!(ProgressState::new(u64::MAX), None);
}

#[test]
fn an_increment_is_added_exactly() {
    let mut p = ProgressState::seeded();
    p.advance_by(12_345);
    assert_eq!(p.value(), 1_677_733_945);
    p.advance_by(0);
    assert_eq!(p.value(), 1_677_733_945);
}

#[test]
fn the_gauge_clamps_exactly_at_the_threshold() {
    // Seeded at a tenth; the increments below sum to exactly nine tenths.
    let nine_tenths = FULL - SEED;
    let mut p = ProgressState::seeded();
    let step = nine_tenths / 900;
    assert_eq!(step * 900, nine_tenths);
    for n in 1..=899u64 {
        p.advance_by(step);
        assert_eq!(p.value(), SEED + n * step);
        assert!(!p.is_terminal());
    }
    p.advance_by(step);
    assert_eq!(p.value(), FULL);
    assert!(p.is_terminal());
    for _ in 0..100 {
        p.advance_by(step);
        assert_eq!(p.value(), FULL);
        assert!(p.is_terminal());
    }
}

#[test]
fn one_unit_short_of_full_is_not_terminal() {
    let mut p = ProgressState::seeded();
    p.advance_by(FULL - SEED - 1);
    assert_eq!(p.value(), FULL - 1);
    assert!(!p.is_terminal());
    p.advance_by(1);
    assert_eq!(p.value(), FULL);
    assert!(p.is_terminal());
}

#[test]
fn the_gauge_never_overshoots() {
    let mut p = ProgressState::seeded();
    p.advance_by(FULL);
    assert_eq!(p.value(), FULL);
    let mut q = ProgressState::new(FULL - 1).unwrap();
    q.advance_by(u64::MAX);
    assert_eq!(q.value(), FULL);
    let mut r = ProgressState::new(0).unwrap();
    r.advance_by(u64::MAX);
    assert_eq!(r.value(), FULL);
}

#[test]
fn a_full_gauge_stays_full_under_random_ticks() {
    let mut p = ProgressState::new(FULL).unwrap();
    for _ in 0..1000 {
        p.advance();
        assert_eq!(p.value(), FULL);
        assert!(p.is_terminal());
    }
}

#[test]
fn random_ticks_never_lower_the_gauge_and_add_less_than_the_span() {
    let mut p = ProgressState::seeded();
    let mut last = p.value();
    for _ in 0..5000 {
        p.advance();
        let now = p.value();
        assert!(last <= now);
        assert!(now <= FULL);
        assert!(now - last < DRAW_SPAN);
        last = now;
    }
}

#[test]
fn random_ticks_fill_the_gauge_in_the_end() {
    let mut p = ProgressState::seeded();
    let mut ticks = 0u32;
    while !p.is_terminal() {
        p.advance();
        ticks += 1;
        assert!(ticks < 1_000_000);
    }
    // Nine tenths at less than a thousandth a tick takes more than 900 ticks.
    assert!(ticks > 900);
    assert_eq!(p.value(), FULL);
}

#[test]
fn a_word_gives_its_upper_twenty_four_bits() {
    assert_eq!(increment_from_word(0), 0);
    assert_eq!(increment_from_word(255), 0);
    assert_eq!(increment_from_word(256), 1);
    assert_eq!(increment_from_word(0x1234_5678), 0x12_3456);
    assert_eq!(increment_from_word(u32::MAX), 0xFF_FFFF);
    assert_eq!(increment_from_word(u32::MAX), DRAW_SPAN - 1);
}

#[test]
fn drawn_increments_are_below_the_span_and_vary() {
    let first = draw_increment();
    let mut varied = false;
    for _ in 0..200 {
        let k = draw_increment();
        assert!(k < DRAW_SPAN);
        if k != first {
            varied = true;
        }
    }
    assert!(varied);
}
