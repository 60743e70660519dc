use morse_key::machine::DecoderState;

/// One press of the given duration: a poll with the button down at `start`,
/// then a poll with the button up at `start + duration`.
fn press(st: &mut DecoderState, start: u64, duration: u64) {
    let down = st.poll(true, start);
    assert!(down.led);
    let up = st.poll(false, start + duration);
    assert!(!up.led);
}

#[test]
fn test_initial_state_is_idle() {
    let st = DecoderState::new();
    assert_eq!(st.symbol_count(), 0);
    assert!(!st.is_held());
    assert!(!st.is_waiting());
}

#[test]
fn test_two_short_presses_decode_i() {
    let mut st = DecoderState::new();
    press(&mut st, 0, 100);
    press(&mut st, 200, 100);
    assert_eq!(st.symbol_count(), 2);
    // 1200 ms after the last release: inside the character-gap window.
    let out = st.poll(false, 1500);
    assert_eq!(out.decoded, Some('I'));
    assert!(!out.space);
    assert!(!out.overflow);
    assert_eq!(st.symbol_count(), 0);
}

#[test]
fn test_dash_dot_dash_dash_decodes_y() {
    let mut st = DecoderState::new();
    press(&mut st, 0, 300);
    press(&mut st, 400, 100);
    press(&mut st, 600, 300);
    press(&mut st, 1000, 300);
    assert_eq!(st.symbol_count(), 4);
    // 1200 ms after the last release at 1300.
    let out = st.poll(false, 2500);
    assert_eq!(out.decoded, Some('Y'));
    assert_eq!(st.symbol_count(), 0);
}

#[test]
fn test_threshold_press_is_a_dash() {
    let mut st = DecoderState::new();
    // Exactly at the threshold: a dash, so the pattern is T's.
    press(&mut st, 0, 250);
    let out = st.poll(false, 1450);
    assert_eq!(out.decoded, Some('T'));
}

#[test]
fn test_just_under_threshold_press_is_a_dot() {
    let mut st = DecoderState::new();
    press(&mut st, 0, 249);
    let out = st.poll(false, 1449);
    assert_eq!(out.decoded, Some('E'));
}

#[test]
fn test_char_gap_window_boundaries() {
    let mut st = DecoderState::new();
    press(&mut st, 0, 100);
    // Release at 100; 999 ms elapsed is below the window: no decode.
    let early = st.poll(false, 1099);
    assert_eq!(early.decoded, None);
    assert_eq!(st.symbol_count(), 1);
    // 1000 ms elapsed is inside the window.
    let on_time = st.poll(false, 1100);
    assert_eq!(on_time.decoded, Some('E'));
    assert_eq!(st.symbol_count(), 0);
}

#[test]
fn test_char_gap_upper_boundary_is_exclusive() {
    let mut st = DecoderState::new();
    press(&mut st, 0, 100);
    // Release at 100; 1500 ms elapsed is past the window: no decode.
    let late = st.poll(false, 1600);
    assert_eq!(late.decoded, None);
    assert_eq!(st.symbol_count(), 1);
}

#[test]
fn test_char_gap_decodes_only_once() {
    let mut st = DecoderState::new();
    press(&mut st, 0, 100);
    let first = st.poll(false, 1300);
    assert_eq!(first.decoded, Some('E'));
    // Still idle, still inside the window: the buffer reset keeps a second
    // decode from firing.
    let second = st.poll(false, 1400);
    assert_eq!(second.decoded, None);
    let third = st.poll(false, 1499);
    assert_eq!(third.decoded, None);
}

#[test]
fn test_unknown_pattern_emits_hash() {
    let mut st = DecoderState::new();
    // Four dashes: no letter or digit has that pattern.
    for i in 0..4u64 {
        press(&mut st, i * 600, 300);
    }
    assert_eq!(st.symbol_count(), 4);
    // Last release at 2100; decode 1200 ms later.
    let out = st.poll(false, 3300);
    assert_eq!(out.decoded, Some('#'));
    assert_eq!(st.symbol_count(), 0);
}

#[test]
fn test_six_symbols_overflow_before_decoding() {
    let mut st = DecoderState::new();
    // Six dots fill every slot; the overflow check fires before any
    // character gap can resolve them, so the pattern never decodes.
    for i in 0..6u64 {
        press(&mut st, i * 200, 100);
    }
    assert_eq!(st.symbol_count(), 6);
    let out = st.poll(false, 1200);
    assert!(out.overflow);
    assert_eq!(out.decoded, None);
    assert_eq!(st.symbol_count(), 0);
}

#[test]
fn test_five_dots_decode_five() {
    let mut st = DecoderState::new();
    for i in 0..5u64 {
        press(&mut st, i * 200, 100);
    }
    assert_eq!(st.symbol_count(), 5);
    // Last release at 900; decode 1100 ms later.
    let out = st.poll(false, 2000);
    assert_eq!(out.decoded, Some('5'));
}

#[test]
fn test_overflow_diagnostic_and_reset() {
    let mut st = DecoderState::new();
    for i in 0..6u64 {
        press(&mut st, i * 200, 100);
    }
    assert_eq!(st.symbol_count(), 6);
    let out = st.poll(false, 1150);
    assert!(out.overflow);
    assert_eq!(st.symbol_count(), 0);
    // Only one diagnostic: the buffer is empty now.
    let again = st.poll(false, 1200);
    assert!(!again.overflow);
}

#[test]
fn test_word_gap_emits_exactly_one_space() {
    let mut st = DecoderState::new();
    press(&mut st, 0, 100);
    let decoded = st.poll(false, 1300);
    assert_eq!(decoded.decoded, Some('E'));
    assert!(!decoded.space);
    // 2500 ms after the release at 100: one space.
    let spaced = st.poll(false, 2600);
    assert!(spaced.space);
    assert_eq!(spaced.decoded, None);
    assert!(st.is_waiting());
    // Idle polls afterwards stay silent.
    let after = st.poll(false, 3000);
    assert!(!after.space);
    assert_eq!(after.decoded, None);
    let much_later = st.poll(false, 100_000);
    assert!(!much_later.space);
}

#[test]
fn test_press_rearms_word_space() {
    let mut st = DecoderState::new();
    press(&mut st, 0, 100);
    st.poll(false, 1300);
    let spaced = st.poll(false, 2600);
    assert!(spaced.space);
    // A new press clears the waiting flag...
    press(&mut st, 3000, 100);
    assert!(!st.is_waiting());
    st.poll(false, 4300);
    // ...so a later word gap emits a space again.
    let spaced_again = st.poll(false, 5600);
    assert!(spaced_again.space);
}

#[test]
fn test_startup_word_gap_emits_one_space() {
    let mut st = DecoderState::new();
    // The idle gap is measured from startup: with no press at all, the
    // word-gap threshold still emits a single space, then stays silent.
    let early = st.poll(false, 2499);
    assert!(!early.space);
    assert_eq!(early.decoded, None);
    let spaced = st.poll(false, 2500);
    assert!(spaced.space);
    let after = st.poll(false, 9999);
    assert!(!after.space);
}

#[test]
fn test_led_follows_button() {
    let mut st = DecoderState::new();
    let down = st.poll(true, 0);
    assert!(down.led);
    let still_down = st.poll(true, 50);
    assert!(still_down.led);
    let up = st.poll(false, 100);
    assert!(!up.led);
    let still_up = st.poll(false, 150);
    assert!(!still_up.led);
}

#[test]
fn test_word_of_presses_spells_hi() {
    let mut st = DecoderState::new();
    // H: four dots.
    for i in 0..4u64 {
        press(&mut st, i * 200, 100);
    }
    let h = st.poll(false, 1900);
    assert_eq!(h.decoded, Some('H'));
    // I: two dots.
    press(&mut st, 2000, 100);
    press(&mut st, 2200, 100);
    let out_i = st.poll(false, 3500);
    assert_eq!(out_i.decoded, Some('I'));
    // Then a word gap.
    let space = st.poll(false, 5800);
    assert!(space.space);
}
