use led_strip::buttons::{color_button, mode_button};
use led_strip::color::{Channel, ColorMask, INITIAL_COLOR_BITS};
use led_strip::mode::{Mode, INITIAL_MODE_INDEX};

fn color(bits: u8) -> ColorMask {
    ColorMask::from_bits(bits).unwrap()
}

#[test]
fn power_on_selection_is_first_mode_and_red() {
    assert_eq!(Mode::initial(), Mode::ConstantCycling);
    assert_eq!(Mode::initial().index(), 0);
    assert_eq!(ColorMask::initial().bits(), 1);
    assert_eq!(INITIAL_MODE_INDEX, 0);
    assert_eq!(INITIAL_COLOR_BITS, 1);
    assert_eq!(Mode::dispatch(INITIAL_MODE_INDEX), Mode::initial());
    assert_eq!(ColorMask::from_bits(INITIAL_COLOR_BITS), Some(ColorMask::initial()));
}

#[test]
fn mode_indices_are_zero_to_three() {
    assert_eq!(Mode::ConstantCycling.index(), 0);
    assert_eq!(Mode::ConstantSingle.index(), 1);
    assert_eq!(Mode::PulseCycling.index(), 2);
    assert_eq!(Mode::PulseSingle.index(), 3);
}

#[test]
fn mode_from_index_accepts_only_zero_to_three() {
    assert_eq!(Mode::from_index(0), Some(Mode::ConstantCycling));
    assert_eq!(Mode::from_index(1), Some(Mode::ConstantSingle));
    assert_eq!(Mode::from_index(2), Some(Mode::PulseCycling));
    assert_eq!(Mode::from_index(3), Some(Mode::PulseSingle));
    assert_eq!(Mode::from_index(4), None);
    assert_eq!(Mode::from_index(255), None);
}

#[test]
fn dispatch_sends_unknown_values_to_the_first_mode() {
    assert_eq!(Mode::dispatch(0), Mode::ConstantCycling);
    assert_eq!(Mode::dispatch(1), Mode::ConstantSingle);
    assert_eq!(Mode::dispatch(2), Mode::PulseCycling);
    assert_eq!(Mode::dispatch(3), Mode::PulseSingle);
    assert_eq!(Mode::dispatch(4), Mode::ConstantCycling);
    assert_eq!(Mode::dispatch(200), Mode::ConstantCycling);
}

#[test]
fn mode_next_steps_through_the_cycle() {
    assert_eq!(Mode::ConstantCycling.next(), Mode::ConstantSingle);
    assert_eq!(Mode::ConstantSingle.next(), Mode::PulseCycling);
    assert_eq!(Mode::PulseCycling.next(), Mode::PulseSingle);
    assert_eq!(Mode::PulseSingle.next(), Mode::ConstantCycling);
    for i in 0..4u8 {
        let m = Mode::from_index(i).unwrap();
        assert_eq!(m.next().index(), (i + 1) % 4);
    }
}

#[test]
fn four_mode_presses_return_to_the_start() {
    for i in 0..4u8 {
        let start = Mode::from_index(i).unwrap();
        let mut m = start;
        for _ in 0..4 {
            m = mode_button(m, true).unwrap();
        }
        assert_eq!(m, start);
    }
}

#[test]
fn only_the_pulse_modes_are_pulsing() {
    assert!(!Mode::ConstantCycling.is_pulsing());
    assert!(!Mode::ConstantSingle.is_pulsing());
    assert!(Mode::PulseCycling.is_pulsing());
    assert!(Mode::PulseSingle.is_pulsing());
}

#[test]
fn mode_button_without_confirmed_edge_does_nothing() {
    assert_eq!(mode_button(Mode::PulseCycling, false), None);
    assert_eq!(mode_button(Mode::PulseCycling, true), Some(Mode::PulseSingle));
}

#[test]
fn every_bounce_counts_as_a_press() {
    let mut m = Mode::ConstantCycling;
    for _ in 0..3 {
        m = mode_button(m, true).unwrap();
    }
    assert_eq!(m, Mode::PulseSingle);
}

#[test]
fn color_from_bits_accepts_only_three_bits() {
    for b in 0..8u8 {
        assert_eq!(ColorMask::from_bits(b).unwrap().bits(), b);
    }
    assert_eq!(ColorMask::from_bits(8), None);
    assert_eq!(ColorMask::from_bits(255), None);
}

#[test]
fn color_from_bits_truncate_keeps_the_low_three_bits() {
    assert_eq!(ColorMask::from_bits_truncate(13).bits(), 5);
    assert_eq!(ColorMask::from_bits_truncate(8).bits(), 0);
    assert_eq!(ColorMask::from_bits_truncate(255).bits(), 7);
    assert_eq!(ColorMask::from_bits_truncate(6), color(6));
}

#[test]
fn color_next_steps_through_all_eight_values() {
    for b in 0..8u8 {
        assert_eq!(color(b).next().bits(), (b + 1) % 8);
    }
    assert_eq!(color(7).next().bits(), 0);
}

#[test]
fn color_button_may_select_all_off() {
    assert_eq!(color_button(color(7), true), Some(color(0)));
    assert_eq!(color_button(color(0), true), Some(color(1)));
    assert_eq!(color_button(color(4), true), Some(color(5)));
    assert_eq!(color_button(color(4), false), None);
}

#[test]
fn eight_color_presses_return_to_the_start() {
    for b in 0..8u8 {
        let mut c = color(b);
        for _ in 0..8 {
            c = color_button(c, true).unwrap();
        }
        assert_eq!(c.bits(), b);
    }
}

#[test]
fn auto_next_never_selects_all_off() {
    assert_eq!(color(7).auto_next().bits(), 1);
    assert_eq!(color(0).auto_next().bits(), 1);
    for b in 1..7u8 {
        assert_eq!(color(b).auto_next().bits(), b + 1);
    }
    let mut c = ColorMask::initial();
    let mut seen = Vec::new();
    for _ in 0..14 {
        seen.push(c.bits());
        c = c.auto_next();
    }
    assert_eq!(seen, vec![1, 2, 3, 4, 5, 6, 7, 1, 2, 3, 4, 5, 6, 7]);
}

#[test]
fn mask_enables_a_channel_iff_its_bit_is_set() {
    let channels = [Channel::Red, Channel::Green, Channel::Blue];
    for b in 0..8u8 {
        for (i, ch) in channels.iter().enumerate() {
            assert_eq!(color(b).enables(*ch), (b >> i) & 1 == 1);
        }
    }
    assert!(color(5).enables(Channel::Red));
    assert!(!color(5).enables(Channel::Green));
    assert!(color(5).enables(Channel::Blue));
}

#[test]
fn channel_indices_are_zero_to_two() {
    assert_eq!(Channel::Red.index(), 0);
    assert_eq!(Channel::Green.index(), 1);
    assert_eq!(Channel::Blue.index(), 2);
    assert_eq!(Channel::from_index(0), Some(Channel::Red));
    assert_eq!(Channel::from_index(1), Some(Channel::Green));
    assert_eq!(Channel::from_index(2), Some(Channel::Blue));
    assert_eq!(Channel::from_index(3), None);
}
