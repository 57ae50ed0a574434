use led_strip::color::{Channel, ColorMask};
use led_strip::duty::DutyGenerator;
use led_strip::levels::Levels;

#[test]
fn new_generator_rests_at_zero_and_climbs() {
    let g = DutyGenerator::new(1000);
    assert_eq!(g.duty(), 0);
    assert_eq!(g.max(), 1000);
    assert!(g.to_add());
    let z = DutyGenerator::new(0);
    assert_eq!(z.duty(), 0);
    assert_eq!(z.max(), 0);
    assert!(z.to_add());
}

#[test]
fn triangle_with_maximum_three() {
    let mut g = DutyGenerator::new(3);
    let mut duties = Vec::new();
    let mut directions = Vec::new();
    for _ in 0..13 {
        g = g.tick();
        duties.push(g.duty());
        directions.push(g.to_add());
    }
    assert_eq!(duties, vec![1, 2, 3, 2, 1, 0, 1, 2, 3, 2, 1, 0, 1]);
    assert_eq!(
        directions,
        vec![true, true, false, false, false, true, true, true, false, false, false, true, true]
    );
}

#[test]
fn triangle_with_maximum_one_alternates() {
    let mut g = DutyGenerator::new(1);
    let mut duties = Vec::new();
    for _ in 0..6 {
        g = g.tick();
        duties.push(g.duty());
    }
    assert_eq!(duties, vec![1, 0, 1, 0, 1, 0]);
}

#[test]
fn duty_stays_in_bounds_and_moves_by_one() {
    let max: u16 = 1000;
    let mut g = DutyGenerator::new(max);
    let mut before = g.duty();
    for n in 1..=5000u32 {
        g = g.tick();
        let now = g.duty();
        assert!(now <= max);
        assert!(now == before + 1 || now + 1 == before);
        let phase = n % 2000;
        let expected = if phase <= 1000 { phase } else { 2000 - phase };
        assert_eq!(u32::from(now), expected);
        assert_eq!(g.to_add(), phase < 1000);
        assert_eq!(g.max(), max);
        before = now;
    }
}

#[test]
fn direction_turns_exactly_at_the_bounds() {
    let mut g = DutyGenerator::new(65535);
    for _ in 0..65534u32 {
        g = g.tick();
    }
    assert_eq!(g.duty(), 65534);
    assert!(g.to_add());
    g = g.tick();
    assert_eq!(g.duty(), 65535);
    assert!(!g.to_add());
    g = g.tick();
    assert_eq!(g.duty(), 65534);
    assert!(!g.to_add());
}

#[test]
fn masked_levels_follow_the_mask() {
    let c = ColorMask::from_bits(5).unwrap();
    assert_eq!(Levels::masked(c, 700), Levels { red: 700, green: 0, blue: 700 });
    for b in 0..8u8 {
        let l = Levels::masked(ColorMask::from_bits(b).unwrap(), 9);
        assert_eq!(l.red, if b & 1 == 1 { 9 } else { 0 });
        assert_eq!(l.green, if b & 2 == 2 { 9 } else { 0 });
        assert_eq!(l.blue, if b & 4 == 4 { 9 } else { 0 });
        assert_eq!(l.get(Channel::Red), l.red);
        assert_eq!(l.get(Channel::Green), l.green);
        assert_eq!(l.get(Channel::Blue), l.blue);
    }
}

#[test]
fn dark_levels_are_all_zero() {
    assert_eq!(Levels::dark(), Levels { red: 0, green: 0, blue: 0 });
    assert_eq!(Levels::masked(ColorMask::from_bits(7).unwrap(), 0), Levels::dark());
    assert_eq!(Levels::masked(ColorMask::from_bits(0).unwrap(), 500), Levels::dark());
}
