use mousebridge::keycode::keys;
use mousebridge::modifiers::{Modifiers, MouseButton, MouseButtons};

#[test]
fn modifier_bits_match_the_hid_report_byte() {
    assert_eq!(Modifiers::left_ctrl().bits(), 0b0000_0001);
    assert_eq!(Modifiers::left_shift().bits(), 0b0000_0010);
    assert_eq!(Modifiers::left_alt().bits(), 0b0000_0100);
    assert_eq!(Modifiers::left_meta().bits(), 0b0000_1000);
    assert_eq!(Modifiers::right_meta().bits(), 0b1000_0000);
}

#[test]
fn keys_and_bits_agree() {
    assert_eq!(Modifiers::none().with_key(keys::left_shift()), Modifiers::left_shift());
    assert_eq!(Modifiers::none().with_key(keys::right_meta()), Modifiers::right_meta());
}

#[test]
fn non_modifier_keys_do_not_change_the_set() {
    let m = Modifiers::left_ctrl();
    assert_eq!(m.with_key(keys::a()), m);
    assert_eq!(m.without_key(keys::space()), m);
    assert_eq!(m.with_key(keys::caps_lock()), m, "Caps Lock is not a modifier");
}

#[test]
fn left_and_right_are_distinct_but_either_satisfies_the_query() {
    let left = Modifiers::left_shift();
    let right = Modifiers::right_shift();
    assert_ne!(left, right);
    assert!(left.shift() && right.shift());
    assert!(!left.contains(right), "sides must not be conflated");
}

#[test]
fn held_keys_round_trips_through_the_bit_set() {
    let m = Modifiers::left_ctrl()
        .union(Modifiers::right_alt())
        .union(Modifiers::left_meta());
    let rebuilt = m
        .held_keys()
        .into_iter()
        .fold(Modifiers::none(), Modifiers::with_key);
    assert_eq!(rebuilt, m);
    assert_eq!(m.held_keys().len(), 3);
}

#[test]
fn display_is_readable() {
    assert_eq!(Modifiers::none().to_string(), "none");
    assert_eq!(
        Modifiers::left_meta().union(Modifiers::left_shift()).to_string(),
        "LeftShift+LeftMeta"
    );
}

#[test]
fn mouse_button_bits_are_distinct() {
    let mut seen = 0u8;
    for b in MouseButton::all() {
        assert_eq!(seen & b.bit(), 0, "{} reuses a bit", b.name());
        seen |= b.bit();
    }
}

#[test]
fn undefined_button_bits_are_discarded_not_stored() {
    let hostile = MouseButtons::from_bits(0b1110_0000);
    assert!(hostile.is_empty(), "an unclearable button bit was stored");
    assert_eq!(hostile.held().len(), 0);

    let mixed = MouseButtons::from_bits(0b1110_0001);
    assert_eq!(mixed.held().len(), 1);
    assert!(mixed.contains(MouseButton::Left));
    assert_eq!(
        mixed.bits().count_ones(),
        mixed.held().len() as u32,
        "every stored bit must be reachable through held()"
    );
}

#[test]
fn button_set_add_and_remove() {
    let set = MouseButtons::none()
        .with(MouseButton::Left)
        .with(MouseButton::Middle);
    assert!(set.contains(MouseButton::Left));
    assert!(!set.contains(MouseButton::Right));
    assert_eq!(set.held().len(), 2);

    let after = set.without(MouseButton::Left);
    assert!(!after.contains(MouseButton::Left));
    assert!(after.contains(MouseButton::Middle));
    assert_eq!(after.without(MouseButton::Left), after);
}

#[test]
fn either_side_answers_each_query_and_sets_combine() {
    let m = Modifiers::right_ctrl().union(Modifiers::left_alt());
    assert!(m.ctrl() && m.alt());
    assert!(!m.shift() && !m.meta());
    assert_eq!(m.without(Modifiers::left_alt()), Modifiers::right_ctrl());
    assert_eq!(m.without_key(keys::right_ctrl()), Modifiers::left_alt());
    assert_eq!(Modifiers::from_bits(0x11).bits(), 0x11);
    assert!(Modifiers::none().is_empty());
}
