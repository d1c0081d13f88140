use piston2d_abstraction::button::{Button, ButtonSet, HatState};

const LEFT: Button = Button::Mouse(1);
const RIGHT: Button = Button::Mouse(2);
const SPACE: Button = Button::Keyboard(32);

#[test]
fn new_set_is_empty() {
    let set = ButtonSet::new();
    assert!(set.is_empty());
    assert_eq!(set.len(), 0);
    assert!(!set.contains(&LEFT));
    assert!(set.to_vec().is_empty());
}

#[test]
fn insert_reports_whether_the_button_was_new() {
    let mut set = ButtonSet::new();
    assert!(set.insert(LEFT));
    assert!(!set.insert(LEFT));
    assert!(set.insert(RIGHT));
    assert_eq!(set.len(), 2);
    assert!(set.contains(&LEFT));
    assert!(set.contains(&RIGHT));
    assert!(!set.contains(&SPACE));
    assert!(!set.is_empty());
}

#[test]
fn remove_reports_whether_the_button_was_there() {
    let mut set = ButtonSet::from_slice(&[LEFT, RIGHT, SPACE]);
    assert!(set.remove(&RIGHT));
    assert!(!set.remove(&RIGHT));
    assert_eq!(set.len(), 2);
    assert!(set.contains(&LEFT));
    assert!(!set.contains(&RIGHT));
    assert!(set.contains(&SPACE));
    assert!(set.remove(&LEFT));
    assert!(set.remove(&SPACE));
    assert!(set.is_empty());
    assert!(!set.remove(&SPACE));
}

#[test]
fn from_slice_drops_repeats() {
    let set = ButtonSet::from_slice(&[LEFT, SPACE, LEFT, LEFT, SPACE]);
    assert_eq!(set.len(), 2);
    assert!(set.contains(&LEFT));
    assert!(set.contains(&SPACE));
    assert!(ButtonSet::from_slice(&[]).is_empty());
}

#[test]
fn buttons_differ_by_device_and_by_every_field() {
    let mut set = ButtonSet::new();
    assert!(set.insert(Button::Keyboard(1)));
    assert!(set.insert(Button::Mouse(1)));
    assert!(set.insert(Button::Controller { id: 1, button: 1 }));
    assert!(set.insert(Button::Controller { id: 1, button: 2 }));
    assert!(set.insert(Button::Controller { id: 2, button: 1 }));
    assert!(set.insert(Button::Hat { id: 1, state: HatState::Up, which: 1 }));
    assert!(set.insert(Button::Hat { id: 1, state: HatState::Down, which: 1 }));
    assert!(set.insert(Button::Hat { id: 1, state: HatState::Up, which: 2 }));
    assert!(!set.insert(Button::Hat { id: 1, state: HatState::Up, which: 1 }));
    assert_eq!(set.len(), 8);
}

#[test]
fn sets_are_equal_whatever_the_order_of_insertion() {
    let one = ButtonSet::from_slice(&[LEFT, RIGHT, SPACE]);
    let other = ButtonSet::from_slice(&[SPACE, LEFT, RIGHT]);
    assert!(one == other);
    assert!(other == one);
    assert!(ButtonSet::new() == ButtonSet::from_slice(&[]));
}

#[test]
fn sets_of_different_content_are_not_equal() {
    let one = ButtonSet::from_slice(&[LEFT, RIGHT]);
    assert!(one != ButtonSet::from_slice(&[LEFT]));
    assert!(one != ButtonSet::from_slice(&[LEFT, RIGHT, SPACE]));
    assert!(one != ButtonSet::from_slice(&[LEFT, SPACE]));
    assert!(one != ButtonSet::new());
}

#[test]
fn subset_is_told_from_overlap() {
    let small = ButtonSet::from_slice(&[LEFT]);
    let large = ButtonSet::from_slice(&[RIGHT, LEFT]);
    let other = ButtonSet::from_slice(&[LEFT, SPACE]);
    assert!(small.is_subset(&large));
    assert!(!large.is_subset(&small));
    assert!(large.is_subset(&large));
    assert!(!large.is_subset(&other));
    assert!(ButtonSet::new().is_subset(&small));
    assert!(ButtonSet::new().is_subset(&ButtonSet::new()));
}

#[test]
fn to_vec_lists_each_button_once() {
    let mut set = ButtonSet::from_slice(&[LEFT, RIGHT, LEFT, SPACE]);
    set.remove(&RIGHT);
    let list = set.to_vec();
    assert_eq!(list.len(), 2);
    assert!(list.contains(&LEFT));
    assert!(list.contains(&SPACE));
}

#[test]
fn clone_holds_the_same_buttons_and_is_independent() {
    let first = ButtonSet::from_slice(&[LEFT, RIGHT]);
    let mut copy = first.clone();
    assert!(copy == first);
    copy.insert(SPACE);
    assert!(copy != first);
    assert_eq!(first.len(), 2);
    assert_eq!(copy.len(), 3);
}
