use tood::cursor::{BoundedState, StateWrap};

#[test]
fn empty_boundary_never_selects() {
    let mut c = BoundedState::new(0, StateWrap::Enable);
    assert_eq!(c.selected(), None);
    c.first();
    assert_eq!(c.selected(), None);
    c.next();
    assert_eq!(c.selected(), None);
    c.prev();
    assert_eq!(c.selected(), None);
    assert!(c.select(0).is_err());
    assert_eq!(c.selected(), None);
}

#[test]
fn select_rejects_out_of_bounds() {
    let mut c = BoundedState::new(3, StateWrap::Enable);
    assert!(c.select(3).is_err());
    assert_eq!(c.selected(), None);
    assert!(c.select(2).is_ok());
    assert_eq!(c.selected(), Some(2));
}

#[test]
fn wrapping_steps_cycle() {
    let mut c = BoundedState::new(3, StateWrap::Enable);
    c.first();
    assert_eq!(c.selected(), Some(0));
    c.next();
    c.next();
    assert_eq!(c.selected(), Some(2));
    c.next();
    assert_eq!(c.selected(), Some(0));
    c.prev();
    assert_eq!(c.selected(), Some(2));
}

#[test]
fn clamped_steps_stop_at_the_ends() {
    let mut c = BoundedState::new(3, StateWrap::Disable);
    c.next();
    assert_eq!(c.selected(), Some(0));
    c.next();
    c.next();
    c.next();
    assert_eq!(c.selected(), Some(2));
    c.prev();
    c.prev();
    c.prev();
    assert_eq!(c.selected(), Some(0));
}

#[test]
fn shrinking_boundary_clamps_then_clears() {
    let mut c = BoundedState::new(5, StateWrap::Enable);
    assert!(c.select(4).is_ok());
    c.update_boundary(2);
    assert_eq!(c.selected(), Some(1));
    c.update_boundary(0);
    assert_eq!(c.selected(), None);
}

#[test]
fn growing_boundary_keeps_selection() {
    let mut c = BoundedState::new(2, StateWrap::Enable);
    assert!(c.select(1).is_ok());
    c.update_boundary(10);
    assert_eq!(c.selected(), Some(1));
    c.update_upper_and_select(9);
    assert_eq!(c.selected(), Some(9));
}

#[test]
fn deselect_clears() {
    let mut c = BoundedState::new(2, StateWrap::Enable);
    c.first();
    assert_eq!(c.selected(), Some(0));
    c.deselect();
    assert_eq!(c.selected(), None);
    assert!(!c.has_selection());
}
