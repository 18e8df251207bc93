use animated_value::animation::{Animatable, AnimatedValue};
use animated_value::checkbox::{CheckboxState, Input, Response};
use animated_value::fixed::Fixed;

fn fx(value: f64) -> Fixed {
    Fixed::from_raw((value * 1_000_000.0).round() as i64)
}

const NOTHING: Response = Response { toggle: None, hover: None, redraw: false, captured: false };

#[test]
fn real_value_is_the_position_at_rest_and_the_destination_in_flight() {
    let mut anim = AnimatedValue::<Fixed>::new(fx(3.0));
    anim.duration_ms = fx(1.0);
    assert_eq!(anim.real_value(), fx(3.0));
    anim.transition(fx(8.0), fx(0.0));
    assert_eq!(anim.real_value(), fx(8.0));
    assert!(anim.tick(fx(0.5)));
    assert_eq!(anim.real_value(), fx(8.0));
    anim.transition(fx(-1.0), fx(0.5));
    assert_eq!(anim.real_value(), fx(-1.0));
    assert!(anim.tick(fx(50.0)));
    assert_eq!(anim.real_value(), fx(-1.0));
    assert_eq!(anim.position, fx(-1.0));
}

#[test]
fn press_over_the_box_toggles_it() {
    let off = CheckboxState::<Fixed>::new(false, false);
    let on = CheckboxState::<Fixed>::new(true, false);
    assert_eq!(
        off.respond(Input::Pressed, true),
        Response { toggle: Some(true), hover: None, redraw: true, captured: true }
    );
    assert_eq!(
        on.respond(Input::Pressed, true),
        Response { toggle: Some(false), hover: None, redraw: true, captured: true }
    );
}

#[test]
fn press_elsewhere_is_ignored() {
    for (checked, hovered) in [(false, false), (true, false), (false, true), (true, true)] {
        let state = CheckboxState::<Fixed>::new(checked, hovered);
        assert_eq!(state.respond(Input::Pressed, false), NOTHING);
    }
}

#[test]
fn pointer_coming_and_going_is_announced() {
    let calm = CheckboxState::<Fixed>::new(false, false);
    let hot = CheckboxState::<Fixed>::new(false, true);
    assert_eq!(
        calm.respond(Input::CursorMoved, true),
        Response { toggle: None, hover: Some(true), redraw: true, captured: false }
    );
    assert_eq!(
        hot.respond(Input::CursorMoved, false),
        Response { toggle: None, hover: Some(false), redraw: true, captured: false }
    );
    assert_eq!(calm.respond(Input::CursorMoved, false), NOTHING);
    assert_eq!(hot.respond(Input::CursorMoved, true), NOTHING);
}

#[test]
fn other_inputs_are_ignored() {
    for (checked, hovered) in [(false, false), (true, false), (false, true), (true, true)] {
        let state = CheckboxState::<Fixed>::new(checked, hovered);
        assert_eq!(state.respond(Input::Other, true), NOTHING);
        assert_eq!(state.respond(Input::Other, false), NOTHING);
    }
}

#[test]
fn a_box_on_its_way_counts_as_arrived() {
    let mut state = CheckboxState::<Fixed>::new(false, false);
    state.checked_amount.duration_ms = fx(1.0);
    state.hovered_amount.duration_ms = fx(1.0);
    assert!(!state.is_checked());
    assert!(!state.is_hovered());
    state.check(true, fx(0.0));
    state.hover(true, fx(0.0));
    assert!(state.is_checked());
    assert!(state.is_hovered());
    assert!(state.on_redraw_request_update(fx(0.5)));
    assert!(state.is_checked());
    assert_eq!(state.respond(Input::Pressed, true).toggle, Some(false));
    assert_eq!(state.respond(Input::CursorMoved, true), NOTHING);
    state.check(false, fx(0.5));
    assert!(!state.is_checked());
    assert_eq!(state.respond(Input::Pressed, true).toggle, Some(true));
}

#[test]
fn check_mark_shows_as_soon_as_the_box_leaves_unchecked() {
    let mut state = CheckboxState::<Fixed>::new(false, false);
    state.checked_amount.duration_ms = fx(1.0);
    assert!(!state.icon_visible());
    state.check(true, fx(0.0));
    assert!(!state.icon_visible());
    assert!(state.on_redraw_request_update(fx(0.25)));
    assert!(state.icon_visible());
    assert!(state.on_redraw_request_update(fx(1.0)));
    assert!(state.icon_visible());
    state.check(false, fx(1.0));
    assert!(state.on_redraw_request_update(fx(2.0)));
    assert!(!state.icon_visible());
    assert!(CheckboxState::<Fixed>::new(true, false).icon_visible());
}
