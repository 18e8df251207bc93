//! The look of a checkbox, and the two animated axes that drive it.
use vstd::prelude::*;
use crate::animation::{
    lemma_number_blend_end_points, Animatable, AnimatedValue, AnimationTime, Interpolable,
};
use crate::color::{lemma_color_blend_end_points, Color};
use crate::fixed::Fixed;

verus! {

/// The radii of the four corners of a box.
#[derive(Clone, Copy, Debug, PartialEq, Eq, Structural, Hash)]
pub struct BorderRadius {
    /// The radius of the top left corner.
    pub top_left: Fixed,
    /// The radius of the top right corner.
    pub top_right: Fixed,
    /// The radius of the bottom right corner.
    pub bottom_right: Fixed,
    /// The radius of the bottom left corner.
    pub bottom_left: Fixed,
}

/// The appearance of a checkbox.
#[derive(Clone, Copy, Debug)]
pub struct Appearance {
    /// The background colour of the box.
    pub background: Color,
    /// The colour of the check mark.
    pub icon_color: Color,
    /// The border radius of the box.
    pub border_radius: BorderRadius,
    /// The border width of the box.
    pub border_width: Fixed,
    /// The border colour of the box.
    pub border_color: Color,
    /// The colour of the label, where the style sets one.
    pub text_color: Option<Color>,
}

/// The appearances a theme gives a checkbox.
///
/// A sheet is a lookup: the same style and the same state always give the
/// same appearance. The spec functions name what is looked up, so that what
/// is drawn can be stated in terms of it.
pub trait StyleSheet {
    /// The supported style of the sheet.
    type Style;

    /// The appearance of a checkbox the pointer is not over.
    spec fn active_spec(&self, style: &Self::Style, is_checked: bool) -> Appearance;

    /// The appearance of a checkbox the pointer is over.
    spec fn hovered_spec(&self, style: &Self::Style, is_checked: bool) -> Appearance;

    /// The appearance of a checkbox the pointer is not over.
    fn active(&self, style: &Self::Style, is_checked: bool) -> (appearance: Appearance)
        ensures
            appearance == self.active_spec(style, is_checked),
    ;

    /// The appearance of a checkbox the pointer is over.
    fn hovered(&self, style: &Self::Style, is_checked: bool) -> (appearance: Appearance)
        ensures
            appearance == self.hovered_spec(style, is_checked),
    ;
}

/// The simplest style sheet: four appearances, written down.
#[derive(Clone, Copy, Debug)]
pub struct Styles {
    /// Unchecked, pointer elsewhere.
    pub active_off: Appearance,
    /// Checked, pointer elsewhere.
    pub active_on: Appearance,
    /// Unchecked, pointer over the box.
    pub hovered_off: Appearance,
    /// Checked, pointer over the box.
    pub hovered_on: Appearance,
}

impl StyleSheet for Styles {
    type Style = ();

    open spec fn active_spec(&self, style: &(), is_checked: bool) -> Appearance {
        if is_checked {
            self.active_on
        } else {
            self.active_off
        }
    }

    open spec fn hovered_spec(&self, style: &(), is_checked: bool) -> Appearance {
        if is_checked {
            self.hovered_on
        } else {
            self.hovered_off
        }
    }

    fn active(&self, style: &(), is_checked: bool) -> (appearance: Appearance) {
        if is_checked {
            self.active_on
        } else {
            self.active_off
        }
    }

    fn hovered(&self, style: &(), is_checked: bool) -> (appearance: Appearance) {
        if is_checked {
            self.hovered_on
        } else {
            self.hovered_off
        }
    }
}

/// Appearances blend field by field. Colours and the border width blend, the
/// label colour blends as an optional value does, and the border radius, for
/// which no blend is defined, stays that of `self`.
impl Interpolable for Appearance {
    open spec fn interpolated_spec(self, other: Appearance, ratio: Fixed) -> Appearance {
        Appearance {
            background: self.background.interpolated_spec(other.background, ratio),
            icon_color: self.icon_color.interpolated_spec(other.icon_color, ratio),
            border_radius: self.border_radius,
            border_width: self.border_width.interpolated_spec(other.border_width, ratio),
            border_color: self.border_color.interpolated_spec(other.border_color, ratio),
            text_color: self.text_color.interpolated_spec(other.text_color, ratio),
        }
    }

    fn interpolated(self, other: Appearance, ratio: Fixed) -> (blended: Appearance) {
        Appearance {
            background: self.background.interpolated(other.background, ratio),
            icon_color: self.icon_color.interpolated(other.icon_color, ratio),
            border_radius: self.border_radius,
            border_width: self.border_width.interpolated(other.border_width, ratio),
            border_color: self.border_color.interpolated(other.border_color, ratio),
            text_color: self.text_color.interpolated(other.text_color, ratio),
        }
    }
}

/// At a ratio of zero a blend of appearances is the first appearance in every
/// field, provided the label colour is set in both or equal in both: a label
/// colour set on one side only always comes out as that of the second.
pub proof fn lemma_appearance_blend_at_zero(a: Appearance, b: Appearance)
    requires
        (a.text_color is Some && b.text_color is Some) || a.text_color == b.text_color,
    ensures
        a.interpolated_spec(b, Fixed::zero()) == a,
{
    lemma_color_blend_end_points(a.background, b.background);
    lemma_color_blend_end_points(a.icon_color, b.icon_color);
    lemma_color_blend_end_points(a.border_color, b.border_color);
    lemma_number_blend_end_points(a.border_width, b.border_width);
    if a.text_color is Some && b.text_color is Some {
        lemma_color_blend_end_points(a.text_color->0, b.text_color->0);
    }
}

/// At a ratio of one a blend of appearances is the second appearance in
/// every field, provided the two agree on the border radius, which is never
/// blended.
pub proof fn lemma_appearance_blend_at_one(a: Appearance, b: Appearance)
    requires
        a.border_radius == b.border_radius,
    ensures
        a.interpolated_spec(b, Fixed::one()) == b,
{
    lemma_color_blend_end_points(a.background, b.background);
    lemma_color_blend_end_points(a.icon_color, b.icon_color);
    lemma_color_blend_end_points(a.border_color, b.border_color);
    lemma_number_blend_end_points(a.border_width, b.border_width);
    if a.text_color is Some && b.text_color is Some {
        lemma_color_blend_end_points(a.text_color->0, b.text_color->0);
    }
}

/// The amount an axis rests at for a flag: one when it is set, zero when not.
pub open spec fn amount_spec(flag: bool) -> Fixed {
    if flag {
        Fixed::one()
    } else {
        Fixed::zero()
    }
}

/// The amount an axis rests at for a flag: one when it is set, zero when not.
pub fn amount(flag: bool) -> (r: Fixed)
    ensures
        r == amount_spec(flag),
{
    if flag {
        Fixed::one()
    } else {
        Fixed::zero()
    }
}

/// What happened to a checkbox, as far as it cares.
#[derive(Clone, Copy, Debug, PartialEq, Eq, Structural, Hash)]
pub enum Input {
    /// The left mouse button or a finger went down.
    Pressed,
    /// The pointer moved.
    CursorMoved,
    /// Anything else.
    Other,
}

/// What a checkbox does about an input.
#[derive(Clone, Copy, Debug, PartialEq, Eq, Structural, Hash)]
pub struct Response {
    /// The checked state to announce, where the box was toggled.
    pub toggle: Option<bool>,
    /// The hovered state to announce, where the pointer came or went.
    pub hover: Option<bool>,
    /// Whether to ask for a redraw.
    pub redraw: bool,
    /// Whether the input was used up.
    pub captured: bool,
}

/// The animated state of a checkbox: how far it is checked, and how far it
/// is hovered. Each axis is an animation of its own between zero and one.
#[derive(Clone, Copy, Debug)]
pub struct CheckboxState<Time> {
    /// How far the box is checked: zero is unchecked, one is checked.
    pub checked_amount: AnimatedValue<Time>,
    /// How far the box is hovered: zero is not, one is fully.
    pub hovered_amount: AnimatedValue<Time>,
}

impl<Time: AnimationTime> CheckboxState<Time> {
    /// The appearance to draw, given the four appearances of the style: not
    /// hovered and hovered, each unchecked and checked.
    ///
    /// The axes are applied one after the other. Each pair is blended by the
    /// checked amount, and the two results are blended by the hovered amount.
    pub open spec fn appearance_spec(
        self,
        active_off: Appearance,
        active_on: Appearance,
        hovered_off: Appearance,
        hovered_on: Appearance,
    ) -> Appearance {
        let checked = self.checked_amount.timed_progress_spec();
        let hovered = self.hovered_amount.timed_progress_spec();
        active_off.interpolated_spec(active_on, checked).interpolated_spec(
            hovered_off.interpolated_spec(hovered_on, checked),
            hovered,
        )
    }

    /// Whether the box is checked or on its way to being checked.
    pub open spec fn is_checked_spec(self) -> bool {
        self.checked_amount.real_value_spec() == Fixed::one()
    }

    /// Whether the box is hovered or on its way to being hovered.
    pub open spec fn is_hovered_spec(self) -> bool {
        self.hovered_amount.real_value_spec() == Fixed::one()
    }

    /// What the box does about `input`, given whether the pointer is over it.
    ///
    /// A press over the box toggles it, asks for a redraw and uses the
    /// press up. A pointer that moves onto a box that is not hovered, or off
    /// one that is, announces the change and asks for a redraw. Nothing else
    /// has any effect.
    pub open spec fn respond_spec(self, input: Input, mouse_over: bool) -> Response {
        match input {
            Input::Pressed => if mouse_over {
                Response {
                    toggle: Some(!self.is_checked_spec()),
                    hover: None,
                    redraw: true,
                    captured: true,
                }
            } else {
                Response { toggle: None, hover: None, redraw: false, captured: false }
            },
            Input::CursorMoved => if mouse_over != self.is_hovered_spec() {
                Response { toggle: None, hover: Some(mouse_over), redraw: true, captured: false }
            } else {
                Response { toggle: None, hover: None, redraw: false, captured: false }
            },
            Input::Other => Response { toggle: None, hover: None, redraw: false, captured: false },
        }
    }

    /// Whether the box is checked or on its way to being checked.
    pub fn is_checked(&self) -> (checked: bool)
        ensures
            checked == self.is_checked_spec(),
    {
        self.checked_amount.real_value().raw == Fixed::one().raw
    }

    /// Whether the box is hovered or on its way to being hovered.
    pub fn is_hovered(&self) -> (hovered: bool)
        ensures
            hovered == self.is_hovered_spec(),
    {
        self.hovered_amount.real_value().raw == Fixed::one().raw
    }

    /// What the box does about `input`, given whether the pointer is over it.
    pub fn respond(&self, input: Input, mouse_over: bool) -> (response: Response)
        ensures
            response == self.respond_spec(input, mouse_over),
    {
        let nothing = Response { toggle: None, hover: None, redraw: false, captured: false };
        match input {
            Input::Pressed => {
                if mouse_over {
                    Response {
                        toggle: Some(!self.is_checked()),
                        hover: None,
                        redraw: true,
                        captured: true,
                    }
                } else {
                    nothing
                }
            },
            Input::CursorMoved => {
                let currently_hovered = self.is_hovered();
                if mouse_over && !currently_hovered {
                    Response { toggle: None, hover: Some(true), redraw: true, captured: false }
                } else if !mouse_over && currently_hovered {
                    Response { toggle: None, hover: Some(false), redraw: true, captured: false }
                } else {
                    nothing
                }
            },
            Input::Other => nothing,
        }
    }

    /// Whether the check mark is drawn: it is as soon as the box shows any
    /// amount of being checked.
    pub fn icon_visible(&self) -> (visible: bool)
        ensures
            visible == (self.checked_amount.timed_progress_spec() != Fixed::zero()),
    {
        self.checked_amount.timed_progress().raw != 0
    }

    /// A state at rest, fully checked or not and fully hovered or not.
    pub fn new(is_checked: bool, is_hovered: bool) -> (state: Self)
        ensures
            state.checked_amount == AnimatedValue::<Time>::new_spec(amount_spec(is_checked)),
            state.hovered_amount == AnimatedValue::<Time>::new_spec(amount_spec(is_hovered)),
    {
        CheckboxState {
            checked_amount: AnimatedValue::new(amount(is_checked)),
            hovered_amount: AnimatedValue::new(amount(is_hovered)),
        }
    }

    /// Sends the checked axis toward checked or unchecked.
    pub fn check(&mut self, value: bool, now: Time)
        ensures
            final(self).checked_amount == old(self).checked_amount.transition_spec(
                amount_spec(value),
                now,
            ),
            final(self).hovered_amount == old(self).hovered_amount,
    {
        self.checked_amount.transition(amount(value), now);
    }

    /// Sends the hovered axis toward hovered or not hovered.
    pub fn hover(&mut self, value: bool, now: Time)
        ensures
            final(self).hovered_amount == old(self).hovered_amount.transition_spec(
                amount_spec(value),
                now,
            ),
            final(self).checked_amount == old(self).checked_amount,
    {
        self.hovered_amount.transition(amount(value), now);
    }

    /// The appearance to draw, given the four appearances of the style: not
    /// hovered and hovered, each unchecked and checked.
    pub fn appearance(
        &self,
        active_off: Appearance,
        active_on: Appearance,
        hovered_off: Appearance,
        hovered_on: Appearance,
    ) -> (shown: Appearance)
        ensures
            shown == self.appearance_spec(active_off, active_on, hovered_off, hovered_on),
    {
        let checked = self.checked_amount.timed_progress();
        let hovered = self.hovered_amount.timed_progress();
        let checked_interpolated = active_off.interpolated(active_on, checked);
        let hovered_interpolated = hovered_off.interpolated(hovered_on, checked);
        checked_interpolated.interpolated(hovered_interpolated, hovered)
    }

    /// The appearance to draw under a style sheet: the four appearances are
    /// looked up and handed to [`CheckboxState::appearance`].
    pub fn styled<Theme: StyleSheet>(&self, theme: &Theme, style: &Theme::Style) -> (shown:
        Appearance)
        ensures
            shown == self.appearance_spec(
                theme.active_spec(style, false),
                theme.active_spec(style, true),
                theme.hovered_spec(style, false),
                theme.hovered_spec(style, true),
            ),
    {
        let active_off = theme.active(style, false);
        let active_on = theme.active(style, true);
        let hovered_off = theme.hovered(style, false);
        let hovered_on = theme.hovered(style, true);
        self.appearance(active_off, active_on, hovered_off, hovered_on)
    }
}

impl<Time: AnimationTime> Animatable<Time> for CheckboxState<Time> {
    /// Ticks both axes. Another redraw is due if either was in flight.
    fn on_redraw_request_update(&mut self, now: Time) -> (redraw: bool)
        ensures
            final(self).checked_amount == old(self).checked_amount.tick_spec(now),
            final(self).hovered_amount == old(self).hovered_amount.tick_spec(now),
            redraw == (old(self).checked_amount.animating_spec()
                || old(self).hovered_amount.animating_spec()),
    {
        let checked = self.checked_amount.tick(now);
        let hovered = self.hovered_amount.tick(now);
        checked || hovered
    }
}

} // verus!
