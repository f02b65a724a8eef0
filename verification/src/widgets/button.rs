//! The push button: its label and its interaction state machine.
use vstd::prelude::*;
use crate::theme::ColorRole;
use crate::widget::PointerKind;

verus! {

/// Where a button stands between the pointer's events.
#[derive(Clone, Copy, Debug, PartialEq, Eq, Structural)]
pub enum ButtonState {
    /// The pointer is elsewhere, or was released outside.
    Idle,
    /// The pointer rests over the button.
    Hovered,
    /// The left button went down over the button and has not come up yet.
    Pressed,
}

/// The state after one pointer event; `inside` tells whether the event's point
/// lies in the button's rectangle.
pub open spec fn next_state(s: ButtonState, kind: PointerKind, inside: bool) -> ButtonState {
    match kind {
        PointerKind::Move => if !inside {
            ButtonState::Idle
        } else if s == ButtonState::Idle {
            ButtonState::Hovered
        } else {
            s
        },
        PointerKind::Down => if inside {
            ButtonState::Pressed
        } else {
            s
        },
        PointerKind::Up => if inside && s == ButtonState::Pressed {
            ButtonState::Hovered
        } else {
            ButtonState::Idle
        },
    }
}

/// Whether the event completes a press: the button's action runs exactly then.
pub open spec fn fires(s: ButtonState, kind: PointerKind, inside: bool) -> bool {
    kind == PointerKind::Up && inside && s == ButtonState::Pressed
}

/// The theme colour that fills a button in each state.
pub open spec fn fill_role(s: ButtonState) -> ColorRole {
    match s {
        ButtonState::Idle => ColorRole::Primary,
        ButtonState::Hovered => ColorRole::PrimaryHover,
        ButtonState::Pressed => ColorRole::PrimaryPress,
    }
}

/// The state after a run of pointer events, each given as its kind and whether
/// its point lay inside the button.
pub open spec fn run(s: ButtonState, events: Seq<(PointerKind, bool)>) -> ButtonState
    decreases events.len(),
{
    if events.len() == 0 {
        s
    } else {
        run(next_state(s, events[0].0, events[0].1), events.drop_first())
    }
}

/// How many times the button's action runs during a run of pointer events.
pub open spec fn fire_count(s: ButtonState, events: Seq<(PointerKind, bool)>) -> nat
    decreases events.len(),
{
    if events.len() == 0 {
        0
    } else {
        (if fires(s, events[0].0, events[0].1) {
            1nat
        } else {
            0nat
        }) + fire_count(next_state(s, events[0].0, events[0].1), events.drop_first())
    }
}

/// How many events of a run are the left button going down inside the button.
pub open spec fn press_count(events: Seq<(PointerKind, bool)>) -> nat
    decreases events.len(),
{
    if events.len() == 0 {
        0
    } else {
        (if events[0] == (PointerKind::Down, true) {
            1nat
        } else {
            0nat
        }) + press_count(events.drop_first())
    }
}

/// One when the state is `Pressed`, else zero.
pub open spec fn pressed_mark(s: ButtonState) -> nat {
    if s == ButtonState::Pressed {
        1
    } else {
        0
    }
}

/// Moving inside the button lights up a button at rest or already lit, and
/// keeps a pressed button pressed; it never leaves the button at rest.
pub proof fn lemma_move_inside(s: ButtonState)
    ensures
        s != ButtonState::Pressed ==> next_state(s, PointerKind::Move, true)
            == ButtonState::Hovered,
        s == ButtonState::Pressed ==> next_state(s, PointerKind::Move, true)
            == ButtonState::Pressed,
        next_state(s, PointerKind::Move, true) != ButtonState::Idle,
        !fires(s, PointerKind::Move, true),
        !fires(s, PointerKind::Move, false),
{
}

/// The left button going down inside presses the button from any state;
/// going down outside changes nothing and never runs the action.
pub proof fn lemma_down(s: ButtonState, inside: bool)
    ensures
        next_state(s, PointerKind::Down, true) == ButtonState::Pressed,
        next_state(s, PointerKind::Down, false) == s,
        !fires(s, PointerKind::Down, inside),
{
}

/// The left button coming up: over a pressed button it runs the action and
/// leaves the button lit; in every other case (outside, or not pressed) the
/// button ends at rest, whatever it was before.
pub proof fn lemma_up(s: ButtonState, inside: bool)
    ensures
        (s == ButtonState::Pressed && inside) ==> (fires(s, PointerKind::Up, inside) && next_state(
            s,
            PointerKind::Up,
            inside,
        ) == ButtonState::Hovered),
        !(s == ButtonState::Pressed && inside) ==> (!fires(s, PointerKind::Up, inside)
            && next_state(s, PointerKind::Up, inside) == ButtonState::Idle),
        next_state(s, PointerKind::Up, false) == ButtonState::Idle,
{
}

/// Each state has its own fill colour: primary at rest, the hover shade when
/// lit, the press shade when pressed.
pub proof fn lemma_fill_roles(s: ButtonState)
    ensures
        fill_role(ButtonState::Idle) == ColorRole::Primary,
        fill_role(ButtonState::Hovered) == ColorRole::PrimaryHover,
        fill_role(ButtonState::Pressed) == ColorRole::PrimaryPress,
        fill_role(s) == ColorRole::Primary <==> s == ButtonState::Idle,
        fill_role(s) == ColorRole::PrimaryHover <==> s == ButtonState::Hovered,
        fill_role(s) == ColorRole::PrimaryPress <==> s == ButtonState::Pressed,
{
}

/// A click, the left button going down and coming up inside the button,
/// runs the action whatever the state before, and leaves the button hovered.
pub proof fn lemma_click_fires(s: ButtonState)
    ensures
        !fires(s, PointerKind::Down, true),
        fires(next_state(s, PointerKind::Down, true), PointerKind::Up, true),
        next_state(next_state(s, PointerKind::Down, true), PointerKind::Up, true)
            == ButtonState::Hovered,
{
}

/// The action runs only when the left button comes up inside a pressed button.
pub proof fn lemma_fires_only_on_release_inside(s: ButtonState, kind: PointerKind, inside: bool)
    ensures
        fires(s, kind, inside) <==> (kind == PointerKind::Up && inside && s
            == ButtonState::Pressed),
{
}

/// Once the left button comes up, wherever, the button is no longer pressed;
/// and a pointer that moves off the button leaves it at rest.
pub proof fn lemma_release_and_leave(s: ButtonState, inside: bool)
    ensures
        next_state(s, PointerKind::Up, inside) != ButtonState::Pressed,
        next_state(s, PointerKind::Move, false) == ButtonState::Idle,
{
}

/// The button becomes pressed only by the left button going down inside it.
pub proof fn lemma_pressed_only_by_press(s: ButtonState, kind: PointerKind, inside: bool)
    ensures
        next_state(s, kind, inside) == ButtonState::Pressed ==> (s == ButtonState::Pressed || (
        kind == PointerKind::Down && inside)),
{
}

/// Over any run of pointer events, the action runs at most once for each time
/// the left button went down inside the button (counting a press already
/// under way at the start); a press still under way at the end is counted
/// with the presses it has not yet spent.
pub proof fn lemma_fires_bounded_by_presses(s: ButtonState, events: Seq<(PointerKind, bool)>)
    ensures
        fire_count(s, events) + pressed_mark(run(s, events)) <= press_count(events) + pressed_mark(
            s,
        ),
    decreases events.len(),
{
    if events.len() > 0 {
        let e = events[0];
        lemma_fires_bounded_by_presses(next_state(s, e.0, e.1), events.drop_first());
    }
}

/// From a button not pressed, the action runs no more often than the left
/// button went down inside it.
pub proof fn lemma_no_action_without_press(s: ButtonState, events: Seq<(PointerKind, bool)>)
    requires
        s != ButtonState::Pressed,
    ensures
        fire_count(s, events) <= press_count(events),
{
    lemma_fires_bounded_by_presses(s, events);
}

impl ButtonState {
    /// Takes one pointer event and returns whether it completes a press.
    pub fn handle_event(&mut self, kind: PointerKind, inside: bool) -> (fired: bool)
        ensures
            *final(self) == next_state(*old(self), kind, inside),
            fired == fires(*old(self), kind, inside),
    {
        match kind {
            PointerKind::Move => {
                if inside {
                    if *self == ButtonState::Idle {
                        *self = ButtonState::Hovered;
                    }
                } else {
                    *self = ButtonState::Idle;
                }
                false
            },
            PointerKind::Down => {
                if inside {
                    *self = ButtonState::Pressed;
                }
                false
            },
            PointerKind::Up => {
                if inside && *self == ButtonState::Pressed {
                    *self = ButtonState::Hovered;
                    true
                } else {
                    *self = ButtonState::Idle;
                    false
                }
            },
        }
    }

    /// The theme colour that fills the button in this state.
    pub fn fill_role(&self) -> (role: ColorRole)
        ensures
            role == fill_role(*self),
    {
        match self {
            ButtonState::Idle => ColorRole::Primary,
            ButtonState::Hovered => ColorRole::PrimaryHover,
            ButtonState::Pressed => ColorRole::PrimaryPress,
        }
    }
}

/// A push button: a text label and the interaction state.
pub struct Button {
    label: String,
    state: ButtonState,
}

impl Button {
    /// The button's label.
    pub closed spec fn label_view(&self) -> Seq<char> {
        self.label@
    }

    /// The button's interaction state.
    pub closed spec fn state_view(&self) -> ButtonState {
        self.state
    }

    /// A button with an empty label, at rest.
    pub fn new() -> (b: Button)
        ensures
            b.label_view() == Seq::<char>::empty(),
            b.state_view() == ButtonState::Idle,
    {
        Button { label: String::new(), state: ButtonState::Idle }
    }

    /// The same button with another label.
    pub fn label(self, s: String) -> (b: Button)
        ensures
            b.label_view() == s@,
            b.state_view() == self.state_view(),
    {
        Button { label: s, state: self.state }
    }

    /// The label's text.
    pub fn text(&self) -> (t: &str)
        ensures
            t@ == self.label_view(),
    {
        self.label.as_str()
    }

    /// The current interaction state.
    pub fn state(&self) -> (s: ButtonState)
        ensures
            s == self.state_view(),
    {
        self.state
    }

    /// Whether the button draws its label: only a label with text is drawn.
    pub fn shows_label(&self) -> (b: bool)
        ensures
            b == (self.label_view().len() > 0),
    {
        !self.label.as_str().is_empty()
    }

    /// The theme colour that fills the button now.
    pub fn fill_role(&self) -> (role: ColorRole)
        ensures
            role == fill_role(self.state_view()),
    {
        self.state.fill_role()
    }

    /// Takes one pointer event; `inside` tells whether its point lies in the
    /// button's rectangle. Returns whether the button's action is to run,
    /// which is when the left button comes up over a pressed button.
    pub fn handle_event(&mut self, kind: PointerKind, inside: bool) -> (fired: bool)
        ensures
            final(self).state_view() == next_state(old(self).state_view(), kind, inside),
            final(self).label_view() == old(self).label_view(),
            fired == fires(old(self).state_view(), kind, inside),
    {
        self.state.handle_event(kind, inside)
    }
}

} // verus!
