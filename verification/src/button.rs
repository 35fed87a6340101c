//! A debounced push button that reports its new state on every change.

use crate::filter::{normalized, DebounceFilter, Edge, FilterModel};
use crate::SurfaceElement;
use vstd::prelude::*;
use vstd::std_specs::convert::IntoSpec;

verus! {

/// The debounced state of a button.
#[derive(Debug, Copy, Clone, PartialEq, Eq, PartialOrd, Structural)]
pub enum ButtonState {
    Released,
    Pressed,
}

impl Default for ButtonState {
    fn default() -> (state: Self)
        ensures
            state == ButtonState::Released,
    {
        ButtonState::Released
    }
}

impl core::ops::Not for ButtonState {
    type Output = bool;

    fn not(self) -> (released: bool) {
        match self {
            ButtonState::Pressed => false,
            ButtonState::Released => true,
        }
    }
}

impl vstd::std_specs::ops::NotSpecImpl for ButtonState {
    open spec fn obeys_not_spec() -> bool {
        true
    }

    open spec fn not_req(self) -> bool {
        true
    }

    open spec fn not_spec(self) -> bool {
        self == ButtonState::Released
    }
}

impl From<ButtonState> for bool {
    fn from(value: ButtonState) -> (pressed: bool) {
        match value {
            ButtonState::Released => false,
            ButtonState::Pressed => true,
        }
    }
}

impl vstd::std_specs::convert::FromSpecImpl<ButtonState> for bool {
    open spec fn obeys_from_spec() -> bool {
        true
    }

    open spec fn from_spec(value: ButtonState) -> bool {
        value == ButtonState::Pressed
    }
}

/// The state that a stable level stands for.
pub open spec fn state_of(stable: bool) -> ButtonState {
    if stable {
        ButtonState::Pressed
    } else {
        ButtonState::Released
    }
}

/// The state that an edge of the filter leads to.
pub open spec fn button_change(edge: Option<Edge>) -> Option<ButtonState> {
    match edge {
        Some(Edge::RoseStable) => Some(ButtonState::Pressed),
        Some(Edge::FellStable) => Some(ButtonState::Released),
        None => None,
    }
}

/// A button debounced over a window of `FILTER_SIZE` samples, between two
/// and eight. It keeps the pin it belongs to and is fed values of the
/// pin's type, each converted into a level.
pub struct DebouncedButton<I, const FILTER_SIZE: usize> {
    pin_sw: I,
    filter: DebounceFilter<FILTER_SIZE>,
}

impl<I, const FILTER_SIZE: usize> DebouncedButton<I, FILTER_SIZE> where I: Into<bool> {
    /// The model of the button's filter.
    pub closed spec fn view(&self) -> FilterModel {
        self.filter@
    }

    /// Whether the pin is wired active-low.
    pub closed spec fn pull_up(&self) -> bool {
        self.filter.pull_up()
    }

    /// The pin that the button keeps.
    pub closed spec fn pin(&self) -> I {
        self.pin_sw
    }

    /// What feeding the level `level` makes of the button `before`: the
    /// button `after` and the reported change.
    pub open spec fn fed(before: &Self, level: bool, after: &Self, change: Option<ButtonState>) -> bool {
        &&& after.pull_up() == before.pull_up()
        &&& after.pin() == before.pin()
        &&& after@ == before@.step(normalized(before.pull_up(), level))
        &&& change == button_change(before@.edge(normalized(before.pull_up(), level)))
    }

    /// Creates a released button with an all-low window.
    pub fn new(pin_sw: I, pull_up: bool) -> (button: Self)
        requires
            2 <= FILTER_SIZE <= 8,
        ensures
            button@ == FilterModel::fresh(FILTER_SIZE as nat),
            button.pull_up() == pull_up,
            button.pin() == pin_sw,
    {
        DebouncedButton { pin_sw, filter: DebounceFilter::new(pull_up) }
    }

    /// Lends the pin out. Whatever the borrower leaves there is the
    /// button's pin afterwards; the filter is not touched.
    pub fn get_pin(&mut self) -> (pin: &mut I)
        ensures
            *pin == old(self).pin(),
            final(self).pin() == *final(pin),
            final(self)@ == old(self)@,
            final(self).pull_up() == old(self).pull_up(),
    {
        &mut self.pin_sw
    }

    /// Whether the pin is wired active-low.
    pub fn is_pull_up(&self) -> (pull_up: bool)
        ensures
            pull_up == self.pull_up(),
    {
        self.filter.is_pull_up()
    }

    /// The debounced state.
    pub fn state(&self) -> (state: ButtonState)
        ensures
            state == state_of(self@.stable),
    {
        if self.filter.stable() {
            ButtonState::Pressed
        } else {
            ButtonState::Released
        }
    }

    /// True while the button is held down.
    #[inline]
    pub fn is_pressed(&self) -> (pressed: bool)
        ensures
            pressed == self@.stable,
    {
        self.state().into()
    }

    /// True while the button is released.
    #[inline]
    pub fn is_released(&self) -> (released: bool)
        ensures
            released == !self@.stable,
    {
        core::ops::Not::not(self.state())
    }

    /// Feeds a level (`true` for high) and reports the new state when the
    /// window has become unanimous against the old one.
    pub fn debounce_level(&mut self, level: bool) -> (change: Option<ButtonState>)
        ensures
            old(self)@.wf(),
            old(self)@.window.len() == FILTER_SIZE,
            Self::fed(old(self), level, final(self), change),
    {
        match self.filter.poll(level) {
            Some(Edge::RoseStable) => Some(ButtonState::Pressed),
            Some(Edge::FellStable) => Some(ButtonState::Released),
            None => None,
        }
    }

    /// Converts `input` into a level and feeds it. Where the conversion
    /// has a specification, the level is the one it names; in any case
    /// the button has been fed one level.
    pub fn debounce(&mut self, input: I) -> (change: Option<ButtonState>)
        ensures
            old(self)@.wf(),
            old(self)@.window.len() == FILTER_SIZE,
            exists|level: bool| Self::fed(old(self), level, final(self), change),
            I::obeys_into_spec() ==> Self::fed(old(self), input.into_spec(), final(self), change),
    {
        let level: bool = input.into();
        self.debounce_level(level)
    }
}

impl<I> SurfaceElement for DebouncedButton<I, 4> where I: Into<bool> {
    type Input = I;

    type Feedback = ();

    type Output = ButtonState;

    fn set_get(&mut self, value: Self::Input) -> (change: Option<Self::Output>)
        ensures
            exists|level: bool| Self::fed(old(self), level, final(self), change),
            I::obeys_into_spec() ==> Self::fed(old(self), value.into_spec(), final(self), change),
    {
        self.debounce(value)
    }

    fn feedback(&mut self, value: Self::Feedback)
        ensures
            *final(self) == *old(self),
    {
    }
}

} // verus!
