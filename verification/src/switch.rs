//! A debounced switch that reports presses and releases.

use crate::filter::{normalized, DebounceFilter, Edge, FilterModel};
use vstd::prelude::*;

verus! {

/// A debounced transition of a switch.
#[derive(Debug, Copy, Clone, PartialEq, Eq, PartialOrd, Structural)]
pub enum SwitchEvent {
    Pressed,
    Released,
}

/// The event that an edge of the filter stands for.
pub open spec fn switch_event(edge: Option<Edge>) -> Option<SwitchEvent> {
    match edge {
        Some(Edge::RoseStable) => Some(SwitchEvent::Pressed),
        Some(Edge::FellStable) => Some(SwitchEvent::Released),
        None => None,
    }
}

/// A switch debounced over a window of `FILTER_SIZE` samples, between two
/// and eight. It keeps the pin it belongs to; the caller reads the pin and
/// hands the level in.
pub struct Switch<I, const FILTER_SIZE: usize> {
    pin_sw: I,
    filter: DebounceFilter<FILTER_SIZE>,
}

impl<I, const FILTER_SIZE: usize> Switch<I, FILTER_SIZE> {
    /// The model of the switch's filter.
    pub closed spec fn view(&self) -> FilterModel {
        self.filter@
    }

    /// Whether the pin is wired active-low.
    pub closed spec fn pull_up(&self) -> bool {
        self.filter.pull_up()
    }

    /// The pin that the switch keeps.
    pub closed spec fn pin(&self) -> I {
        self.pin_sw
    }

    /// Creates a released switch with an all-low window.
    pub fn new(pin_sw: I, pull_up: bool) -> (switch: Self)
        requires
            2 <= FILTER_SIZE <= 8,
        ensures
            switch@ == FilterModel::fresh(FILTER_SIZE as nat),
            switch.pull_up() == pull_up,
            switch.pin() == pin_sw,
    {
        Switch { pin_sw, filter: DebounceFilter::new(pull_up) }
    }

    /// Lends the pin out. Whatever the borrower leaves there is the
    /// switch's pin afterwards; the filter is not touched.
    pub fn get_pin(&mut self) -> (pin: &mut I)
        ensures
            *pin == old(self).pin(),
            final(self).pin() == *final(pin),
            final(self)@ == old(self)@,
            final(self).pull_up() == old(self).pull_up(),
    {
        &mut self.pin_sw
    }

    /// Whether the pin is wired active-low.
    pub fn is_pull_up(&self) -> (pull_up: bool)
        ensures
            pull_up == self.pull_up(),
    {
        self.filter.is_pull_up()
    }

    /// True while the switch is held down.
    #[inline]
    pub fn is_pressed(&self) -> (pressed: bool)
        ensures
            pressed == self@.stable,
    {
        self.filter.stable()
    }

    /// True while the switch is released.
    #[inline]
    pub fn is_released(&self) -> (released: bool)
        ensures
            released == !self@.stable,
    {
        !self.filter.stable()
    }

    /// Feeds the level read from the pin (`true` for high) and reports a
    /// press when the window has become all active, a release when it has
    /// become all inactive, and nothing otherwise.
    pub fn poll(&mut self, level: bool) -> (event: Option<SwitchEvent>)
        ensures
            old(self)@.wf(),
            old(self)@.window.len() == FILTER_SIZE,
            final(self).pull_up() == old(self).pull_up(),
            final(self).pin() == old(self).pin(),
            final(self)@ == old(self)@.step(normalized(old(self).pull_up(), level)),
            event == switch_event(old(self)@.edge(normalized(old(self).pull_up(), level))),
    {
        match self.filter.poll(level) {
            Some(Edge::RoseStable) => Some(SwitchEvent::Pressed),
            Some(Edge::FellStable) => Some(SwitchEvent::Released),
            None => None,
        }
    }
}

} // verus!
