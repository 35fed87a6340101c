//! Debounced digital inputs for a small control surface: push buttons,
//! switches, quadrature rotary encoders and a time-bucketed velocity table
//! for encoder ticks.
//!
//! Every type is a pure state machine: the caller samples the pins and the
//! clock and hands the plain values in.

use vstd::prelude::*;

pub mod button;
pub mod filter;
pub mod rotary_encoder;
pub mod switch;
pub mod velocity;

verus! {

/// An event of the whole surface, tagged with the index of the element
/// that produced it.
pub enum UiEvent {
    Fader,
    RotaryEncoder(usize, i32),
    Button(usize, button::ButtonState),
}

/// A fixed group of `N` elements of one kind.
pub struct Bank<S: SurfaceElement, const N: usize> {
    pub elements: [S; N],
}

/// One input element of a surface: it takes a sampled input and may
/// answer with an output, and it accepts feedback to display.
pub trait SurfaceElement {
    type Input;

    type Feedback;

    type Output;

    fn set_get(&mut self, value: Self::Input) -> Option<Self::Output>;

    fn feedback(&mut self, value: Self::Feedback);
}

/// A device made of elements, polled for its next event.
pub trait ControlSurface {
    type SurfaceEvent;

    fn update(&mut self) -> Option<Self::SurfaceEvent>;
}

} // verus!
