//! A quadrature rotary encoder decoded from two debounced channels.

use crate::filter::{normalize, normalized, DebounceFilter, FilterModel};
use vstd::prelude::*;

pub use crate::velocity::EncoderVelocityMap;

verus! {

/// An event of a bank of encoders: the encoder's index and its ticks.
pub enum EncoderEvent {
    Ticks(usize, i32),
}

/// The direction decoded from the stable levels of the two channels before
/// and after one poll. A tick needs the two new levels to disagree and
/// exactly one channel to have changed: `-1` when channel A rose, `+1`
/// when channel B rose, nothing for a falling channel.
pub open spec fn direction(old_a: bool, old_b: bool, new_a: bool, new_b: bool) -> Option<i32> {
    if new_a != new_b && ((new_a != old_a) != (new_b != old_b)) {
        if new_a && !old_a {
            Some(-1i32)
        } else if new_b && !old_b {
            Some(1i32)
        } else {
            None
        }
    } else {
        None
    }
}

/// Exec counterpart of [`direction`].
pub fn decode(old_a: bool, old_b: bool, new_a: bool, new_b: bool) -> (tick: Option<i32>)
    ensures
        tick == direction(old_a, old_b, new_a, new_b),
        (new_a != old_a && new_b != old_b) ==> tick.is_none(),
        new_a == new_b ==> tick.is_none(),
{
    let changed_a = new_a != old_a;
    let changed_b = new_b != old_b;
    if new_a != new_b && changed_a != changed_b {
        if new_a && changed_a {
            return Some(-1);
        }
        if new_b && changed_b {
            return Some(1);
        }
    }
    None
}

/// The accumulator after a poll: the direction is added, and the sum stays
/// at the end of the `i32` range once it has reached it.
pub open spec fn accumulated(ticks: i32, tick: Option<i32>) -> i32 {
    match tick {
        Some(d) => if ticks + d > i32::MAX {
            i32::MAX
        } else if ticks + d < i32::MIN {
            i32::MIN
        } else {
            (ticks + d) as i32
        },
        None => ticks,
    }
}

/// The encoder as a mathematical value.
pub struct EncoderModel {
    pub a: FilterModel,
    pub b: FilterModel,
    pub ticks: i32,
}

impl EncoderModel {
    /// The direction that feeding one pair of normalized samples produces.
    pub open spec fn tick(self, sample_a: bool, sample_b: bool) -> Option<i32> {
        direction(
            self.a.stable,
            self.b.stable,
            self.a.step(sample_a).stable,
            self.b.step(sample_b).stable,
        )
    }

    /// The encoder after one pair of normalized samples has been fed.
    pub open spec fn step(self, sample_a: bool, sample_b: bool) -> EncoderModel {
        EncoderModel {
            a: self.a.step(sample_a),
            b: self.b.step(sample_b),
            ticks: accumulated(self.ticks, self.tick(sample_a, sample_b)),
        }
    }
}

/// Glitch rejection. When the stable levels of both channels change on
/// one poll, no tick is emitted and the accumulator keeps its value.
pub proof fn lemma_double_change_gives_no_tick(m: EncoderModel, sample_a: bool, sample_b: bool)
    requires
        m.step(sample_a, sample_b).a.stable != m.a.stable,
        m.step(sample_a, sample_b).b.stable != m.b.stable,
    ensures
        m.tick(sample_a, sample_b).is_none(),
        m.step(sample_a, sample_b).ticks == m.ticks,
{
}

/// A tick is `-1` or `+1`, needs the new stable levels to disagree, and
/// comes from a channel that rose while the other one stood still.
pub proof fn lemma_tick_is_one_rising_channel(old_a: bool, old_b: bool, new_a: bool, new_b: bool)
    ensures
        direction(old_a, old_b, new_a, new_b) == Some(-1i32) <==> (!old_a && new_a && !old_b
            && !new_b),
        direction(old_a, old_b, new_a, new_b) == Some(1i32) <==> (!old_b && new_b && !old_a
            && !new_a),
        direction(old_a, old_b, new_a, new_b).is_some() ==> (direction(old_a, old_b, new_a, new_b)
            == Some(-1i32) || direction(old_a, old_b, new_a, new_b) == Some(1i32)),
{
}

/// A rotary encoder whose two channels are debounced over windows of
/// `FILTER_SIZE` samples, between two and eight. It keeps the two pins it
/// belongs to; the caller reads them and hands the levels in.
pub struct RotaryEncoder<I, const FILTER_SIZE: usize> {
    pin_a: I,
    pin_b: I,
    filter_a: DebounceFilter<FILTER_SIZE>,
    filter_b: DebounceFilter<FILTER_SIZE>,
    pull_up: bool,
    ticks: i32,
}

impl<I, const FILTER_SIZE: usize> RotaryEncoder<I, FILTER_SIZE> {
    /// The encoder's model.
    pub closed spec fn view(&self) -> EncoderModel {
        EncoderModel { a: self.filter_a@, b: self.filter_b@, ticks: self.ticks }
    }

    /// Whether the pins are wired active-low.
    pub closed spec fn pull_up(&self) -> bool {
        self.pull_up
    }

    /// The pins of channel A and channel B.
    pub closed spec fn pins(&self) -> (I, I) {
        (self.pin_a, self.pin_b)
    }

    /// Creates an encoder with both channels low and no ticks counted.
    pub fn new(pin_a: I, pin_b: I, pull_up: bool) -> (encoder: Self)
        requires
            2 <= FILTER_SIZE <= 8,
        ensures
            encoder@ == (EncoderModel {
                a: FilterModel::fresh(FILTER_SIZE as nat),
                b: FilterModel::fresh(FILTER_SIZE as nat),
                ticks: 0,
            }),
            encoder.pull_up() == pull_up,
            encoder.pins() == (pin_a, pin_b),
    {
        RotaryEncoder {
            pin_a,
            pin_b,
            filter_a: DebounceFilter::new(pull_up),
            filter_b: DebounceFilter::new(pull_up),
            pull_up,
            ticks: 0,
        }
    }

    /// Lends the pin of channel A out. Whatever the borrower leaves there
    /// is the pin afterwards; nothing else is touched.
    pub fn pin_a(&mut self) -> (pin: &mut I)
        ensures
            *pin == old(self).pins().0,
            final(self).pins() == (*final(pin), old(self).pins().1),
            final(self)@ == old(self)@,
            final(self).pull_up() == old(self).pull_up(),
    {
        &mut self.pin_a
    }

    /// Lends the pin of channel B out. Whatever the borrower leaves there
    /// is the pin afterwards; nothing else is touched.
    pub fn pin_b(&mut self) -> (pin: &mut I)
        ensures
            *pin == old(self).pins().1,
            final(self).pins() == (old(self).pins().0, *final(pin)),
            final(self)@ == old(self)@,
            final(self).pull_up() == old(self).pull_up(),
    {
        &mut self.pin_b
    }

    /// Whether the pins are wired active-low.
    pub fn is_pull_up(&self) -> (pull_up: bool)
        ensures
            pull_up == self.pull_up(),
    {
        self.pull_up
    }

    /// The ticks accumulated since the last reset.
    pub fn ticks(&self) -> (ticks: i32)
        ensures
            ticks == self@.ticks,
    {
        self.ticks
    }

    /// Sets the accumulator back to zero and leaves the channels alone.
    pub fn reset_ticks(&mut self)
        ensures
            final(self)@ == (EncoderModel { ticks: 0, ..old(self)@ }),
            final(self).pull_up() == old(self).pull_up(),
            final(self).pins() == old(self).pins(),
    {
        self.ticks = 0;
    }

    /// Feeds the levels read from the two pins (`true` for high), each
    /// through its own filter, and decodes the new stable levels against
    /// the old ones. The direction, if any, is added to the accumulator.
    pub fn poll(&mut self, level_a: bool, level_b: bool) -> (tick: Option<i32>)
        ensures
            old(self)@.a.wf(),
            old(self)@.b.wf(),
            old(self)@.a.window.len() == FILTER_SIZE,
            old(self)@.b.window.len() == FILTER_SIZE,
            final(self).pull_up() == old(self).pull_up(),
            final(self).pins() == old(self).pins(),
            final(self)@ == old(self)@.step(
                normalized(old(self).pull_up(), level_a),
                normalized(old(self).pull_up(), level_b),
            ),
            tick == old(self)@.tick(
                normalized(old(self).pull_up(), level_a),
                normalized(old(self).pull_up(), level_b),
            ),
            (final(self)@.a.stable != old(self)@.a.stable && final(self)@.b.stable != old(
                self,
            )@.b.stable) ==> tick.is_none(),
    {
        let old_a = self.filter_a.stable();
        let old_b = self.filter_b.stable();
        let _ = self.filter_a.feed(normalize(self.pull_up, level_a));
        let _ = self.filter_b.feed(normalize(self.pull_up, level_b));
        let tick = decode(old_a, old_b, self.filter_a.stable(), self.filter_b.stable());
        match tick {
            Some(d) => {
                if d > 0 {
                    if self.ticks < i32::MAX {
                        self.ticks = self.ticks + 1;
                    }
                } else {
                    if self.ticks > i32::MIN {
                        self.ticks = self.ticks - 1;
                    }
                }
            },
            None => {},
        }
        tick
    }
}

} // verus!
