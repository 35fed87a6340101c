//! The shift-register debounce filter shared by buttons, switches and
//! rotary encoders, together with its mathematical model.

use vstd::prelude::*;

verus! {

/// A change of the filter's stable level.
#[derive(Clone, Copy, Debug, PartialEq, Eq, Structural)]
pub enum Edge {
    /// Every sample in the window is high and the stable level was low.
    RoseStable,
    /// Every sample in the window is low and the stable level was high.
    FellStable,
}

/// True when every entry of `w` equals `v`.
pub open spec fn all_are(w: Seq<bool>, v: bool) -> bool {
    forall|i: int| 0 <= i < w.len() ==> w[i] == v
}

/// The filter as a mathematical value: the window of the most recent
/// normalized samples, the position written next and the stable level.
pub struct FilterModel {
    pub window: Seq<bool>,
    pub index: nat,
    pub stable: bool,
}

impl FilterModel {
    /// A window of between two and eight samples with the write position inside it.
    pub open spec fn wf(self) -> bool {
        2 <= self.window.len() <= 8 && self.index < self.window.len()
    }

    /// The freshly constructed filter of `size` samples.
    pub open spec fn fresh(size: nat) -> FilterModel {
        FilterModel { window: Seq::new(size, |i: int| false), index: 0, stable: false }
    }

    /// The window and the stable level agree: nothing is pending.
    pub open spec fn settled(self) -> bool {
        all_are(self.window, self.stable)
    }

    /// The window after `sample` has been written at the write position.
    pub open spec fn written(self, sample: bool) -> Seq<bool> {
        self.window.update(self.index as int, sample)
    }

    /// The edge that feeding `sample` produces.
    pub open spec fn edge(self, sample: bool) -> Option<Edge> {
        if all_are(self.written(sample), true) && !self.stable {
            Some(Edge::RoseStable)
        } else if all_are(self.written(sample), false) && self.stable {
            Some(Edge::FellStable)
        } else {
            None
        }
    }

    /// The filter after `sample` has been fed.
    pub open spec fn step(self, sample: bool) -> FilterModel {
        FilterModel {
            window: self.written(sample),
            index: if self.index + 1 >= self.window.len() {
                0
            } else {
                self.index + 1
            },
            stable: match self.edge(sample) {
                Some(Edge::RoseStable) => true,
                Some(Edge::FellStable) => false,
                None => self.stable,
            },
        }
    }

    /// The filter after `sample` has been fed `count` times in a row.
    pub open spec fn repeat(self, sample: bool, count: nat) -> FilterModel
        decreases count,
    {
        if count == 0 {
            self
        } else {
            self.repeat(sample, (count - 1) as nat).step(sample)
        }
    }

    /// The filter after `count` samples that alternate, starting with `first`.
    pub open spec fn alternate(self, first: bool, count: nat) -> FilterModel
        decreases count,
    {
        if count == 0 {
            self
        } else {
            self.alternate(first, (count - 1) as nat).step(alternating(first, (count - 1) as nat))
        }
    }

    /// The position of the newest sample in the window: the one written last.
    pub open spec fn newest(self) -> int {
        if self.index == 0 {
            self.window.len() - 1
        } else {
            self.index - 1
        }
    }
}

/// Sample number `i`, counted from zero, of the alternating run that
/// starts with `first`.
pub open spec fn alternating(first: bool, i: nat) -> bool {
    if i % 2 == 0 {
        first
    } else {
        !first
    }
}

/// The edge that leads to the stable level `level`.
pub open spec fn edge_toward(level: bool) -> Edge {
    if level {
        Edge::RoseStable
    } else {
        Edge::FellStable
    }
}

/// The window after `count` identical samples, no more than it holds: it
/// has changed only where the samples were written, and the write position
/// has moved on by `count`, wrapping at the window's end.
proof fn lemma_repeat_window(m: FilterModel, sample: bool, count: nat)
    requires
        m.wf(),
        count <= m.window.len(),
    ensures
        ({
            let r = m.repeat(sample, count);
            let n = m.window.len();
            &&& r.wf()
            &&& r.window.len() == n
            &&& r.index == (if m.index + count < n {
                (m.index + count) as int
            } else {
                m.index + count - n
            })
            &&& forall|p: int|
                0 <= p < n ==> #[trigger] r.window[p] == (if (m.index <= p < m.index + count) || (p
                    + n < m.index + count) {
                    sample
                } else {
                    m.window[p]
                })
        }),
    decreases count,
{
    if count > 0 {
        lemma_repeat_window(m, sample, (count - 1) as nat);
    }
}

/// Fewer identical samples than the window holds, fed to a filter whose
/// stable level and newest sample both differ from them, produce no edge
/// and leave the stable level where it was.
proof fn lemma_repeat_before_full(m: FilterModel, sample: bool, count: nat)
    requires
        m.wf(),
        m.stable != sample,
        m.window[m.newest()] != sample,
        count < m.window.len(),
    ensures
        m.repeat(sample, count).stable == m.stable,
        count > 0 ==> m.repeat(sample, (count - 1) as nat).edge(sample).is_none(),
    decreases count,
{
    if count > 0 {
        let before = m.repeat(sample, (count - 1) as nat);
        lemma_repeat_before_full(m, sample, (count - 1) as nat);
        lemma_repeat_window(m, sample, (count - 1) as nat);
        let w = before.written(sample);
        assert(before.window[m.newest()] == m.window[m.newest()]);
        assert(w[m.newest()] != sample);
        assert(w[before.index as int] == sample);
    }
}

/// Hysteresis. Take a filter of `N` samples whose stable level and newest
/// sample both differ from `sample`, and feed it `sample` again and again.
/// Calls one to `N - 1` report nothing; call `N` reports the edge toward
/// `sample`. Every freshly made filter is such a filter for a high sample.
pub proof fn lemma_edge_on_last_of_full_window(m: FilterModel, sample: bool, call: nat)
    requires
        m.wf(),
        m.stable != sample,
        m.window[m.newest()] != sample,
        1 <= call <= m.window.len(),
    ensures
        m.repeat(sample, (call - 1) as nat).edge(sample) == (if call == m.window.len() {
            Some(edge_toward(sample))
        } else {
            None
        }),
        call == m.window.len() ==> m.repeat(sample, call).stable == sample,
{
    if call < m.window.len() {
        lemma_repeat_before_full(m, sample, call);
    } else {
        lemma_repeat_before_full(m, sample, (call - 1) as nat);
        lemma_full_window_settles(m, sample);
    }
}

/// Settling. A full window of identical samples settles every filter on
/// that sample: the window and the stable level equal it, the write
/// position is back where it was, and if the stable level had to change,
/// the last of the samples at the latest reported the edge.
pub proof fn lemma_full_window_settles(m: FilterModel, sample: bool)
    requires
        m.wf(),
    ensures
        m.repeat(sample, m.window.len()).wf(),
        m.repeat(sample, m.window.len()).settled(),
        m.repeat(sample, m.window.len()).stable == sample,
        m.repeat(sample, m.window.len()).index == m.index,
        all_are(m.repeat(sample, (m.window.len() - 1) as nat).written(sample), sample),
{
    let n = m.window.len();
    let before = m.repeat(sample, (n - 1) as nat);
    lemma_repeat_window(m, sample, (n - 1) as nat);
    lemma_repeat_window(m, sample, n);
    let w = before.written(sample);
    assert forall|p: int| 0 <= p < w.len() implies w[p] == sample by {
        if p != before.index {
            assert(before.window[p] == sample);
        }
    }
    assert(w[0] == sample);
    assert(m.repeat(sample, n).window =~= w);
}

/// A freshly made filter is low in every sample and in its stable level.
pub proof fn lemma_fresh_is_low(size: nat)
    requires
        2 <= size <= 8,
    ensures
        FilterModel::fresh(size).wf(),
        FilterModel::fresh(size).settled(),
        !FilterModel::fresh(size).stable,
        !FilterModel::fresh(size).window[FilterModel::fresh(size).newest()],
{
}

/// An edge leaves the filter settled on the sample that caused it: the
/// whole window and the stable level equal that sample.
pub proof fn lemma_edge_settles(m: FilterModel, sample: bool)
    requires
        m.wf(),
        m.edge(sample).is_some(),
    ensures
        m.edge(sample) == Some(edge_toward(sample)),
        m.stable != sample,
        m.step(sample).wf(),
        m.step(sample).settled(),
        m.step(sample).stable == sample,
{
    let w = m.written(sample);
    assert(w[m.index as int] == sample);
}

/// Idempotence. A filter that is settled on a sample stays silent and
/// settled for as long as that sample is repeated.
pub proof fn lemma_settled_stays_silent(m: FilterModel, count: nat)
    requires
        m.wf(),
        m.settled(),
    ensures
        m.repeat(m.stable, count).wf(),
        m.repeat(m.stable, count).settled(),
        m.repeat(m.stable, count).stable == m.stable,
        m.repeat(m.stable, count).window == m.window,
        m.repeat(m.stable, count).edge(m.stable).is_none(),
    decreases count,
{
    if count > 0 {
        lemma_settled_stays_silent(m, (count - 1) as nat);
    }
    let r = m.repeat(m.stable, count);
    assert(r.written(m.stable) =~= r.window);
    let w = r.written(m.stable);
    assert(w[0] == m.stable);
}

/// Idempotence after an edge. Once a sample has produced an edge, no
/// number of further samples of the same level produces another.
pub proof fn lemma_edge_is_not_repeated(m: FilterModel, sample: bool, count: nat)
    requires
        m.wf(),
        m.edge(sample).is_some(),
    ensures
        m.step(sample).repeat(sample, count).edge(sample).is_none(),
{
    lemma_edge_settles(m, sample);
    lemma_settled_stays_silent(m.step(sample), count);
}

/// A step keeps the model well formed and the window's length.
pub proof fn lemma_step_wf(m: FilterModel, sample: bool)
    requires
        m.wf(),
    ensures
        m.step(sample).wf(),
        m.step(sample).window.len() == m.window.len(),
        m.step(sample).window[m.index as int] == sample,
        m.step(sample).index != m.index,
{
}

/// Bounce rejection, one step. A sample that differs from the one before
/// it never produces an edge.
pub proof fn lemma_no_edge_after_opposite_sample(m: FilterModel, sample: bool)
    requires
        m.wf(),
    ensures
        m.step(!sample).edge(sample).is_none(),
{
    lemma_step_wf(m, !sample);
    let after = m.step(!sample);
    let w = after.written(sample);
    assert(w[m.index as int] == !sample);
    assert(w[after.index as int] == sample);
}

/// Alternating samples keep the model well formed.
proof fn lemma_alternate_wf(m: FilterModel, first: bool, count: nat)
    requires
        m.wf(),
    ensures
        m.alternate(first, count).wf(),
    decreases count,
{
    if count > 0 {
        lemma_alternate_wf(m, first, (count - 1) as nat);
        lemma_step_wf(m.alternate(first, (count - 1) as nat), alternating(first, (count - 1) as nat));
    }
}

/// Bounce rejection. In a run of alternating samples no call after the
/// first produces an edge, whatever the filter held before; and the first
/// produces none either when the filter was settled.
pub proof fn lemma_alternating_samples_give_no_edge(m: FilterModel, first: bool, fed: nat)
    requires
        m.wf(),
        fed > 0 || m.settled(),
    ensures
        m.alternate(first, fed).edge(alternating(first, fed)).is_none(),
{
    if fed > 0 {
        let before = m.alternate(first, (fed - 1) as nat);
        lemma_alternate_wf(m, first, (fed - 1) as nat);
        assert(alternating(first, (fed - 1) as nat) == !alternating(first, fed));
        lemma_no_edge_after_opposite_sample(before, alternating(first, fed));
    } else {
        let w = m.written(first);
        if first == m.stable {
            assert(w =~= m.window);
            assert(w[0] == m.stable);
        } else {
            assert(w[m.index as int] == first);
            assert(w[m.newest()] == m.stable);
        }
    }
}

/// The sample that the filter sees for a raw pin level: inverted when the
/// input is wired active-low (pulled up), unchanged otherwise.
pub open spec fn normalized(pull_up: bool, level: bool) -> bool {
    level != pull_up
}

/// Exec counterpart of [`normalized`].
pub fn normalize(pull_up: bool, level: bool) -> (sample: bool)
    ensures
        sample == normalized(pull_up, level),
{
    level != pull_up
}

/// True when a window of `size` samples fits the filter: between two
/// samples and the eight bits of the history register.
pub open spec fn size_fits(size: usize) -> bool {
    2 <= size <= 8
}

/// Exec counterpart of [`size_fits`], for a caller that has to test a
/// size before it constructs a filter.
pub fn filter_size_fits(size: usize) -> (fits: bool)
    ensures
        fits == size_fits(size),
{
    2 <= size && size <= 8
}

/// Bit `i` of the history register.
pub open spec fn bit_at(h: u8, i: u8) -> bool {
    h & (1u8 << i) != 0
}

/// The register with its low `n` bits set.
pub open spec fn low_bits(n: u8) -> u8 {
    0xffu8 >> ((8u8 - n) as u8)
}

/// Setting or clearing bit `idx` changes bit `idx` and no other.
proof fn lemma_set_bit(h: u8, idx: u8, j: u8)
    by (bit_vector)
    requires
        idx < 8,
        j < 8,
    ensures
        ((h | (1u8 << idx)) & (1u8 << j) != 0) == (j == idx || (h & (1u8 << j) != 0)),
        ((h & !(1u8 << idx)) & (1u8 << j) != 0) == (j != idx && (h & (1u8 << j) != 0)),
{
}

/// Writing a bit inside the low `n` bits leaves the bits above them clear.
proof fn lemma_stays_low(h: u8, idx: u8, n: u8)
    by (bit_vector)
    requires
        2 <= n <= 8,
        idx < n,
        h & !(0xffu8 >> ((8u8 - n) as u8)) == 0,
    ensures
        (h | (1u8 << idx)) & !(0xffu8 >> ((8u8 - n) as u8)) == 0,
        (h & !(1u8 << idx)) & !(0xffu8 >> ((8u8 - n) as u8)) == 0,
{
}

/// A register within its low `n` bits equals the mask exactly when each
/// of those bits is set, and zero exactly when each is clear.
proof fn lemma_unanimous(h: u8, n: u8)
    by (bit_vector)
    requires
        2 <= n <= 8,
        h & !(0xffu8 >> ((8u8 - n) as u8)) == 0,
    ensures
        (h == 0xffu8 >> ((8u8 - n) as u8)) == ((h & (1u8 << 0u8) != 0) && (h & (1u8 << 1u8) != 0) && (n > 2
            ==> h & (1u8 << 2u8) != 0) && (n > 3 ==> h & (1u8 << 3u8) != 0) && (n > 4 ==> h & (1u8
            << 4u8) != 0) && (n > 5 ==> h & (1u8 << 5u8) != 0) && (n > 6 ==> h & (1u8 << 6u8) != 0)
            && (n > 7 ==> h & (1u8 << 7u8) != 0)),
        (h == 0) == ((h & (1u8 << 0u8) == 0) && (h & (1u8 << 1u8) == 0) && (n > 2 ==> h & (1u8
            << 2u8) == 0) && (n > 3 ==> h & (1u8 << 3u8) == 0) && (n > 4 ==> h & (1u8 << 4u8) == 0)
            && (n > 5 ==> h & (1u8 << 5u8) == 0) && (n > 6 ==> h & (1u8 << 6u8) == 0) && (n > 7
            ==> h & (1u8 << 7u8) == 0)),
{
}

/// The mask of `n` bits is not zero, and zero lies within it.
proof fn lemma_low_bits(n: u8)
    by (bit_vector)
    requires
        2 <= n <= 8,
    ensures
        0u8 & !(0xffu8 >> ((8u8 - n) as u8)) == 0,
        0xffu8 >> ((8u8 - n) as u8) != 0,
{
}

/// The window that a history register of `n` bits stands for.
pub open spec fn window_of(h: u8, n: nat) -> Seq<bool> {
    Seq::new(n, |i: int| bit_at(h, i as u8))
}

/// A register within its low `n` bits is all ones exactly when its window
/// is all high, and zero exactly when its window is all low.
proof fn lemma_window_unanimous(h: u8, n: u8)
    requires
        2 <= n <= 8,
        h & !low_bits(n) == 0,
    ensures
        (h == low_bits(n)) == all_are(window_of(h, n as nat), true),
        (h == 0) == all_are(window_of(h, n as nat), false),
{
    lemma_unanimous(h, n);
    let w = window_of(h, n as nat);
    assert(w[0] == bit_at(h, 0u8));
    assert(w[1] == bit_at(h, 1u8));
    assert(n > 2 ==> w[2] == bit_at(h, 2u8));
    assert(n > 3 ==> w[3] == bit_at(h, 3u8));
    assert(n > 4 ==> w[4] == bit_at(h, 4u8));
    assert(n > 5 ==> w[5] == bit_at(h, 5u8));
    assert(n > 6 ==> w[6] == bit_at(h, 6u8));
    assert(n > 7 ==> w[7] == bit_at(h, 7u8));
    assert forall|i: int| 0 <= i < n implies (w[i] == bit_at(h, i as u8) && (i == 0 || i == 1 || i
        == 2 || i == 3 || i == 4 || i == 5 || i == 6 || i == 7)) by {}
}

/// Writing one bit of the register writes one entry of its window.
proof fn lemma_window_write(h: u8, idx: u8, n: u8, sample: bool)
    requires
        2 <= n <= 8,
        idx < n,
    ensures
        window_of(if sample { h | (1u8 << idx) } else { h & !(1u8 << idx) }, n as nat)
            == window_of(h, n as nat).update(idx as int, sample),
{
    let h2 = if sample { h | (1u8 << idx) } else { h & !(1u8 << idx) };
    assert forall|j: int| 0 <= j < n implies #[trigger] window_of(h2, n as nat)[j] == window_of(
        h,
        n as nat,
    ).update(idx as int, sample)[j] by {
        lemma_set_bit(h, idx, j as u8);
    }
    assert(window_of(h2, n as nat) =~= window_of(h, n as nat).update(idx as int, sample));
}

/// A debounce filter over a window of `FILTER_SIZE` samples, held as one
/// bit each in a single byte.
pub struct DebounceFilter<const FILTER_SIZE: usize> {
    history: u8,
    index: u8,
    mask: u8,
    stable_state: bool,
    pull_up: bool,
}

impl<const FILTER_SIZE: usize> DebounceFilter<FILTER_SIZE> {
    /// The size lies between two and eight, the write position lies inside
    /// the window, the mask has exactly the window's bits set and the
    /// history has no bit outside it.
    #[verifier::type_invariant]
    spec fn inv(&self) -> bool {
        &&& 2 <= FILTER_SIZE <= 8
        &&& self.index < FILTER_SIZE
        &&& self.mask == low_bits(FILTER_SIZE as u8)
        &&& self.history & !self.mask == 0
    }

    /// The filter's model.
    pub closed spec fn view(&self) -> FilterModel {
        FilterModel {
            window: window_of(self.history, FILTER_SIZE as nat),
            index: self.index as nat,
            stable: self.stable_state,
        }
    }

    /// Whether raw levels are inverted before filtering.
    pub closed spec fn pull_up(&self) -> bool {
        self.pull_up
    }

    /// What holds of every filter's model: it is well formed and its
    /// window has `FILTER_SIZE` samples.
    pub open spec fn valid(&self) -> bool {
        self@.wf() && self@.window.len() == FILTER_SIZE
    }

    /// Creates a filter whose window is all low and whose stable level is low.
    pub fn new(pull_up: bool) -> (filter: Self)
        requires
            2 <= FILTER_SIZE <= 8,
        ensures
            filter.valid(),
            filter@ == FilterModel::fresh(FILTER_SIZE as nat),
            filter.pull_up() == pull_up,
    {
        let mut mask: u8 = 0;
        let mut i: u8 = 0;
        while i < FILTER_SIZE as u8
            invariant
                2 <= FILTER_SIZE <= 8,
                i <= FILTER_SIZE,
                i == 0 ==> mask == 0,
                i > 0 ==> mask == low_bits(i),
            decreases FILTER_SIZE - i,
        {
            assert((if i == 0 {
                0u8
            } else {
                0xffu8 >> ((8u8 - i) as u8)
            }) | (1u8 << i) == 0xffu8 >> ((8u8 - (i + 1)) as u8)) by (bit_vector)
                requires
                    i < 8,
            ;
            mask |= 1u8 << i;
            i += 1;
        }
        proof {
            lemma_low_bits(FILTER_SIZE as u8);
        }
        let filter = DebounceFilter { history: 0, index: 0, mask, stable_state: false, pull_up };
        proof {
            assert(filter@.window =~= FilterModel::fresh(FILTER_SIZE as nat).window) by {
                assert forall|j: u8| j < 8 implies !bit_at(0u8, j) by {
                    assert(0u8 & (1u8 << j) == 0) by (bit_vector);
                }
            }
        }
        filter
    }

    /// The current stable level.
    pub fn stable(&self) -> (level: bool)
        ensures
            level == self@.stable,
    {
        self.stable_state
    }

    /// Whether raw levels are inverted before filtering.
    pub fn is_pull_up(&self) -> (pull_up: bool)
        ensures
            pull_up == self.pull_up(),
    {
        self.pull_up
    }

    /// Feeds one sample that is already normalized: writes it into the
    /// window, advances the write position and reports the edge, if the
    /// window has become unanimous against the stable level.
    pub fn feed(&mut self, sample: bool) -> (edge: Option<Edge>)
        ensures
            old(self).valid(),
            final(self).valid(),
            final(self).pull_up() == old(self).pull_up(),
            final(self)@ == old(self)@.step(sample),
            edge == old(self)@.edge(sample),
    {
        proof {
            use_type_invariant(&*self);
            lemma_stays_low(self.history, self.index, FILTER_SIZE as u8);
            lemma_window_write(self.history, self.index, FILTER_SIZE as u8, sample);
        }
        let history: u8 = if sample {
            self.history | (1u8 << self.index)
        } else {
            self.history & !(1u8 << self.index)
        };
        let next: u8 = if self.index + 1 >= FILTER_SIZE as u8 {
            0
        } else {
            self.index + 1
        };
        proof {
            lemma_window_unanimous(history, FILTER_SIZE as u8);
            lemma_low_bits(FILTER_SIZE as u8);
        }
        self.history = history;
        self.index = next;
        if history == self.mask && !self.stable_state {
            self.stable_state = true;
            Some(Edge::RoseStable)
        } else if history == 0 && self.stable_state {
            self.stable_state = false;
            Some(Edge::FellStable)
        } else {
            None
        }
    }

    /// Feeds one raw level, inverted first when the input is wired
    /// active-low.
    pub fn poll(&mut self, raw_sample: bool) -> (edge: Option<Edge>)
        ensures
            old(self).valid(),
            final(self).valid(),
            final(self).pull_up() == old(self).pull_up(),
            final(self)@ == old(self)@.step(normalized(old(self).pull_up(), raw_sample)),
            edge == old(self)@.edge(normalized(old(self).pull_up(), raw_sample)),
    {
        let sample = normalize(self.pull_up, raw_sample);
        self.feed(sample)
    }
}

} // verus!
