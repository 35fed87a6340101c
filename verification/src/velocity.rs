//! A table that scales encoder ticks by how quickly they follow each other.

use vstd::prelude::*;

verus! {

/// The number of buckets that a table can hold.
pub const MAP_SIZE: usize = 8;

/// One bucket of the table: the threshold, in the caller's time unit, and
/// the scale factor as the bit pattern of an IEEE 754 single.
pub type Entry = (u64, u32);

/// The fixed-capacity vector that backs a table.
pub type Table = heapless::Vec<(u64, u32), 8>;

/// `heapless::Vec`, taken as an opaque value: what it holds is known only
/// through [`entries`].
#[verifier::external_type_specification]
#[verifier::external_body]
#[verifier::reject_recursive_types(T)]
pub struct ExHeaplessVec<T, const N: usize>(heapless::Vec<T, N>);

/// The entries that a fixed-capacity vector holds, first to last.
pub uninterp spec fn entries(v: heapless::Vec<(u64, u32), 8>) -> Seq<(u64, u32)>;

/// `heapless::Vec::new`: the new vector holds nothing.
#[verifier::external_body]
fn table_new() -> (v: Table)
    ensures
        entries(v) == Seq::<Entry>::empty(),
{
    heapless::Vec::new()
}

/// `heapless::Vec::push`: while fewer entries are held than the capacity,
/// the item is appended at the end; a full vector is left as it was and
/// hands the item back.
#[verifier::external_body]
fn table_push(v: &mut Table, item: Entry) -> (r: Result<(), Entry>)
    ensures
        r.is_ok() <==> entries(*old(v)).len() < 8,
        r.is_ok() ==> entries(*final(v)) == entries(*old(v)).push(item),
        r matches Err(back) ==> back == item && entries(*final(v)) == entries(*old(v)),
{
    v.push(item)
}

/// `heapless::Vec::as_slice`: the slice holds the vector's entries in order.
#[verifier::external_body]
fn table_slice(v: &Table) -> (s: &[Entry])
    ensures
        s@ == entries(*v),
{
    v.as_slice()
}

/// `sort_unstable_by` on the vector's slice, comparing thresholds: the
/// entries are rearranged so that thresholds ascend. Which of two entries
/// with one threshold comes first is left open.
#[verifier::external_body]
fn table_sort(v: &mut Table)
    ensures
        entries(*final(v)).to_multiset() == entries(*old(v)).to_multiset(),
        ascending(entries(*final(v))),
{
    v.sort_unstable_by(|a, b| a.0.cmp(&b.0))
}

/// Thresholds never descend from one entry to the next.
pub open spec fn ascending(table: Seq<Entry>) -> bool {
    forall|i: int, j: int| 0 <= i < j < table.len() ==> table[i].0 <= table[j].0
}

/// The index of the first entry from `from` on whose threshold strictly
/// exceeds `elapsed`, if there is one.
pub open spec fn first_above(table: Seq<Entry>, elapsed: u64, from: int) -> Option<int>
    decreases table.len() - from,
{
    if from < 0 || from >= table.len() {
        None
    } else if elapsed < table[from].0 {
        Some(from)
    } else {
        first_above(table, elapsed, from + 1)
    }
}

/// What the table answers for one tick.
#[derive(Debug, Copy, Clone, PartialEq, Eq, Structural)]
pub enum Mapped {
    /// The ticks pass through as they came.
    Unscaled(i32),
    /// The ticks are to be multiplied by the scale factor with this bit
    /// pattern, and the product rounded toward zero.
    Scaled(i32, u32),
}

/// The table as a mathematical value.
pub struct VelocityModel {
    pub last_instant: Option<u64>,
    pub table: Seq<Entry>,
}

impl VelocityModel {
    /// True when a tick at `instant` is turned away: the table is in use,
    /// an instant is on record and `instant` lies before it.
    pub open spec fn rejects(self, instant: u64) -> bool {
        self.table.len() > 0 && self.last_instant.is_some() && instant < self.last_instant.unwrap()
    }

    /// The answer to `ticks` arriving at `instant`.
    pub open spec fn respond(self, instant: u64, ticks: Option<i32>) -> Option<Mapped> {
        match ticks {
            None => None,
            Some(t) => if self.table.len() == 0 {
                Some(Mapped::Unscaled(t))
            } else {
                match self.last_instant {
                    None => Some(Mapped::Unscaled(t)),
                    Some(prev) => if instant < prev {
                        None
                    } else {
                        match first_above(self.table, (instant - prev) as u64, 0) {
                            Some(i) => Some(Mapped::Scaled(t, self.table[i].1)),
                            None => Some(Mapped::Unscaled(t)),
                        }
                    },
                }
            },
        }
    }

    /// The table after `ticks` arrived at `instant`: the instant is put on
    /// record unless there was no tick, the table is empty or the instant
    /// was turned away.
    pub open spec fn advance(self, instant: u64, ticks: Option<i32>) -> VelocityModel {
        if ticks.is_none() || self.table.len() == 0 || self.rejects(instant) {
            self
        } else {
            VelocityModel { last_instant: Some(instant), table: self.table }
        }
    }
}

/// Pass-through of an empty table: whatever the instants, the ticks come
/// back as they are and nothing is put on record.
pub proof fn lemma_empty_table_passes_through(m: VelocityModel, instant: u64, ticks: i32)
    requires
        m.table.len() == 0,
    ensures
        m.respond(instant, Some(ticks)) == Some(Mapped::Unscaled(ticks)),
        m.advance(instant, Some(ticks)) == m,
{
}

/// Rejection of an instant that runs backwards: a tick at an instant
/// before the one on record gets no answer and leaves the record alone, so
/// the answer to any later call is what it would have been without the
/// rejected one.
pub proof fn lemma_earlier_instant_is_rejected(
    m: VelocityModel,
    instant: u64,
    ticks: i32,
    later: u64,
    next: Option<i32>,
)
    requires
        m.table.len() > 0,
        m.last_instant.is_some(),
        instant < m.last_instant.unwrap(),
    ensures
        m.respond(instant, Some(ticks)).is_none(),
        m.advance(instant, Some(ticks)) == m,
        m.advance(instant, Some(ticks)).respond(later, next) == m.respond(later, next),
        m.advance(instant, Some(ticks)).advance(later, next) == m.advance(later, next),
{
}

/// The bucket that scales a tick is the one with the smallest threshold
/// above the elapsed time: every bucket before it has a threshold at or
/// below the elapsed time, and after a failed search every bucket has.
pub proof fn lemma_first_above_is_least(table: Seq<Entry>, elapsed: u64, from: int)
    requires
        0 <= from <= table.len(),
    ensures
        match first_above(table, elapsed, from) {
            Some(i) => from <= i < table.len() && elapsed < table[i].0 && forall|j: int|
                from <= j < i ==> table[j].0 <= elapsed,
            None => forall|j: int| from <= j < table.len() ==> table[j].0 <= elapsed,
        },
    decreases table.len() - from,
{
    if from < table.len() && elapsed >= table[from].0 {
        lemma_first_above_is_least(table, elapsed, from + 1);
    }
}

/// Time-source agnostic velocity mapping for the ticks of a rotary encoder.
pub struct EncoderVelocityMap {
    last_instant: Option<u64>,
    map: Table,
}

impl Default for EncoderVelocityMap {
    fn default() -> (map: Self)
        ensures
            map@.last_instant.is_none(),
            map@.table == Seq::<Entry>::empty(),
    {
        EncoderVelocityMap::new()
    }
}

impl EncoderVelocityMap {
    #[verifier::type_invariant]
    spec fn inv(&self) -> bool {
        ascending(entries(self.map))
    }

    /// The table's model.
    pub closed spec fn view(&self) -> VelocityModel {
        VelocityModel { last_instant: self.last_instant, table: entries(self.map) }
    }

    /// Creates an empty table with no instant on record.
    pub fn new() -> (map: Self)
        ensures
            map@.last_instant.is_none(),
            map@.table == Seq::<Entry>::empty(),
    {
        EncoderVelocityMap { last_instant: None, map: table_new() }
    }

    /// The number of buckets in the table.
    pub fn len(&self) -> (n: usize)
        ensures
            n == self@.table.len(),
    {
        table_slice(&self.map).len()
    }

    /// Adds a bucket and keeps the thresholds ascending.
    pub fn with(self, map: (u64, u32)) -> (table: Self)
        requires
            self@.table.len() < MAP_SIZE,
        ensures
            table@.last_instant == self@.last_instant,
            table@.table.to_multiset() == self@.table.to_multiset().insert(map),
            table@.table.len() == self@.table.len() + 1,
            ascending(table@.table),
    {
        let EncoderVelocityMap { last_instant, map: mut buckets } = self;
        let ghost before = entries(buckets);
        match table_push(&mut buckets, map) {
            Ok(_) => {
                table_sort(&mut buckets);
            },
            Err(_) => {
                assert(false);
            },
        }
        proof {
            before.to_multiset_ensures();
            before.push(map).to_multiset_ensures();
            entries(buckets).to_multiset_ensures();
        }
        EncoderVelocityMap { last_instant, map: buckets }
    }

    /// Answers one poll of the encoder. Without ticks there is no answer.
    /// An empty table, or one with no instant on record, passes the ticks
    /// through. An instant before the one on record is turned away with no
    /// answer and the record is kept. Otherwise the first bucket whose
    /// threshold exceeds the elapsed time gives the scale, and ticks that
    /// come slower than every bucket pass through.
    pub fn map(&mut self, instant: u64, ticks: Option<i32>) -> (mapped: Option<Mapped>)
        ensures
            ascending(old(self)@.table),
            mapped == old(self)@.respond(instant, ticks),
            final(self)@ == old(self)@.advance(instant, ticks),
            old(self)@.table.len() == 0 ==> *final(self) == *old(self) && mapped == match ticks {
                Some(t) => Some(Mapped::Unscaled(t)),
                None => None,
            },
    {
        proof {
            use_type_invariant(&*self);
        }
        match ticks {
            Some(ticks) => {
                let table = table_slice(&self.map);
                if table.len() == 0 {
                    return Some(Mapped::Unscaled(ticks));
                }
                if let Some(inst) = self.last_instant {
                    if let Some(dur) = instant.checked_sub(inst) {
                        let found = find_bucket(table, dur);
                        self.last_instant = Some(instant);
                        match found {
                            Some(i) => Some(Mapped::Scaled(ticks, table[i].1)),
                            None => Some(Mapped::Unscaled(ticks)),
                        }
                    } else {
                        None
                    }
                } else {
                    self.last_instant = Some(instant);
                    Some(Mapped::Unscaled(ticks))
                }
            },
            None => None,
        }
    }
}

/// Finds the first bucket whose threshold strictly exceeds `elapsed`.
pub fn find_bucket(table: &[Entry], elapsed: u64) -> (found: Option<usize>)
    ensures
        match found {
            Some(i) => first_above(table@, elapsed, 0) == Some(i as int) && i < table@.len()
                && elapsed < table@[i as int].0 && forall|j: int|
                0 <= j < i ==> table@[j].0 <= elapsed,
            None => first_above(table@, elapsed, 0).is_none() && forall|j: int|
                0 <= j < table@.len() ==> table@[j].0 <= elapsed,
        },
{
    let mut i: usize = 0;
    while i < table.len()
        invariant
            i <= table@.len(),
            first_above(table@, elapsed, 0) == first_above(table@, elapsed, i as int),
            forall|j: int| 0 <= j < i ==> table@[j].0 <= elapsed,
        decreases table@.len() - i,
    {
        if elapsed < table[i].0 {
            return Some(i);
        }
        i += 1;
    }
    None
}

} // verus!
