//! Rolling histories: the most recent samples of each measured quantity,
//! with the extremes needed to scale a graph.

use vstd::prelude::*;

verus! {

/// Width of the graph in columns. A history holds one slot more.
pub const WINDOW_WIDTH: usize = 320;

/// Marks a slot that holds no sample yet. No conversion from a sensor
/// reading yields this value.
pub const INVALID_DAT_NUM: i32 = i32::MIN;

/// The measured quantities.
#[derive(Clone, Copy, Debug, PartialEq, Eq, Structural)]
pub enum SensorType {
    Temperature,
    Humidity,
    Co2Concentration,
    AtmPressure,
}

/// A fraction between zero and one: where a sample lies between the least
/// and the greatest sample of its history.
#[derive(Clone, Copy, Debug, PartialEq, Eq, Structural)]
pub struct Rate {
    pub numer: u32,
    pub denom: u32,
}

/// Whether any slot holds a sample.
pub open spec fn holds_sample(slots: Seq<i32>) -> bool {
    exists|i: int| 0 <= i < slots.len() && slots[i] != INVALID_DAT_NUM
}

/// `m` is a sample of `slots` and no sample is greater.
pub open spec fn is_greatest(slots: Seq<i32>, m: i32) -> bool {
    &&& exists|i: int| 0 <= i < slots.len() && slots[i] != INVALID_DAT_NUM && slots[i] == m
    &&& forall|i: int| 0 <= i < slots.len() && slots[i] != INVALID_DAT_NUM ==> slots[i] <= m
}

/// `m` is a sample of `slots` and no sample is less.
pub open spec fn is_least(slots: Seq<i32>, m: i32) -> bool {
    &&& exists|i: int| 0 <= i < slots.len() && slots[i] != INVALID_DAT_NUM && slots[i] == m
    &&& forall|i: int| 0 <= i < slots.len() && slots[i] != INVALID_DAT_NUM ==> m <= slots[i]
}

/// `m` is the maximum a history of these slots reports: the greatest sample,
/// or zero while there is none.
pub open spec fn is_max_of(slots: Seq<i32>, m: i32) -> bool {
    if holds_sample(slots) {
        is_greatest(slots, m)
    } else {
        m == 0
    }
}

/// `m` is the minimum a history of these slots reports: the least sample,
/// or zero while there is none.
pub open spec fn is_min_of(slots: Seq<i32>, m: i32) -> bool {
    if holds_sample(slots) {
        is_least(slots, m)
    } else {
        m == 0
    }
}

/// The slots after one push: every slot moves one place toward the front,
/// the first falls off, and the new value takes the last place.
pub open spec fn pushed(slots: Seq<i32>, value: i32) -> Seq<i32> {
    slots.drop_first().push(value)
}

/// Where a sample lies between `min` and `max`. Zero for an empty slot and
/// for a flat history.
pub open spec fn rate_between(sample: i32, min: i32, max: i32) -> Rate {
    if sample != INVALID_DAT_NUM && min < max {
        Rate { numer: (sample - min) as u32, denom: (max - min) as u32 }
    } else {
        Rate { numer: 0, denom: 1 }
    }
}

/// The samples of one quantity, oldest first.
pub struct DataHistory {
    dat: Vec<i32>,
    max: i32,
    min: i32,
}

impl View for DataHistory {
    type V = Seq<i32>;

    closed spec fn view(&self) -> Seq<i32> {
        self.dat@
    }
}

impl DataHistory {
    /// The maximum this history reports.
    pub closed spec fn max_value(&self) -> i32 {
        self.max
    }

    /// The minimum this history reports.
    pub closed spec fn min_value(&self) -> i32 {
        self.min
    }

    /// A history has one slot more than the graph has columns, and reports
    /// the extremes of the samples it holds.
    pub open spec fn wf(&self) -> bool {
        &&& self@.len() == WINDOW_WIDTH + 1
        &&& is_max_of(self@, self.max_value())
        &&& is_min_of(self@, self.min_value())
    }

    /// The rate of the slot at `itr`; zero past the last slot.
    pub open spec fn rate_at(&self, itr: int) -> Rate {
        if 0 <= itr < self@.len() {
            rate_between(self@[itr], self.min_value(), self.max_value())
        } else {
            Rate { numer: 0, denom: 1 }
        }
    }

    /// The sample that falls off at the next push is not needed for the
    /// extremes: the slot is empty, or both extremes are also held by slots
    /// that stay, or it is the only sample and it is zero.
    pub open spec fn extremes_outlast_oldest(&self) -> bool {
        let slots = self@;
        ||| slots[0] == INVALID_DAT_NUM
        ||| {
            &&& exists|i: int| 1 <= i < slots.len() && slots[i] == self.max_value() && slots[i] != INVALID_DAT_NUM
            &&& exists|i: int| 1 <= i < slots.len() && slots[i] == self.min_value() && slots[i] != INVALID_DAT_NUM
        }
        ||| (slots[0] == 0 && !holds_sample(slots.drop_first()))
    }

    /// A history of empty slots.
    pub fn new() -> (history: DataHistory)
        ensures
            history.wf(),
            forall|i: int| 0 <= i <= WINDOW_WIDTH ==> history@[i] == INVALID_DAT_NUM,
            history.max_value() == 0,
            history.min_value() == 0,
    {
        let mut dat: Vec<i32> = Vec::new();
        let mut filled: usize = 0;
        while filled <= WINDOW_WIDTH
            invariant
                filled <= WINDOW_WIDTH + 1,
                dat@.len() == filled,
                forall|i: int| 0 <= i < filled ==> dat@[i] == INVALID_DAT_NUM,
            decreases WINDOW_WIDTH + 1 - filled,
        {
            dat.push(INVALID_DAT_NUM);
            filled = filled + 1;
        }
        DataHistory { dat, max: 0, min: 0 }
    }

    /// Appends a sample: the oldest slot falls off, and the extremes are
    /// those of the slots that remain together with the new one.
    pub fn set_new_data(&mut self, new_data: i32)
        requires
            old(self).wf(),
        ensures
            final(self).wf(),
            final(self)@ == pushed(old(self)@, new_data),
    {
        let mut moved: usize = 0;
        while moved < WINDOW_WIDTH
            invariant
                moved <= WINDOW_WIDTH,
                self.dat@.len() == WINDOW_WIDTH + 1,
                self.dat@.len() == old(self).dat@.len(),
                forall|i: int| 0 <= i < moved ==> self.dat@[i] == old(self).dat@[i + 1],
                forall|i: int| moved <= i <= WINDOW_WIDTH ==> self.dat@[i] == old(self).dat@[i],
            decreases WINDOW_WIDTH - moved,
        {
            let next = self.dat[moved + 1];
            self.dat.set(moved, next);
            moved = moved + 1;
        }
        self.dat.set(WINDOW_WIDTH, new_data);
        assert(self.dat@ =~= pushed(old(self).dat@, new_data));

        let mut found = false;
        let mut max: i32 = 0;
        let mut min: i32 = 0;
        let mut seen: usize = 0;
        while seen <= WINDOW_WIDTH
            invariant
                seen <= WINDOW_WIDTH + 1,
                self.dat@.len() == WINDOW_WIDTH + 1,
                self.dat@ == pushed(old(self).dat@, new_data),
                found == holds_sample(self.dat@.take(seen as int)),
                found ==> is_greatest(self.dat@.take(seen as int), max),
                found ==> is_least(self.dat@.take(seen as int), min),
                !found ==> max == 0 && min == 0,
            decreases WINDOW_WIDTH + 1 - seen,
        {
            let value = self.dat[seen];
            let ghost before = self.dat@.take(seen as int);
            let ghost after = self.dat@.take(seen as int + 1);
            assert(after =~= before.push(value));
            proof {
                lemma_extend(before, value, found, max, min);
            }
            if value != INVALID_DAT_NUM {
                if !found {
                    found = true;
                    max = value;
                    min = value;
                } else {
                    if max < value {
                        max = value;
                    }
                    if value < min {
                        min = value;
                    }
                }
            }
            seen = seen + 1;
        }
        assert(self.dat@.take(seen as int) =~= self.dat@);
        self.max = max;
        self.min = min;
    }

    /// The greatest sample held, or zero while there is none.
    pub fn max(&self) -> (m: i32)
        ensures
            m == self.max_value(),
    {
        self.max
    }

    /// The least sample held, or zero while there is none.
    pub fn min(&self) -> (m: i32)
        ensures
            m == self.min_value(),
    {
        self.min
    }

    /// The value in the slot at `itr`; the empty-slot marker past the last
    /// slot.
    pub fn sample(&self, itr: usize) -> (value: i32)
        ensures
            value == if itr < self@.len() {
                self@[itr as int]
            } else {
                INVALID_DAT_NUM
            },
    {
        if itr < self.dat.len() {
            self.dat[itr]
        } else {
            INVALID_DAT_NUM
        }
    }

    /// Where the sample at `itr` lies between the least and the greatest
    /// sample: `(sample - min) / (max - min)`, and zero for an empty slot,
    /// for a flat history and past the last slot.
    pub fn get_rate(&self, itr: usize) -> (rate: Rate)
        requires
            self.wf(),
        ensures
            rate == self.rate_at(itr as int),
            rate.numer <= rate.denom,
            1 <= rate.denom,
    {
        if itr >= self.dat.len() {
            return Rate { numer: 0, denom: 1 };
        }
        let value = self.dat[itr];
        if value != INVALID_DAT_NUM && self.min < self.max {
            proof {
                lemma_sample_between(self@, itr as int, self.min, self.max);
            }
            let numer: i64 = value as i64 - self.min as i64;
            let denom: i64 = self.max as i64 - self.min as i64;
            Rate { numer: numer as u32, denom: denom as u32 }
        } else {
            Rate { numer: 0, denom: 1 }
        }
    }
}

/// How the extremes of a run of slots change when one more slot follows.
proof fn lemma_extend(before: Seq<i32>, value: i32, found: bool, max: i32, min: i32)
    requires
        found == holds_sample(before),
        found ==> is_greatest(before, max) && is_least(before, min),
    ensures
        holds_sample(before.push(value)) == (found || value != INVALID_DAT_NUM),
        value == INVALID_DAT_NUM && found ==> is_greatest(before.push(value), max) && is_least(
            before.push(value),
            min,
        ),
        value != INVALID_DAT_NUM && !found ==> is_greatest(before.push(value), value) && is_least(
            before.push(value),
            value,
        ),
        value != INVALID_DAT_NUM && found ==> is_greatest(
            before.push(value),
            if max < value {
                value
            } else {
                max
            },
        ) && is_least(
            before.push(value),
            if value < min {
                value
            } else {
                min
            },
        ),
{
    let after = before.push(value);
    let last = before.len() as int;
    assert(after[last] == value);
    assert forall|i: int| 0 <= i < before.len() implies after[i] == before[i] by {}
    if found {
        let i = choose|i: int| 0 <= i < before.len() && before[i] != INVALID_DAT_NUM;
        assert(after[i] != INVALID_DAT_NUM);
        let at_max = choose|i: int|
            0 <= i < before.len() && before[i] != INVALID_DAT_NUM && before[i] == max;
        let at_min = choose|i: int|
            0 <= i < before.len() && before[i] != INVALID_DAT_NUM && before[i] == min;
        assert(after[at_max] == max);
        assert(after[at_min] == min);
    }
    if holds_sample(after) && value == INVALID_DAT_NUM {
        let i = choose|i: int| 0 <= i < after.len() && after[i] != INVALID_DAT_NUM;
        assert(before[i] != INVALID_DAT_NUM);
    }
}

/// In a well-formed history every sample lies between the extremes.
proof fn lemma_sample_between(slots: Seq<i32>, itr: int, min: i32, max: i32)
    requires
        0 <= itr < slots.len(),
        slots[itr] != INVALID_DAT_NUM,
        is_max_of(slots, max),
        is_min_of(slots, min),
    ensures
        min <= slots[itr] <= max,
{
}

/// The greatest sample is unique, and so is the least: a history's slots
/// determine the extremes it reports.
pub proof fn lemma_extremes_unique(slots: Seq<i32>, a: i32, b: i32)
    ensures
        is_max_of(slots, a) && is_max_of(slots, b) ==> a == b,
        is_min_of(slots, a) && is_min_of(slots, b) ==> a == b,
{
}

/// An empty slot counts for nothing: with or without it at the end, the
/// same values are the extremes.
pub proof fn lemma_invalid_is_no_sample(slots: Seq<i32>, m: i32)
    ensures
        is_max_of(slots.push(INVALID_DAT_NUM), m) <==> is_max_of(slots, m),
        is_min_of(slots.push(INVALID_DAT_NUM), m) <==> is_min_of(slots, m),
{
    let after = slots.push(INVALID_DAT_NUM);
    assert forall|i: int| 0 <= i < slots.len() implies after[i] == slots[i] by {}
    assert(after[slots.len() as int] == INVALID_DAT_NUM);
    if holds_sample(slots) {
        let i = choose|i: int| 0 <= i < slots.len() && slots[i] != INVALID_DAT_NUM;
        assert(after[i] != INVALID_DAT_NUM);
    }
    if holds_sample(after) {
        let i = choose|i: int| 0 <= i < after.len() && after[i] != INVALID_DAT_NUM;
        assert(slots[i] != INVALID_DAT_NUM);
    }
    if is_greatest(slots, m) {
        let i = choose|i: int| 0 <= i < slots.len() && slots[i] != INVALID_DAT_NUM && slots[i] == m;
        assert(after[i] == m);
    }
    if is_greatest(after, m) {
        let i = choose|i: int| 0 <= i < after.len() && after[i] != INVALID_DAT_NUM && after[i] == m;
        assert(slots[i] == m);
    }
    if is_least(slots, m) {
        let i = choose|i: int| 0 <= i < slots.len() && slots[i] != INVALID_DAT_NUM && slots[i] == m;
        assert(after[i] == m);
    }
    if is_least(after, m) {
        let i = choose|i: int| 0 <= i < after.len() && after[i] != INVALID_DAT_NUM && after[i] == m;
        assert(slots[i] == m);
    }
}

/// Pushing the empty-slot marker leaves both extremes as they were, unless
/// the sample that falls off was needed for one of them; and only then does
/// an extreme change.
pub proof fn lemma_invalid_push_keeps_extremes(before: DataHistory, after: DataHistory)
    requires
        before.wf(),
        after.wf(),
        after@ == pushed(before@, INVALID_DAT_NUM),
    ensures
        before.extremes_outlast_oldest() <==> (after.max_value() == before.max_value()
            && after.min_value() == before.min_value()),
{
    let slots = before@;
    let rest = slots.drop_first();
    let max = before.max_value();
    let min = before.min_value();
    lemma_invalid_is_no_sample(rest, after.max_value());
    lemma_invalid_is_no_sample(rest, after.min_value());
    lemma_invalid_is_no_sample(rest, max);
    lemma_invalid_is_no_sample(rest, min);
    assert forall|i: int| 0 <= i < rest.len() implies rest[i] == slots[i + 1] by {}
    if holds_sample(rest) {
        let i = choose|i: int| 0 <= i < rest.len() && rest[i] != INVALID_DAT_NUM;
        assert(slots[i + 1] != INVALID_DAT_NUM);
    }
    if before.extremes_outlast_oldest() {
        assert forall|i: int| 0 <= i < rest.len() && rest[i] != INVALID_DAT_NUM implies min
            <= rest[i] <= max by {
            assert(slots[i + 1] == rest[i]);
        }
        if holds_sample(rest) {
            let at_max = choose|i: int|
                0 <= i < slots.len() && slots[i] != INVALID_DAT_NUM && slots[i] == max;
            let at_min = choose|i: int|
                0 <= i < slots.len() && slots[i] != INVALID_DAT_NUM && slots[i] == min;
            if slots[0] == INVALID_DAT_NUM {
                assert(rest[at_max - 1] == max);
                assert(rest[at_min - 1] == min);
            } else {
                let kept_max = choose|i: int|
                    1 <= i < slots.len() && slots[i] == max && slots[i] != INVALID_DAT_NUM;
                let kept_min = choose|i: int|
                    1 <= i < slots.len() && slots[i] == min && slots[i] != INVALID_DAT_NUM;
                assert(rest[kept_max - 1] == max);
                assert(rest[kept_min - 1] == min);
            }
        } else {
            if holds_sample(slots) {
                let at_max = choose|i: int|
                    0 <= i < slots.len() && slots[i] != INVALID_DAT_NUM && slots[i] == max;
                let at_min = choose|i: int|
                    0 <= i < slots.len() && slots[i] != INVALID_DAT_NUM && slots[i] == min;
                if at_max >= 1 {
                    assert(rest[at_max - 1] != INVALID_DAT_NUM);
                }
                if at_min >= 1 {
                    assert(rest[at_min - 1] != INVALID_DAT_NUM);
                }
                if slots[0] != INVALID_DAT_NUM {
                    if exists|i: int|
                        1 <= i < slots.len() && slots[i] == max && slots[i] != INVALID_DAT_NUM {
                        let kept = choose|i: int|
                            1 <= i < slots.len() && slots[i] == max && slots[i] != INVALID_DAT_NUM;
                        assert(rest[kept - 1] != INVALID_DAT_NUM);
                    }
                }
            }
        }
        assert(is_max_of(rest, max));
        assert(is_min_of(rest, min));
        lemma_extremes_unique(rest, max, after.max_value());
        lemma_extremes_unique(rest, min, after.min_value());
    }
    if after.max_value() == max && after.min_value() == min && slots[0] != INVALID_DAT_NUM {
        if holds_sample(rest) {
            let at_max = choose|i: int|
                0 <= i < rest.len() && rest[i] != INVALID_DAT_NUM && rest[i] == max;
            let at_min = choose|i: int|
                0 <= i < rest.len() && rest[i] != INVALID_DAT_NUM && rest[i] == min;
            assert(slots[at_max + 1] == max);
            assert(slots[at_min + 1] == min);
        } else {
            assert(slots[0] <= max);
            assert(min <= slots[0]);
        }
    }
}

/// The histories of the four quantities.
pub struct DataSet {
    tmp: DataHistory,
    hum: DataHistory,
    atm: DataHistory,
    co2: DataHistory,
}

impl DataSet {
    /// The history kept for `sensor`.
    pub closed spec fn history(&self, sensor: SensorType) -> DataHistory {
        match sensor {
            SensorType::Temperature => self.tmp,
            SensorType::Humidity => self.hum,
            SensorType::Co2Concentration => self.co2,
            SensorType::AtmPressure => self.atm,
        }
    }

    /// All four histories are well formed.
    pub open spec fn wf(&self) -> bool {
        forall|sensor: SensorType| #[trigger] self.history(sensor).wf()
    }

    /// Four histories of empty slots, each reporting zero for both
    /// extremes.
    pub fn new() -> (set: DataSet)
        ensures
            set.wf(),
            forall|sensor: SensorType, i: int|
                0 <= i <= WINDOW_WIDTH ==> #[trigger] set.history(sensor)@[i] == INVALID_DAT_NUM,
            forall|sensor: SensorType|
                #![trigger set.history(sensor)]
                set.history(sensor).max_value() == 0 && set.history(sensor).min_value() == 0,
    {
        DataSet {
            tmp: DataHistory::new(),
            hum: DataHistory::new(),
            atm: DataHistory::new(),
            co2: DataHistory::new(),
        }
    }

    /// Appends a sample to the history of `sensor` and leaves the other
    /// three as they were.
    pub fn set_new_data(&mut self, sensor: SensorType, value: i32)
        requires
            old(self).wf(),
        ensures
            final(self).wf(),
            final(self).history(sensor)@ == pushed(old(self).history(sensor)@, value),
            forall|other: SensorType|
                other != sensor ==> #[trigger] final(self).history(other) == old(self).history(
                    other,
                ),
    {
        assert(self.history(SensorType::Temperature).wf());
        assert(self.history(SensorType::Humidity).wf());
        assert(self.history(SensorType::Co2Concentration).wf());
        assert(self.history(SensorType::AtmPressure).wf());
        match sensor {
            SensorType::Temperature => self.tmp.set_new_data(value),
            SensorType::Humidity => self.hum.set_new_data(value),
            SensorType::Co2Concentration => self.co2.set_new_data(value),
            SensorType::AtmPressure => self.atm.set_new_data(value),
        }
    }

    /// The rate of the slot at `itr` in the history of `sensor`.
    pub fn get_rate(&self, sensor: SensorType, itr: usize) -> (rate: Rate)
        requires
            self.wf(),
        ensures
            rate == self.history(sensor).rate_at(itr as int),
            rate.numer <= rate.denom,
            1 <= rate.denom,
    {
        assert(self.history(sensor).wf());
        match sensor {
            SensorType::Temperature => self.tmp.get_rate(itr),
            SensorType::Humidity => self.hum.get_rate(itr),
            SensorType::Co2Concentration => self.co2.get_rate(itr),
            SensorType::AtmPressure => self.atm.get_rate(itr),
        }
    }

    /// The value in the slot at `itr` in the history of `sensor`.
    pub fn sample(&self, sensor: SensorType, itr: usize) -> (value: i32)
        ensures
            value == if itr < self.history(sensor)@.len() {
                self.history(sensor)@[itr as int]
            } else {
                INVALID_DAT_NUM
            },
    {
        match sensor {
            SensorType::Temperature => self.tmp.sample(itr),
            SensorType::Humidity => self.hum.sample(itr),
            SensorType::Co2Concentration => self.co2.sample(itr),
            SensorType::AtmPressure => self.atm.sample(itr),
        }
    }
}

} // verus!
