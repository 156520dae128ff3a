//! Evenly spaced timestamps over a half-open range.

use crate::record::valid_instant;
use crate::record::valid_offset;
use crate::record::TimeRecord;
use vstd::arithmetic::div_mod::lemma_div_minus_one;
use vstd::arithmetic::div_mod::lemma_fundamental_div_mod;
use vstd::arithmetic::div_mod::lemma_basic_div;
use vstd::prelude::*;

verus! {

/// How many instants a generator yields: the multiples of `interval` past
/// `start` that fall before `end`.
pub open spec fn slot_count(start: int, end: int, interval: int) -> nat {
    if interval > 0 && start < end {
        ((end - start - 1) / interval) as nat
    } else {
        0
    }
}

/// The instants a generator yields, in order: `start + interval`,
/// `start + 2 * interval`, and so on, for as long as they fall before `end`.
/// `start` itself is never among them.
pub open spec fn slots(start: int, end: int, interval: int) -> Seq<int> {
    Seq::new(slot_count(start, end, interval), |k: int| start + (k + 1) * interval)
}

/// The count is the number of steps that stay below `end`: the step at the
/// count reaches `end` or passes it, and every earlier one falls short.
pub proof fn lemma_slot_count_bounds(start: int, end: int, interval: int)
    requires
        interval > 0,
    ensures
        start + slot_count(start, end, interval) * interval < end || slot_count(
            start,
            end,
            interval,
        ) == 0,
        start + (slot_count(start, end, interval) + 1) * interval >= end,
{
    if start < end {
        let distance = end - start - 1;
        let count = distance / interval;
        lemma_fundamental_div_mod(distance, interval);
        assert(0 <= distance % interval < interval) by (nonlinear_arith)
            requires
                interval > 0,
        ;
        assert(count * interval == interval * count) by (nonlinear_arith);
        assert((count + 1) * interval == count * interval + interval) by (nonlinear_arith);
        assert(count >= 0) by (nonlinear_arith)
            requires
                distance >= 0,
                interval > 0,
                count == distance / interval,
        ;
    } else {
        assert((0 + 1) * interval == interval) by (nonlinear_arith);
    }
}

/// Taking one step leaves the rest of the sequence: where the first
/// candidate falls before `end`, it is the first instant, and the instants
/// after it are those of a generator started there.
pub proof fn lemma_slots_step(start: int, end: int, interval: int)
    requires
        interval > 0,
        start + interval < end,
    ensures
        slots(start, end, interval).len() > 0,
        slots(start, end, interval)[0] == start + interval,
        slots(start + interval, end, interval) == slots(start, end, interval).skip(1),
{
    let distance = end - start - 1;
    lemma_div_minus_one(distance, interval);
    assert(distance / interval >= 1) by {
        if distance / interval < 1 {
            lemma_fundamental_div_mod(distance, interval);
            assert(0 <= distance % interval < interval) by (nonlinear_arith)
                requires
                    interval > 0,
            ;
            assert(interval * (distance / interval) <= 0) by (nonlinear_arith)
                requires
                    interval > 0,
                    distance / interval < 1,
            ;
        }
    }
    assert((0 + 1) * interval == interval) by (nonlinear_arith);
    let rest = slots(start + interval, end, interval);
    let tail = slots(start, end, interval).skip(1);
    assert(end - (start + interval) - 1 == distance - interval);
    assert(rest.len() == tail.len());
    assert forall|k: int| 0 <= k < rest.len() implies rest[k] == tail[k] by {
        assert(start + interval + (k + 1) * interval == start + (k + 1 + 1) * interval)
            by (nonlinear_arith);
    }
    assert(rest =~= tail);
}

/// Where the first candidate reaches `end` or passes it, nothing is yielded.
pub proof fn lemma_slots_empty(start: int, end: int, interval: int)
    requires
        interval > 0,
        start + interval >= end,
    ensures
        slots(start, end, interval) == Seq::<int>::empty(),
{
    if start < end {
        lemma_basic_div(end - start - 1, interval);
    }
    assert(slots(start, end, interval) =~= Seq::<int>::empty());
}

/// Every instant of the sequence lies strictly between `start` and `end`,
/// the first is one interval past `start`, each is one interval past the one
/// before, and one more interval past the last would reach `end`.
pub proof fn lemma_slots_half_open(start: int, end: int, interval: int)
    requires
        interval > 0,
    ensures
        forall|k: int|
            0 <= k < slots(start, end, interval).len() ==> start < #[trigger] slots(
                start,
                end,
                interval,
            )[k] < end,
        slots(start, end, interval).len() > 0 ==> slots(start, end, interval)[0] == start
            + interval,
        forall|k: int|
            0 < k < slots(start, end, interval).len() ==> #[trigger] slots(start, end, interval)[k]
                == slots(start, end, interval)[k - 1] + interval,
        slots(start, end, interval).len() > 0 ==> slots(start, end, interval).last() + interval
            >= end,
        slots(start, end, interval).len() == 0 ==> start + interval >= end,
{
    let count = slot_count(start, end, interval);
    lemma_slot_count_bounds(start, end, interval);
    assert((0 + 1) * interval == interval) by (nonlinear_arith);
    assert forall|k: int| 0 <= k < count implies start < #[trigger] slots(start, end, interval)[k]
        < end by {
        assert((k + 1) * interval <= count * interval && (k + 1) * interval > 0)
            by (nonlinear_arith)
            requires
                0 <= k < count,
                interval > 0,
        ;
    }
    assert forall|k: int| 0 < k < count implies #[trigger] slots(start, end, interval)[k] == slots(
        start,
        end,
        interval,
    )[k - 1] + interval by {
        assert((k + 1) * interval == (k - 1 + 1) * interval + interval) by (nonlinear_arith);
    }
    if count > 0 {
        assert((count - 1 + 1) * interval + interval == (count + 1) * interval)
            by (nonlinear_arith);
    }
}

/// A range of exactly two intervals yields the one instant in its middle.
pub proof fn lemma_two_intervals_yield_one(start: int, interval: int)
    requires
        interval > 0,
    ensures
        slots(start, start + 2 * interval, interval) == seq![start + interval],
{
    let end = start + 2 * interval;
    lemma_slots_step(start, end, interval);
    lemma_slots_empty(start + interval, end, interval);
    assert(slots(start, end, interval).skip(1).len() == 0);
    assert(slots(start, end, interval) =~= seq![start + interval]);
}

/// A range of exactly one interval yields nothing.
pub proof fn lemma_one_interval_yields_none(start: int, interval: int)
    requires
        interval > 0,
    ensures
        slots(start, start + interval, interval) == Seq::<int>::empty(),
{
    lemma_slots_empty(start, start + interval, interval);
}

/// Why a generator could not be made.
#[derive(Clone, Copy, Debug, PartialEq, Eq)]
pub enum GeneratorError {
    /// The interval is zero or negative.
    NonPositiveInterval,
}

/// A sequence of evenly spaced timestamps, consumed from the front.
///
/// The sequence is fixed by the three values a generator is made from, so
/// making another from the same values starts it over.
pub struct TimeSlotGenerator {
    current: i64,
    end: i64,
    interval: i64,
    offset: i32,
}

impl TimeSlotGenerator {
    #[verifier::type_invariant]
    spec fn well_formed(self) -> bool {
        &&& self.interval > 0
        &&& valid_instant(self.current as int)
        &&& valid_instant(self.end as int)
        &&& valid_offset(self.offset as int)
    }

    /// The instants still to come, in seconds since the epoch.
    pub closed spec fn remaining(self) -> Seq<int> {
        slots(self.current as int, self.end as int, self.interval as int)
    }

    /// The UTC offset that every timestamp of the sequence carries.
    pub closed spec fn offset(self) -> int {
        self.offset as int
    }

    /// The sequence from `start` up to, but not including, `end`, in steps of
    /// `interval_seconds`. Its timestamps carry the offset of `start`.
    pub fn new(start: TimeRecord, end: TimeRecord, interval_seconds: i64) -> (made: Result<
        TimeSlotGenerator,
        GeneratorError,
    >)
        ensures
            made is Ok <==> interval_seconds > 0,
            made matches Ok(generator) ==> generator.remaining() == slots(
                start.epoch(),
                end.epoch(),
                interval_seconds as int,
            ) && generator.offset() == start.offset(),
    {
        if interval_seconds <= 0 {
            return Err(GeneratorError::NonPositiveInterval);
        }
        Ok(
            TimeSlotGenerator {
                current: start.epoch_seconds(),
                end: end.epoch_seconds(),
                interval: interval_seconds,
                offset: start.offset_seconds(),
            },
        )
    }

    /// Takes the next timestamp off the front of the sequence, or `None` once
    /// the sequence is used up. A used-up generator stays used up.
    pub fn next(&mut self) -> (slot: Option<TimeRecord>)
        ensures
            final(self).offset() == old(self).offset(),
            old(self).remaining().len() == 0 ==> slot is None && final(self).remaining() == old(
                self,
            ).remaining(),
            old(self).remaining().len() > 0 ==> {
                &&& slot matches Some(record)
                &&& record.epoch() == old(self).remaining()[0]
                &&& record.offset() == old(self).offset()
                &&& final(self).remaining() == old(self).remaining().skip(1)
            },
    {
        proof {
            use_type_invariant(&*self);
        }
        let candidate: i64 = match self.current.checked_add(self.interval) {
            Some(candidate) => candidate,
            None => {
                proof {
                    lemma_slots_empty(self.current as int, self.end as int, self.interval as int);
                }
                return None;
            },
        };
        if candidate >= self.end {
            proof {
                lemma_slots_empty(self.current as int, self.end as int, self.interval as int);
            }
            return None;
        }
        proof {
            lemma_slots_step(self.current as int, self.end as int, self.interval as int);
        }
        self.current = candidate;
        Some(TimeRecord::from_valid(candidate, self.offset))
    }

    /// Every timestamp still to come, in order. The generator is used up.
    pub fn collect(self) -> (all: Vec<TimeRecord>)
        ensures
            all.len() == self.remaining().len(),
            forall|k: int|
                0 <= k < all.len() ==> (#[trigger] all[k]).epoch() == self.remaining()[k] && all[k].offset()
                    == self.offset(),
    {
        let ghost whole = self.remaining();
        let mut generator = self;
        let mut all: Vec<TimeRecord> = Vec::new();
        loop
            invariant
                generator.offset() == self.offset(),
                whole == self.remaining(),
                all.len() + generator.remaining().len() == whole.len(),
                generator.remaining() == whole.skip(all.len() as int),
                forall|k: int|
                    0 <= k < all.len() ==> (#[trigger] all[k]).epoch() == whole[k] && all[k].offset()
                        == self.offset(),
            decreases generator.remaining().len(),
        {
            match generator.next() {
                Some(record) => {
                    all.push(record);
                },
                None => {
                    return all;
                },
            }
        }
    }
}

} // verus!
