//! The relation between a target instant and a reference instant, and its
//! rendering as a phrase.

use vstd::prelude::*;
use vstd::string::*;
use crate::moment::{not_after, now, signed_duration_since, magnitude, Span, Timestamp};
use crate::text::{decimal, push_decimal};
use crate::timeframe::{Abbreviate, TimeFrame};

verus! {

/// One component of a breakdown: its rendered fragment and its magnitude.
pub type Component = (String, u64);

/// One slot for each unit, in the order of the units.
pub type Slots = [Option<Component>; 8];

/// The distance in time from a reference instant to a target instant, with the
/// components chosen to describe it.
#[derive(Debug)]
pub struct Elapsed {
    datetime_context: Timestamp,
    datetime: Timestamp,
    duration: Span,
    passed: bool,
    cache: Slots,
}

impl Clone for Elapsed {
    fn clone(&self) -> (copy: Self)
        ensures
            copy.same_instants(*self),
            forall|u: TimeFrame| copy.slot(u) == self.slot(u),
            self.wf() ==> copy.wf(),
    {
        Elapsed {
            datetime_context: self.datetime_context,
            datetime: self.datetime,
            duration: self.duration,
            passed: self.passed,
            cache: self.collect(),
        }
    }
}

/// An [`Elapsed`], read as the time until something is due.
pub type DueDateTime = Elapsed;

/// An [`Elapsed`], read as the time between two instants.
pub type TimeBetween = Elapsed;

/// The fragment that shows a magnitude in a unit: the number, then the unit's
/// abbreviation.
pub open spec fn fragment(unit: TimeFrame, magnitude: u64) -> Seq<char> {
    decimal(magnitude as nat) + unit.abbrev_text()
}

/// What a set of slots holds for a unit: the fragment's characters and the
/// magnitude.
pub open spec fn entry(slots: Slots, unit: TimeFrame) -> Option<(Seq<char>, u64)> {
    match slots[unit.index() as int] {
        Some(c) => Some((c.0@, c.1)),
        None => None,
    }
}

/// The components that describe a distance of so many whole seconds. One band
/// decides, the coarsest that applies, and nothing finer than that band's own
/// remainder is kept:
/// - one to three whole weeks: the weeks alone;
/// - four weeks or more: the months of four weeks and the weeks that remain; or,
///   from twelve such months on, the years of twelve months and the months that
///   remain, without the weeks;
/// - under a week, from one day on: the days alone;
/// - under a day, from four hours on: the hours alone;
/// - under four hours, from one hour on: the minutes past the hour;
/// - under an hour, from five minutes on: the minutes alone;
/// - under five minutes, from one second on: the minutes and the seconds past
///   the minute;
/// - under a second: nothing.
pub open spec fn breakdown(seconds: nat) -> Map<TimeFrame, nat> {
    let weeks = seconds / 604_800;
    let days = seconds / 86_400;
    let hours = seconds / 3_600;
    let minutes = seconds / 60;
    let months = weeks / 4;
    if 0 < weeks < 4 {
        map![TimeFrame::Week => weeks]
    } else if weeks >= 4 && months < 12 {
        map![TimeFrame::Month => months, TimeFrame::Week => weeks % 4]
    } else if weeks >= 4 {
        map![TimeFrame::Year => months / 12, TimeFrame::Month => months % 12]
    } else if days > 0 {
        map![TimeFrame::Day => days]
    } else if hours >= 4 {
        map![TimeFrame::Hour => hours]
    } else if minutes >= 60 {
        map![TimeFrame::Minute => minutes % 60]
    } else if minutes >= 5 {
        map![TimeFrame::Minute => minutes]
    } else if seconds > 0 {
        map![TimeFrame::Minute => minutes, TimeFrame::Second => seconds % 60]
    } else {
        Map::empty()
    }
}

/// A distance of one to three whole weeks is described by its weeks alone.
pub proof fn weeks_alone(seconds: nat)
    requires
        0 < seconds / 604_800 < 4,
    ensures
        breakdown(seconds) == map![TimeFrame::Week => seconds / 604_800],
{
    assert(breakdown(seconds) =~= map![TimeFrame::Week => seconds / 604_800]);
}

/// A distance of four weeks or more, and of less than twelve months of four
/// weeks, is described by those months and by the weeks that remain, which are
/// fewer than four.
pub proof fn months_then_weeks(seconds: nat)
    requires
        seconds / 604_800 >= 4,
        seconds / 604_800 / 4 < 12,
    ensures
        breakdown(seconds) == map![
            TimeFrame::Month => seconds / 604_800 / 4,
            TimeFrame::Week => (seconds / 604_800 - 4 * (seconds / 604_800 / 4)) as nat,
        ],
        0 <= seconds / 604_800 - 4 * (seconds / 604_800 / 4) < 4,
{
    let weeks = seconds / 604_800;
    assert(weeks % 4 == weeks - 4 * (weeks / 4));
    assert(breakdown(seconds) =~= map![
        TimeFrame::Month => weeks / 4,
        TimeFrame::Week => (weeks - 4 * (weeks / 4)) as nat,
    ]);
}

/// A distance of twelve months of four weeks or more is described by the years
/// of twelve months and by the months that remain, which are fewer than twelve.
/// The weeks are left out.
pub proof fn years_then_months(seconds: nat)
    requires
        seconds / 604_800 / 4 >= 12,
    ensures
        breakdown(seconds) == map![
            TimeFrame::Year => seconds / 604_800 / 4 / 12,
            TimeFrame::Month => (seconds / 604_800 / 4 - 12 * (seconds / 604_800 / 4 / 12)) as nat,
        ],
        !breakdown(seconds).contains_key(TimeFrame::Week),
        0 <= seconds / 604_800 / 4 - 12 * (seconds / 604_800 / 4 / 12) < 12,
{
    let months = seconds / 604_800 / 4;
    assert(months % 12 == months - 12 * (months / 12));
    assert(breakdown(seconds) =~= map![
        TimeFrame::Year => months / 12,
        TimeFrame::Month => (months - 12 * (months / 12)) as nat,
    ]);
}

/// A description stays within one band: any two units in it are the same or
/// next to each other in the order, so it never holds more than two.
pub proof fn breakdown_is_one_band(seconds: nat, u: TimeFrame, v: TimeFrame)
    requires
        breakdown(seconds).contains_key(u),
        breakdown(seconds).contains_key(v),
    ensures
        u.index() <= v.index() + 1,
        v.index() <= u.index() + 1,
{
}

/// Whether a text ends with another.
pub open spec fn ends_with(s: Seq<char>, suffix: Seq<char>) -> bool {
    s.len() >= suffix.len() && s.subrange(s.len() - suffix.len(), s.len() as int) == suffix
}

/// Whether a text begins with another.
pub open spec fn begins_with(s: Seq<char>, prefix: Seq<char>) -> bool {
    s.len() >= prefix.len() && s.subrange(0, prefix.len() as int) == prefix
}

/// Whether a character is the last letter of a unit's abbreviation.
pub open spec fn closes_unit(c: char) -> bool {
    c == 's' || c == 'c' || c == 'n' || c == 'r' || c == 'd' || c == 'w' || c == 'm' || c == 'y'
}

/// A fragment is not empty and ends in the last letter of its unit's
/// abbreviation.
pub proof fn fragment_ends_in_unit(unit: TimeFrame, magnitude: u64)
    ensures
        fragment(unit, magnitude).len() > 0,
        closes_unit(fragment(unit, magnitude).last()),
{
    reveal_strlit("ms");
    reveal_strlit("sec");
    reveal_strlit("min");
    reveal_strlit("hr");
    reveal_strlit("d");
    reveal_strlit("w");
    reveal_strlit("m");
    reveal_strlit("y");
    let a = unit.abbrev_text();
    assert(a.len() > 0);
    assert(closes_unit(a.last()));
    assert(fragment(unit, magnitude).last() == a.last());
}

/// Renders a magnitude in a unit.
fn as_tuple(tf: TimeFrame, val: u64) -> (c: Component)
    ensures
        c.0@ == fragment(tf, val),
        c.1 == val,
{
    let mut text = String::new();
    push_decimal(&mut text, val);
    text.append(tf.abbrev());
    assert(text@ =~= fragment(tf, val));
    (text, val)
}

impl Elapsed {
    /// The instant that is described.
    pub closed spec fn target(self) -> Timestamp {
        self.datetime
    }

    /// The instant against which the target is measured.
    pub closed spec fn reference(self) -> Timestamp {
        self.datetime_context
    }

    /// The signed distance from the reference to the target.
    pub closed spec fn span(self) -> Span {
        self.duration
    }

    /// Whether the target is the reference or lies before it.
    pub closed spec fn has_passed(self) -> bool {
        self.passed
    }

    /// What is recorded for a unit, if anything: the fragment and the magnitude.
    pub closed spec fn slot(self, unit: TimeFrame) -> Option<(Seq<char>, u64)> {
        entry(self.cache, unit)
    }

    /// The recorded magnitudes by unit.
    pub open spec fn components(self) -> Map<TimeFrame, nat> {
        Map::new(|u: TimeFrame| self.slot(u) is Some, |u: TimeFrame| self.slot(u).unwrap().1 as nat)
    }

    /// Whether no unit finer than `unit` is recorded.
    pub open spec fn nothing_finer(self, unit: TimeFrame) -> bool {
        forall|u: TimeFrame| u.index() < unit.index() ==> self.slot(u) is None
    }

    /// The invariant: the distance and the flag are those of the two instants, and
    /// every recorded fragment shows its magnitude in its unit.
    pub open spec fn wf(self) -> bool {
        &&& self.target().wf()
        &&& self.reference().wf()
        &&& self.span().wf()
        &&& self.span().total_nanos() == self.target().total_nanos()
            - self.reference().total_nanos()
        &&& self.has_passed() == (self.target().total_nanos() <= self.reference().total_nanos())
        &&& forall|u: TimeFrame| #[trigger]
            self.slot(u) matches Some(c) ==> c.0 == fragment(u, c.1)
    }

    /// Whether this value is what [`Elapsed::process`] makes of `before`.
    pub open spec fn processed_from(self, before: Elapsed) -> bool {
        &&& self.wf()
        &&& self.same_instants(before)
        &&& self.components() == before.components().union_prefer_right(
            breakdown(before.span().abs_seconds()),
        )
    }

    /// Describing a distance a second time changes nothing: where `once` is what
    /// [`Elapsed::process`] makes of a value and `twice` what it makes of `once`,
    /// the two record the same fragment and magnitude for every unit.
    pub proof fn process_twice(before: Elapsed, once: Elapsed, twice: Elapsed)
        requires
            before.wf(),
            once.processed_from(before),
            twice.processed_from(once),
        ensures
            twice.components() == once.components(),
            forall|u: TimeFrame| twice.slot(u) == once.slot(u),
    {
        assert(twice.components() =~= once.components());
        assert forall|u: TimeFrame| twice.slot(u) == once.slot(u) by {
            assert(twice.components().contains_key(u) == once.components().contains_key(u));
            if once.slot(u) is Some {
                assert(twice.components()[u] == once.components()[u]);
            }
        }
    }

    /// Whether `other` relates the same instants with the same distance and flag.
    pub open spec fn same_instants(self, other: Elapsed) -> bool {
        &&& self.target() == other.target()
        &&& self.reference() == other.reference()
        &&& self.span() == other.span()
        &&& self.has_passed() == other.has_passed()
    }

    /// Relates `datetime` to `context` and records nothing yet.
    pub fn custom_with_context(datetime: Timestamp, context: Timestamp) -> (e: Elapsed)
        requires
            datetime.wf(),
            context.wf(),
        ensures
            e.wf(),
            e.target() == datetime,
            e.reference() == context,
            forall|u: TimeFrame| e.slot(u) is None,
            e.components() == Map::<TimeFrame, nat>::empty(),
    {
        let e = Elapsed {
            datetime_context: context,
            datetime,
            duration: signed_duration_since(datetime, context),
            passed: not_after(datetime, context),
            cache: [None, None, None, None, None, None, None, None],
        };
        assert(e.components() =~= Map::<TimeFrame, nat>::empty());
        e
    }

    /// Relates `datetime` to `context` and records the components that describe
    /// the distance between them.
    pub fn new_with_context(datetime: Timestamp, context: Timestamp) -> (e: Elapsed)
        requires
            datetime.wf(),
            context.wf(),
        ensures
            e.wf(),
            e.target() == datetime,
            e.reference() == context,
            e.components() == breakdown(e.span().abs_seconds()),
    {
        let mut obj = Self::custom_with_context(datetime, context);
        obj.process();
        assert(obj.components() =~= breakdown(obj.span().abs_seconds()));
        obj
    }

    /// Relates `datetime` to the present instant and records nothing yet.
    pub fn custom(datetime: Timestamp) -> (e: Elapsed)
        requires
            datetime.wf(),
        ensures
            e.wf(),
            e.target() == datetime,
            forall|u: TimeFrame| e.slot(u) is None,
            e.components() == Map::<TimeFrame, nat>::empty(),
    {
        Self::custom_with_context(datetime, now())
    }

    /// Relates `datetime` to the present instant and records the components that
    /// describe the distance between them.
    pub fn new(datetime: Timestamp) -> (e: Elapsed)
        requires
            datetime.wf(),
        ensures
            e.wf(),
            e.target() == datetime,
            e.components() == breakdown(e.span().abs_seconds()),
    {
        Self::new_with_context(datetime, now())
    }

    /// As [`Elapsed::custom`], for an instant that was read in UTC. A
    /// [`Timestamp`] counts from the epoch in UTC whatever zone it was read in, so
    /// it stands for the same instant in the local zone.
    pub fn custom_then_localize(datetime: Timestamp) -> (e: Elapsed)
        requires
            datetime.wf(),
        ensures
            e.wf(),
            e.target() == datetime,
            forall|u: TimeFrame| e.slot(u) is None,
            e.components() == Map::<TimeFrame, nat>::empty(),
    {
        let datetime_context = now();
        Self::custom_with_context(datetime, datetime_context)
    }

    /// As [`Elapsed::new`], for an instant that was read in UTC.
    pub fn new_then_localize(datetime: Timestamp) -> (e: Elapsed)
        requires
            datetime.wf(),
        ensures
            e.wf(),
            e.target() == datetime,
            e.components() == breakdown(e.span().abs_seconds()),
    {
        let mut obj = Self::custom_then_localize(datetime);
        obj.process();
        assert(obj.components() =~= breakdown(obj.span().abs_seconds()));
        obj
    }

    /// Replaces the reference instant, and describes the new distance afresh.
    pub fn set_datetime_context(&mut self, datetime_context: Timestamp) -> (r: &mut Self)
        requires
            old(self).wf(),
            datetime_context.wf(),
        ensures
            *final(self) == *final(r),
            r.wf(),
            r.target() == old(self).target(),
            r.reference() == datetime_context,
            r.components() == breakdown(r.span().abs_seconds()),
    {
        *self = Self::new_with_context(self.datetime, datetime_context);
        self
    }

    /// Replaces the target instant, and describes the new distance afresh.
    pub fn set_datetime(&mut self, datetime: Timestamp) -> (r: &mut Self)
        requires
            old(self).wf(),
            datetime.wf(),
        ensures
            *final(self) == *final(r),
            r.wf(),
            r.target() == datetime,
            r.reference() == old(self).reference(),
            r.components() == breakdown(r.span().abs_seconds()),
    {
        *self = Self::new_with_context(datetime, self.datetime_context);
        self
    }

    /// Records the components that describe the distance, over what was recorded
    /// for their units. Units that the description does not use keep what they
    /// had.
    pub fn process(&mut self)
        requires
            old(self).wf(),
        ensures
            final(self).processed_from(*old(self)),
    {
        let diff = self.duration;
        let weeks = magnitude(diff.num_weeks());
        let days = magnitude(diff.num_days());
        let hours = magnitude(diff.num_hours());
        let minutes = magnitude(diff.num_minutes());
        let seconds = magnitude(diff.num_seconds());

        if weeks > 0 {
            if weeks < 4 {
                self.cache_insert(TimeFrame::Week, weeks);
            } else {
                let months = weeks / 4;
                let weeks_remaining = weeks - months * 4;
                if months < 12 {
                    self.cache_insert(TimeFrame::Month, months);
                    self.cache_insert(TimeFrame::Week, weeks_remaining);
                } else {
                    let years = months / 12;
                    let months_remaining = months - years * 12;
                    self.cache_insert(TimeFrame::Year, years);
                    self.cache_insert(TimeFrame::Month, months_remaining);
                }
            }
        } else if days > 0 {
            self.cache_insert(TimeFrame::Day, days);
        } else if hours >= 4 {
            self.cache_insert(TimeFrame::Hour, hours);
        } else if minutes >= 60 {
            self.cache_insert(TimeFrame::Minute, minutes - hours * 60);
        } else if minutes >= 5 {
            self.cache_insert(TimeFrame::Minute, minutes);
        } else if seconds > 0 {
            self.cache_insert(TimeFrame::Minute, minutes);
            self.cache_insert(TimeFrame::Second, seconds - minutes * 60);
        }
        assert(self.components() =~= old(self).components().union_prefer_right(
            breakdown(old(self).span().abs_seconds()),
        ));
    }

    /// Records a magnitude for a unit, in place of what was recorded for it.
    pub fn cache_insert(&mut self, k: TimeFrame, v: u64)
        requires
            old(self).wf(),
        ensures
            final(self).wf(),
            final(self).same_instants(*old(self)),
            final(self).slot(k) == Some((fragment(k, v), v)),
            forall|u: TimeFrame| u != k ==> final(self).slot(u) == old(self).slot(u),
            final(self).components() == old(self).components().insert(k, v as nat),
    {
        let i = k.ordinal();
        self.cache[i] = Some(as_tuple(k, v));
        assert forall|u: TimeFrame| u != k implies self.slot(u) == old(self).slot(u) by {
            assert(u.index() != k.index());
        }
        assert(self.components() =~= old(self).components().insert(k, v as nat));
    }

    /// Forgets every recorded component.
    pub fn clear_cache(&mut self)
        requires
            old(self).wf(),
        ensures
            final(self).wf(),
            final(self).same_instants(*old(self)),
            forall|u: TimeFrame| final(self).slot(u) is None,
            final(self).components() == Map::<TimeFrame, nat>::empty(),
    {
        self.cache = [None, None, None, None, None, None, None, None];
        assert(self.components() =~= Map::<TimeFrame, nat>::empty());
    }

    /// The magnitude that is recorded for a unit, if any.
    pub fn recorded(&self, unit: TimeFrame) -> (m: Option<u64>)
        ensures
            m == match self.slot(unit) {
                Some(c) => Some(c.1),
                None => None,
            },
    {
        match &self.cache[unit.ordinal()] {
            Some(c) => Some(c.1),
            None => None,
        }
    }

    /// Whether `k` may be recorded in a chain that goes from coarse to fine: no
    /// unit finer than `k` is recorded yet.
    pub fn accepts(&self, k: TimeFrame) -> (ok: bool)
        ensures
            ok == self.nothing_finer(k),
    {
        let n = k.ordinal();
        let mut i: usize = 0;
        while i < n
            invariant
                i <= n,
                n == k.index(),
                n < 8,
                forall|u: TimeFrame| u.index() < i ==> self.slot(u) is None,
            decreases n - i,
        {
            if self.cache[i].is_some() {
                assert(self.slot(TimeFrame::at(i as int)) is Some);
                return false;
            }
            assert forall|u: TimeFrame| u.index() < i + 1 implies self.slot(u) is None by {
                if u.index() == i {
                    assert(u == TimeFrame::at(i as int));
                }
            }
            i += 1;
        }
        true
    }

    /// Records a magnitude for a unit in a chain that goes from coarse to fine.
    fn protected_insert(&mut self, k: TimeFrame, v: u64)
        requires
            old(self).wf(),
            old(self).nothing_finer(k),
        ensures
            final(self).wf(),
            final(self).same_instants(*old(self)),
            final(self).slot(k) == Some((fragment(k, v), v)),
            forall|u: TimeFrame| u != k ==> final(self).slot(u) == old(self).slot(u),
            final(self).components() == old(self).components().insert(k, v as nat),
    {
        self.cache_insert(k, v);
    }

    /// The whole years in the distance, a year being fifty-two weeks.
    pub fn num_years(&self) -> (years: u64)
        requires
            self.wf(),
        ensures
            years == self.span().abs_seconds() / 604_800 / 52,
    {
        magnitude(self.duration.num_weeks()) / 52
    }

    /// The whole years in the distance, as a component.
    pub fn years(&mut self) -> (c: Component)
        requires
            old(self).wf(),
        ensures
            *final(self) == *old(self),
            c.1 == old(self).span().abs_seconds() / 604_800 / 52,
            c.0@ == fragment(TimeFrame::Year, c.1),
    {
        as_tuple(TimeFrame::Year, self.num_years())
    }

    /// Records the whole years in the distance, and hands the value back for the
    /// next, finer unit of the chain. Nothing finer may be recorded yet.
    pub fn years_and(&mut self) -> (r: &mut Self)
        requires
            old(self).wf(),
            old(self).nothing_finer(TimeFrame::Year),
        ensures
            *final(self) == *final(r),
            r.wf(),
            r.same_instants(*old(self)),
            r.slot(TimeFrame::Year) == Some(
                (
                    fragment(TimeFrame::Year, (old(self).span().abs_seconds() / 604_800 / 52) as u64),
                    (old(self).span().abs_seconds() / 604_800 / 52) as u64,
                ),
            ),
            forall|u: TimeFrame| u != TimeFrame::Year ==> r.slot(u) == old(self).slot(u),
            r.components() == old(self).components().insert(
                TimeFrame::Year,
                old(self).span().abs_seconds() / 604_800 / 52,
            ),
    {
        let years = self.num_years();
        self.protected_insert(TimeFrame::Year, years);
        self
    }

    /// The whole months in the distance, a month being four weeks.
    pub fn num_months(&self) -> (months: u64)
        requires
            self.wf(),
        ensures
            months == self.span().abs_seconds() / 604_800 / 4,
    {
        magnitude(self.duration.num_weeks()) / 4
    }

    /// The months that remain of the distance once the recorded years are taken
    /// out at twelve months each; all its months where no years are recorded.
    pub open spec fn months_left(self) -> int {
        let months = self.span().abs_seconds() / 604_800 / 4;
        match self.slot(TimeFrame::Year) {
            Some(c) => months - 12 * c.1,
            None => months as int,
        }
    }

    /// Whether the recorded years, at twelve months each, are no more than the
    /// months in the distance; true where no years are recorded.
    pub fn years_fit(&self) -> (ok: bool)
        requires
            self.wf(),
        ensures
            ok == (self.months_left() >= 0),
    {
        let months = self.num_months();
        match self.recorded(TimeFrame::Year) {
            Some(years) => years <= months / 12,
            None => true,
        }
    }

    /// The months in the distance beyond the recorded years, as a component. The
    /// recorded years must not exceed the distance.
    pub fn months(&mut self) -> (c: Component)
        requires
            old(self).wf(),
            old(self).months_left() >= 0,
        ensures
            *final(self) == *old(self),
            c.1 == old(self).months_left(),
            c.0@ == fragment(TimeFrame::Month, c.1),
    {
        let mut months = self.num_months();
        if let Some(years) = self.recorded(TimeFrame::Year) {
            months = months - 12 * years;
        }
        as_tuple(TimeFrame::Month, months)
    }

    /// Records the months in the distance beyond the recorded years, and hands
    /// the value back for the next, finer unit of the chain. Nothing finer may be
    /// recorded yet, and the recorded years must not exceed the distance.
    pub fn months_and(&mut self) -> (r: &mut Self)
        requires
            old(self).wf(),
            old(self).nothing_finer(TimeFrame::Month),
            old(self).months_left() >= 0,
        ensures
            *final(self) == *final(r),
            r.wf(),
            r.same_instants(*old(self)),
            r.slot(TimeFrame::Month) == Some(
                (
                    fragment(TimeFrame::Month, old(self).months_left() as u64),
                    old(self).months_left() as u64,
                ),
            ),
            forall|u: TimeFrame| u != TimeFrame::Month ==> r.slot(u) == old(self).slot(u),
            r.components() == old(self).components().insert(
                TimeFrame::Month,
                old(self).months_left() as nat,
            ),
    {
        let months = self.months().1;
        self.protected_insert(TimeFrame::Month, months);
        self
    }

    /// The whole weeks in the distance, as a component.
    pub fn weeks(&mut self) -> (c: Component)
        requires
            old(self).wf(),
        ensures
            *final(self) == *old(self),
            c.1 == old(self).span().abs_seconds() / 604_800,
            c.0@ == fragment(TimeFrame::Week, c.1),
    {
        as_tuple(TimeFrame::Week, magnitude(self.duration.num_weeks()))
    }

    /// The whole days in the distance, as a component.
    pub fn days(&mut self) -> (c: Component)
        requires
            old(self).wf(),
        ensures
            *final(self) == *old(self),
            c.1 == old(self).span().abs_seconds() / 86_400,
            c.0@ == fragment(TimeFrame::Day, c.1),
    {
        as_tuple(TimeFrame::Day, magnitude(self.duration.num_days()))
    }

    /// The whole hours in the distance, as a component.
    pub fn hours(&mut self) -> (c: Component)
        requires
            old(self).wf(),
        ensures
            *final(self) == *old(self),
            c.1 == old(self).span().abs_seconds() / 3_600,
            c.0@ == fragment(TimeFrame::Hour, c.1),
    {
        as_tuple(TimeFrame::Hour, magnitude(self.duration.num_hours()))
    }

    /// The whole minutes in the distance, as a component.
    pub fn minutes(&mut self) -> (c: Component)
        requires
            old(self).wf(),
        ensures
            *final(self) == *old(self),
            c.1 == old(self).span().abs_seconds() / 60,
            c.0@ == fragment(TimeFrame::Minute, c.1),
    {
        as_tuple(TimeFrame::Minute, magnitude(self.duration.num_minutes()))
    }

    /// The whole seconds in the distance, as a component.
    pub fn seconds(&mut self) -> (c: Component)
        requires
            old(self).wf(),
        ensures
            *final(self) == *old(self),
            c.1 == old(self).span().abs_seconds(),
            c.0@ == fragment(TimeFrame::Second, c.1),
    {
        as_tuple(TimeFrame::Second, magnitude(self.duration.num_seconds()))
    }

    /// A copy of what is recorded, one slot for each unit in the order of the
    /// units.
    pub fn collect(&self) -> (snapshot: Slots)
        ensures
            forall|u: TimeFrame| entry(snapshot, u) == self.slot(u),
    {
        let mut out: Slots = [None, None, None, None, None, None, None, None];
        let mut i: usize = 0;
        while i < 8
            invariant
                i <= 8,
                forall|j: int| 0 <= j < i ==> out[j] == self.cache[j],
                forall|j: int| i <= j < 8 ==> out[j] is None,
            decreases 8 - i,
        {
            match &self.cache[i] {
                Some(c) => {
                    out[i] = Some((c.0.clone(), c.1));
                },
                None => {},
            }
            i += 1;
        }
        out
    }

    /// The recorded fragments of the units from place `n` on, the coarsest first,
    /// with one space between two of them.
    pub open spec fn phrase_from(self, n: int) -> Seq<char>
        decreases 8 - n,
    {
        if n >= 8 {
            Seq::empty()
        } else {
            let coarser = self.phrase_from(n + 1);
            match self.slot(TimeFrame::at(n)) {
                Some(c) => if coarser.len() == 0 {
                    c.0
                } else {
                    coarser + seq![' '] + c.0
                },
                None => coarser,
            }
        }
    }

    /// All recorded fragments, from the years down, with one space between two of
    /// them.
    pub open spec fn phrase(self) -> Seq<char> {
        self.phrase_from(0)
    }

    /// The description: the phrase followed by ` ago` where the target has passed,
    /// and preceded by `in ` where it has not.
    pub open spec fn rendered(self) -> Seq<char> {
        if self.has_passed() {
            self.phrase() + seq![' ', 'a', 'g', 'o']
        } else {
            seq!['i', 'n', ' '] + self.phrase()
        }
    }

    /// The description of the distance, such as `in 1m 2w` or `20min ago`. Where
    /// nothing is recorded it is the bare ` ago` or `in `.
    pub fn to_string(&self) -> (s: String)
        requires
            self.wf(),
        ensures
            s@ == self.rendered(),
            self.has_passed() <==> ends_with(s@, seq![' ', 'a', 'g', 'o']),
            !self.has_passed() ==> begins_with(s@, seq!['i', 'n', ' ']),
    {
        let mut phrase = String::new();
        let mut i: usize = 8;
        while i > 0
            invariant
                i <= 8,
                phrase@ == self.phrase_from(i as int),
            decreases i,
        {
            i -= 1;
            match &self.cache[i] {
                Some(c) => {
                    assert(self.slot(TimeFrame::at(i as int)) == Some((c.0@, c.1)));
                    if !phrase.as_str().is_empty() {
                        proof {
                            reveal_strlit(" ");
                        }
                        phrase.append(" ");
                        assert(phrase@ =~= self.phrase_from(i + 1) + seq![' ']);
                    }
                    phrase.append(c.0.as_str());
                },
                None => {
                    assert(self.slot(TimeFrame::at(i as int)) is None);
                },
            }
        }
        proof {
            reveal_strlit(" ago");
            reveal_strlit("in ");
            assert(" ago"@ =~= seq![' ', 'a', 'g', 'o']);
            assert("in "@ =~= seq!['i', 'n', ' ']);
            self.sign_shows();
        }
        if self.passed {
            phrase.append(" ago");
            phrase
        } else {
            String::from_str("in ").concat(phrase.as_str())
        }
    }

    /// The phrase of a valid value is empty or ends in the last letter of an
    /// abbreviation.
    proof fn phrase_ends_in_unit(self, n: int)
        requires
            self.wf(),
            0 <= n <= 8,
        ensures
            self.phrase_from(n).len() == 0 || closes_unit(self.phrase_from(n).last()),
        decreases 8 - n,
    {
        if n < 8 {
            self.phrase_ends_in_unit(n + 1);
            let u = TimeFrame::at(n);
            match self.slot(u) {
                Some(c) => {
                    fragment_ends_in_unit(u, c.1);
                    assert(c.0 == fragment(u, c.1));
                },
                None => {},
            }
        }
    }

    /// The sign of the distance shows in the description: it ends in ` ago` if
    /// and only if the target has passed, and begins with `in ` otherwise.
    pub proof fn sign_shows(self)
        requires
            self.wf(),
        ensures
            self.has_passed() <==> ends_with(self.rendered(), seq![' ', 'a', 'g', 'o']),
            !self.has_passed() ==> begins_with(self.rendered(), seq!['i', 'n', ' ']),
    {
        let r = self.rendered();
        let p = self.phrase();
        let ago = seq![' ', 'a', 'g', 'o'];
        let ahead = seq!['i', 'n', ' '];
        self.phrase_ends_in_unit(0);
        if self.has_passed() {
            assert(r.subrange(r.len() - 4, r.len() as int) =~= ago);
        } else {
            assert(r.subrange(0, 3) =~= ahead);
            if ends_with(r, ago) {
                assert(r.len() >= 4);
                assert(p.len() > 0);
                assert(r.last() == p.last());
                assert(r.last() == r.subrange(r.len() - 4, r.len() as int)[3]);
                assert(ago[3] == 'o');
            }
        }
    }

    /// The instant that is described.
    pub fn datetime(&self) -> (t: Timestamp)
        ensures
            t == self.target(),
    {
        self.datetime
    }

    /// The instant against which the target is measured.
    pub fn datetime_context(&self) -> (t: Timestamp)
        ensures
            t == self.reference(),
    {
        self.datetime_context
    }

    /// The signed distance from the reference to the target: positive where the
    /// target lies ahead.
    pub fn duration(&self) -> (d: Span)
        ensures
            d == self.span(),
    {
        self.duration
    }

    /// Whether the target is the reference or lies before it.
    pub fn passed(&self) -> (p: bool)
        ensures
            p == self.has_passed(),
    {
        self.passed
    }
}

} // verus!
