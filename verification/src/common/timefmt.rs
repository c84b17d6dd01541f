//! "How long ago" text for durations given in whole seconds.

use std::borrow::Cow;
use vstd::prelude::*;

use crate::text::{decimal, push_char, push_decimal, push_str};

verus! {

/// A unit that a duration is expressed in.
#[derive(Debug, Clone, Copy, PartialEq, Eq)]
pub enum TimeUnit {
    Second,
    Minute,
    Hour,
    Day,
    Week,
}

/// The long English name of a unit.
pub open spec fn unit_normal(u: TimeUnit) -> Seq<char> {
    match u {
        TimeUnit::Second => "second"@,
        TimeUnit::Minute => "minute"@,
        TimeUnit::Hour => "hour"@,
        TimeUnit::Day => "day"@,
        TimeUnit::Week => "week"@,
    }
}

/// The one-letter abbreviation of a unit.
pub open spec fn unit_short(u: TimeUnit) -> Seq<char> {
    match u {
        TimeUnit::Second => "s"@,
        TimeUnit::Minute => "m"@,
        TimeUnit::Hour => "h"@,
        TimeUnit::Day => "d"@,
        TimeUnit::Week => "w"@,
    }
}

impl TimeUnit {
    pub fn normal(self) -> (r: &'static str)
        ensures
            r@ == unit_normal(self),
    {
        match self {
            Self::Second => "second",
            Self::Minute => "minute",
            Self::Hour => "hour",
            Self::Day => "day",
            Self::Week => "week",
        }
    }

    pub fn short(self) -> (r: &'static str)
        ensures
            r@ == unit_short(self),
    {
        match self {
            Self::Second => "s",
            Self::Minute => "m",
            Self::Hour => "h",
            Self::Day => "d",
            Self::Week => "w",
        }
    }
}

/// An amount of one unit.
#[derive(Debug)]
pub struct TimePart {
    pub unit: TimeUnit,
    pub value: u64,
}

/// `"3 days"`, `"1 week"`: the value, a space, the unit name and a plural `s` unless the value is 1.
pub open spec fn part_normal(value: nat, unit: TimeUnit) -> Seq<char> {
    decimal(value) + seq![' '] + unit_normal(unit) + (if value == 1 { seq![] } else { "s"@ })
}

/// `"3d"`, `"1w"`: the value followed by the unit abbreviation.
pub open spec fn part_short(value: nat, unit: TimeUnit) -> Seq<char> {
    decimal(value) + unit_short(unit)
}

/// One part rendered in the long or the short style.
pub open spec fn part_text(value: nat, unit: TimeUnit, short: bool) -> Seq<char> {
    if short {
        part_short(value, unit)
    } else {
        part_normal(value, unit)
    }
}

impl TimePart {
    pub fn new(value: u64, unit: TimeUnit) -> (r: Self)
        ensures
            r.value == value,
            r.unit == unit,
    {
        Self { unit, value }
    }

    pub fn format(&self, short: bool) -> (r: String)
        ensures
            r@ == part_text(self.value as nat, self.unit, short),
    {
        if short {
            self.format_short()
        } else {
            self.format_normal()
        }
    }

    pub fn format_normal(&self) -> (r: String)
        ensures
            r@ == part_normal(self.value as nat, self.unit),
    {
        let name = self.unit.normal();
        let mut s = String::new();
        push_decimal(&mut s, self.value);
        push_char(&mut s, ' ');
        push_str(&mut s, name);
        if self.value != 1 {
            push_str(&mut s, "s");
        }
        assert(s@ =~= part_normal(self.value as nat, self.unit));
        s
    }

    pub fn format_short(&self) -> (r: String)
        ensures
            r@ == part_short(self.value as nat, self.unit),
    {
        let mut s = String::new();
        push_decimal(&mut s, self.value);
        push_str(&mut s, self.unit.short());
        assert(s@ =~= part_short(self.value as nat, self.unit));
        s
    }
}

/// The parts that a duration of `t` seconds is shown with: whole weeks, whole days,
/// then (only below one day) the hours and the minutes within the hour, and the
/// seconds only below one minute; parts whose value is zero are left out.
pub open spec fn parts_of(t: nat) -> Seq<(nat, TimeUnit)> {
    let weeks = t / 604800;
    let days = t / 86400;
    let hours = t / 3600;
    let minutes = (t / 60) % 60;
    let seconds = t % 60;
    (if weeks > 0 { seq![(weeks, TimeUnit::Week)] } else { seq![] })
        + (if days > 0 { seq![(days, TimeUnit::Day)] } else { seq![] })
        + (if days == 0 && hours > 0 { seq![(hours, TimeUnit::Hour)] } else { seq![] })
        + (if days == 0 && minutes > 0 { seq![(minutes, TimeUnit::Minute)] } else { seq![] })
        + (if t < 60 && seconds > 0 { seq![(seconds, TimeUnit::Second)] } else { seq![] })
}

/// The parts rendered and joined by single spaces.
pub open spec fn join_parts(parts: Seq<(nat, TimeUnit)>, short: bool) -> Seq<char>
    decreases parts.len(),
{
    if parts.len() == 0 {
        seq![]
    } else if parts.len() == 1 {
        part_text(parts[0].0, parts[0].1, short)
    } else {
        join_parts(parts.drop_last(), short) + seq![' '] + part_text(
            parts.last().0,
            parts.last().1,
            short,
        )
    }
}

/// What `format_seconds` shows for `t` seconds.
pub open spec fn seconds_text(t: nat, short: bool) -> Seq<char> {
    if parts_of(t).len() == 0 {
        "Just now"@
    } else {
        join_parts(parts_of(t), short)
    }
}

/// A zero duration reads "Just now"; any other duration has at least one part to show.
pub proof fn lemma_just_now_iff_zero(t: nat)
    ensures
        t == 0 ==> seconds_text(t, false) == "Just now"@ && seconds_text(t, true) == "Just now"@,
        parts_of(t).len() == 0 <==> t == 0,
{
    let days = t / 86400;
    let hours = t / 3600;
    let minutes = (t / 60) % 60;
    if t > 0 {
        if t < 60 {
            assert(t % 60 == t);
        } else if days == 0 {
            if hours == 0 {
                assert(t < 3600);
                assert(t / 60 < 60);
                assert(minutes == t / 60);
                assert(minutes > 0);
            }
        }
        assert(parts_of(t).len() > 0);
    } else {
        assert(parts_of(t) =~= Seq::<(nat, TimeUnit)>::empty());
    }
}

/// Pushes a part when its condition holds.
fn push_part_if(parts: &mut Vec<TimePart>, cond: bool, value: u64, unit: TimeUnit)
    ensures
        final(parts)@.len() == old(parts)@.len() + (if cond { 1int } else { 0int }),
        forall|i: int| 0 <= i < old(parts)@.len() ==> final(parts)@[i] == old(parts)@[i],
        cond ==> final(parts)@.last().value == value && final(parts)@.last().unit == unit,
{
    if cond {
        parts.push(TimePart::new(value, unit));
    }
}

/// Renders a duration in seconds as the largest fitting units, e.g. `"2 hours 5 minutes"`
/// or, in the short style, `"2h 5m"`; a zero duration reads `"Just now"`.
pub fn format_seconds(total_seconds: u64, short: bool) -> (r: Cow<'static, str>)
    ensures
        r@ == seconds_text(total_seconds as nat, short),
{
    let weeks = total_seconds / (60 * 60 * 24 * 7);
    let days = total_seconds / (60 * 60 * 24);
    let hours = total_seconds / (60 * 60);
    let minutes = (total_seconds / 60) % 60;
    let seconds = total_seconds % 60;

    let mut parts: Vec<TimePart> = Vec::new();
    push_part_if(&mut parts, weeks > 0, weeks, TimeUnit::Week);
    push_part_if(&mut parts, days > 0, days, TimeUnit::Day);
    push_part_if(&mut parts, days == 0 && hours > 0, hours, TimeUnit::Hour);
    push_part_if(&mut parts, days == 0 && minutes > 0, minutes, TimeUnit::Minute);
    push_part_if(&mut parts, total_seconds < 60 && seconds > 0, seconds, TimeUnit::Second);

    let ghost expected = parts_of(total_seconds as nat);
    assert(parts@.len() == expected.len());
    assert(forall|i: int|
        0 <= i < parts@.len() ==> parts@[i].value as nat == expected[i].0 && parts@[i].unit
            == expected[i].1) by {
        assert(expected =~= (if weeks > 0 { seq![(weeks as nat, TimeUnit::Week)] } else { seq![] })
            + (if days > 0 { seq![(days as nat, TimeUnit::Day)] } else { seq![] })
            + (if days == 0 && hours > 0 { seq![(hours as nat, TimeUnit::Hour)] } else { seq![] })
            + (if days == 0 && minutes > 0 { seq![(minutes as nat, TimeUnit::Minute)] } else { seq![] })
            + (if total_seconds < 60 && seconds > 0 { seq![(seconds as nat, TimeUnit::Second)] } else { seq![] }));
    }

    if parts.len() == 0 {
        return Cow::Borrowed("Just now");
    }

    let mut out = String::new();
    let mut i: usize = 0;
    while i < parts.len()
        invariant
            0 < parts@.len() == expected.len(),
            i <= parts@.len(),
            forall|j: int|
                0 <= j < parts@.len() ==> parts@[j].value as nat == expected[j].0
                    && parts@[j].unit == expected[j].1,
            out@ == join_parts(expected.take(i as int), short),
        decreases parts@.len() - i,
    {
        let piece = parts[i].format(short);
        if i > 0 {
            push_char(&mut out, ' ');
        }
        push_str(&mut out, piece.as_str());
        proof {
            let pre = expected.take((i + 1) as int);
            assert(pre.drop_last() =~= expected.take(i as int));
            if i == 0 {
                assert(out@ =~= join_parts(pre, short));
            } else {
                assert(out@ =~= join_parts(pre, short));
            }
        }
        i = i + 1;
    }
    assert(expected.take(parts@.len() as int) =~= expected);
    Cow::Owned(out)
}

} // verus!
