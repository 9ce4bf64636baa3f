//! The wall clock and the local calendar, as plain numbers and texts.

use crate::text::{
    all_digits, decimal, decimal_i64, decimal_int, is_digit, lemma_decimal_denotes, push_decimal,
    push_text,
};
use chrono::TimeZone;
use vstd::prelude::*;

verus! {

/// An upper bound of every Unix timestamp in seconds that the calendar can represent.
pub const MAX_TIMESTAMP: i64 = 9_000_000_000_000;

/// A point in local time, in the notations that names and titles use.
pub struct LocalTime {
    /// Seconds since the Unix epoch.
    pub timestamp: i64,
    /// Year, month and day, joined by hyphens.
    pub date: String,
    /// Hour of the day, two digits.
    pub hour: String,
    /// Minute of the hour, two digits.
    pub minute: String,
    /// Second of the minute, two digits.
    pub second: String,
    /// The whole reading to the millisecond, without separators.
    pub stamp: String,
}

impl LocalTime {
    /// The shape that the calendar gives to each text.
    pub open spec fn wf(self) -> bool {
        &&& self.hour@.len() == 2 && all_digits(self.hour@)
        &&& self.minute@.len() == 2 && all_digits(self.minute@)
        &&& self.second@.len() == 2 && all_digits(self.second@)
        &&& forall|i: int|
            0 <= i < self.date@.len() ==> is_digit(#[trigger] self.date@[i]) || self.date@[i] == '-'
                || self.date@[i] == '+'
    }

    /// Hour and minute with `sep` between them.
    pub open spec fn clock(self, sep: Seq<char>) -> Seq<char> {
        self.hour@ + sep + self.minute@
    }
}

impl Clone for LocalTime {
    fn clone(&self) -> (r: Self)
        ensures
            r == *self,
    {
        LocalTime {
            timestamp: self.timestamp,
            date: self.date.clone(),
            hour: self.hour.clone(),
            minute: self.minute.clone(),
            second: self.second.clone(),
            stamp: self.stamp.clone(),
        }
    }
}

/// `chrono::Utc::now().timestamp()`: seconds since the Unix epoch, never negative and within what
/// the calendar of `chrono` can represent. A system clock set before the epoch makes it panic.
#[verifier::external_body]
pub(crate) fn now_seconds() -> (r: i64)
    ensures
        0 <= r < MAX_TIMESTAMP,
{
    chrono::Utc::now().timestamp()
}

/// `chrono::Utc::now().timestamp_millis()`: milliseconds since the Unix epoch, with the bounds of
/// the seconds.
#[verifier::external_body]
pub(crate) fn now_millis() -> (r: i64)
    ensures
        0 <= r < MAX_TIMESTAMP * 1000,
{
    chrono::Utc::now().timestamp_millis()
}

/// The timestamps from the epoch to the year 190000, for which the local calendar has a reading.
pub open spec fn readable(timestamp: i64) -> bool {
    0 <= timestamp < 6_000_000_000_000
}

/// What is known of the local reading of a timestamp, whatever the time zone: it is a reading of
/// this timestamp, and there is one for every timestamp within reach.
pub open spec fn reads(reading: Option<LocalTime>, timestamp: i64) -> bool {
    &&& reading matches Some(t) ==> t.timestamp == timestamp && t.wf()
    &&& readable(timestamp) ==> reading is Some
}

/// `chrono::Local.timestamp_opt`: the local calendar reading of a Unix timestamp. The reading
/// depends on the time zone of the machine, so only its shape is claimed: the timestamp is kept,
/// `%H`, `%M` and `%S` are two digits each, and `%Y-%m-%d` holds digits, hyphens and a sign. There is a
/// reading for every timestamp from the epoch to the year 190000.
#[verifier::external_body]
pub(crate) fn local_reading(timestamp: i64) -> (r: Option<LocalTime>)
    ensures
        reads(r, timestamp),
{
    chrono::Local.timestamp_opt(timestamp, 0).single().map(
        |t|
            LocalTime {
                timestamp,
                date: t.format("%Y-%m-%d").to_string(),
                hour: t.format("%H").to_string(),
                minute: t.format("%M").to_string(),
                second: t.format("%S").to_string(),
                stamp: t.format("%Y%m%d%H%M%S%3f").to_string(),
            },
    )
}

/// The local calendar reading of this moment: `chrono::Local::now()`, of which only the shape of
/// the texts and the bounds of the timestamp are claimed.
#[verifier::external_body]
pub(crate) fn local_now() -> (r: LocalTime)
    ensures
        r.wf(),
        0 <= r.timestamp < MAX_TIMESTAMP,
{
    let t = chrono::Local::now();
    LocalTime {
        timestamp: t.timestamp(),
        date: t.format("%Y-%m-%d").to_string(),
        hour: t.format("%H").to_string(),
        minute: t.format("%M").to_string(),
        second: t.format("%S").to_string(),
        stamp: t.format("%Y%m%d%H%M%S%3f").to_string(),
    }
}

/// The local reading of a timestamp, or of this moment where the calendar has none for it.
pub fn local_time(timestamp: i64) -> (r: LocalTime)
    ensures
        r.wf(),
        readable(timestamp) ==> r.timestamp == timestamp,
{
    match local_reading(timestamp) {
        Some(t) => t,
        None => local_now(),
    }
}

/// The text of an identifier: a prefix, a time in milliseconds and a sequence number.
pub open spec fn id_text(prefix: Seq<char>, millis: int, seq: nat) -> Seq<char> {
    prefix + "-"@ + decimal_int(millis) + "-"@ + decimal(seq)
}

/// Writes an identifier from its three parts.
pub fn format_id(prefix: &str, millis: i64, seq: u64) -> (r: String)
    ensures
        r@ == id_text(prefix@, millis as int, seq as nat),
{
    let mut out = prefix.to_owned();
    push_text(&mut out, "-");
    push_text(&mut out, decimal_i64(millis).as_str());
    push_text(&mut out, "-");
    push_decimal(&mut out, seq);
    out
}

/// A source of sequence numbers for identifiers.
pub struct IdCounter {
    /// The number that the next identifier gets.
    pub next: u64,
}

impl IdCounter {
    /// A counter that starts at zero.
    pub fn new() -> (r: Self)
        ensures
            r.next == 0,
    {
        IdCounter { next: 0 }
    }

    /// Hands out a sequence number; the counter wraps around after the largest one.
    pub fn take(&mut self) -> (r: u64)
        ensures
            r == old(self).next,
            final(self).next == (old(self).next + 1) % 0x1_0000_0000_0000_0000,
    {
        let seq: u64 = self.next;
        self.next = if seq == u64::MAX {
            0
        } else {
            seq + 1
        };
        seq
    }
}

/// A new identifier with the given prefix: the present time in milliseconds, then a sequence
/// number.
pub fn new_id(counter: &mut IdCounter, prefix: &str) -> (r: String)
    ensures
        final(counter).next == (old(counter).next + 1) % 0x1_0000_0000_0000_0000,
        exists|millis: int|
            0 <= millis < MAX_TIMESTAMP * 1000 && r@ == #[trigger] id_text(
                prefix@,
                millis,
                old(counter).next as nat,
            ),
{
    let seq: u64 = counter.take();
    let millis: i64 = now_millis();
    format_id(prefix, millis, seq)
}

/// An integer moved into the range of a signed 64-bit number.
pub open spec fn clamp_i64(n: int) -> i64 {
    if n < i64::MIN {
        i64::MIN
    } else if n > i64::MAX {
        i64::MAX
    } else {
        n as i64
    }
}

/// The time from `earlier` to `later`, within the range of the type.
pub fn saturating_gap(later: i64, earlier: i64) -> (r: i64)
    ensures
        r == clamp_i64(later - earlier),
{
    let d: i128 = later as i128 - earlier as i128;
    if d < i64::MIN as i128 {
        i64::MIN
    } else if d > i64::MAX as i128 {
        i64::MAX
    } else {
        d as i64
    }
}

/// The time `delay` after `moment`, within the range of the type.
pub fn saturating_later(moment: i64, delay: i64) -> (r: i64)
    ensures
        r == clamp_i64(moment + delay),
{
    let d: i128 = moment as i128 + delay as i128;
    if d < i64::MIN as i128 {
        i64::MIN
    } else if d > i64::MAX as i128 {
        i64::MAX
    } else {
        d as i64
    }
}

/// The time `delay` seconds after `moment`, within the range of the type.
pub fn saturating_after(moment: i64, delay: u64) -> (r: i64)
    ensures
        r == clamp_i64(moment + delay),
{
    let d: i128 = moment as i128 + delay as i128;
    if d > i64::MAX as i128 {
        i64::MAX
    } else {
        d as i64
    }
}

/// Identifiers begin with their prefix, and differ as long as their numbers do.
pub proof fn law_identifiers_differ(prefix: Seq<char>, millis: int, seq: nat, other: nat)
    ensures
        (prefix + "-"@ + decimal_int(millis)).is_prefix_of(id_text(prefix, millis, seq)),
        decimal(seq).is_suffix_of(id_text(prefix, millis, seq)),
        seq != other ==> id_text(prefix, millis, seq) != id_text(prefix, millis, other),
{
    let id = id_text(prefix, millis, seq);
    let second = id_text(prefix, millis, other);
    let head = prefix + "-"@ + decimal_int(millis);
    assert(id.take(head.len() as int) =~= head);
    assert(id.skip(id.len() - decimal(seq).len()) =~= decimal(seq));
    let front = head + "-"@;
    lemma_decimal_denotes(seq);
    lemma_decimal_denotes(other);
    assert(id.skip(front.len() as int) =~= decimal(seq));
    assert(second.skip(front.len() as int) =~= decimal(other));
}

/// A number that can be held is held as it is, and any other as the nearest one that can be.
pub proof fn law_clamping(n: int, m: int)
    ensures
        i64::MIN <= n <= i64::MAX ==> clamp_i64(n) == n,
        n > i64::MAX ==> clamp_i64(n) == i64::MAX,
        n < i64::MIN ==> clamp_i64(n) == i64::MIN,
        n <= m ==> clamp_i64(n) <= clamp_i64(m),
{
}

/// A time of day is shown as its hour and its minute.
pub proof fn law_time_of_day(time: LocalTime, sep: Seq<char>)
    ensures
        time.hour@.is_prefix_of(time.clock(sep)),
        time.minute@.is_suffix_of(time.clock(sep)),
        time.clock(sep).len() == time.hour@.len() + sep.len() + time.minute@.len(),
{
    let t = time.clock(sep);
    assert(t.take(time.hour@.len() as int) =~= time.hour@);
    assert(t.skip(t.len() - time.minute@.len()) =~= time.minute@);
}

} // verus!
