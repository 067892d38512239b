//! Data model of the tracker's durable state, and the specification
//! vocabulary used by every contract in the crate.
//!
//! The durable store holds two relations:
//! - one row per known session (`Session`): its name and, when the session
//!   is currently attached, the timestamp of that attachment;
//! - one row per session per day that had attached time (`DailyRecord`).
//!
//! Timestamps are seconds since the Unix epoch; days are day numbers
//! (days since the Unix epoch, in UTC).  Both relations are keyed:
//! session names are unique, and so are `(session, day)` pairs.

use vstd::prelude::*;

verus! {

/// One row of the session relation: a session name together with the
/// timestamp of the attachment that is currently open, if any.
/// `last_attached_time` is `Some(t)` exactly while the session is live.
pub struct Session {
    pub name: String,
    pub last_attached_time: Option<u64>,
}

/// One row of the per-day relation: seconds accumulated by `session_name`
/// on day `day` (a day number: days since the Unix epoch).
pub struct DailyRecord {
    pub session_name: String,
    pub day: u64,
    pub time_attached: u64,
}

/// Session names are pairwise distinct (the relation is keyed by name).
pub open spec fn sessions_unique(ss: Seq<Session>) -> bool {
    forall|i: int, j: int| 0 <= i < j < ss.len() ==> ss[i].name@ != ss[j].name@
}

/// Some row carries this session name.
pub open spec fn has_session(ss: Seq<Session>, name: Seq<char>) -> bool {
    exists|i: int| 0 <= i < ss.len() && ss[i].name@ == name
}

/// The index of the row carrying `name`; meaningful when `has_session`
/// holds and the names are unique.
pub open spec fn session_index(ss: Seq<Session>, name: Seq<char>) -> int {
    choose|i: int| 0 <= i < ss.len() && ss[i].name@ == name
}

/// The session exists and is currently attached.
pub open spec fn is_live(ss: Seq<Session>, name: Seq<char>) -> bool {
    has_session(ss, name) && ss[session_index(ss, name)].last_attached_time is Some
}

/// The timestamp of the open attachment of a live session.
pub open spec fn live_since(ss: Seq<Session>, name: Seq<char>) -> u64 {
    ss[session_index(ss, name)].last_attached_time->0
}

/// `(session, day)` pairs are pairwise distinct.
pub open spec fn records_unique(rs: Seq<DailyRecord>) -> bool {
    forall|i: int, j: int|
        0 <= i < j < rs.len()
            ==> !(rs[i].session_name@ == rs[j].session_name@ && rs[i].day == rs[j].day)
}

/// Some row carries the key `(name, day)`.
pub open spec fn has_record(rs: Seq<DailyRecord>, name: Seq<char>, day: u64) -> bool {
    exists|j: int| 0 <= j < rs.len() && rs[j].session_name@ == name && rs[j].day == day
}

/// The index of the row keyed `(name, day)`; meaningful when `has_record`
/// holds and the keys are unique.
pub open spec fn record_index(rs: Seq<DailyRecord>, name: Seq<char>, day: u64) -> int {
    choose|j: int| 0 <= j < rs.len() && rs[j].session_name@ == name && rs[j].day == day
}

/// Seconds stored for `(name, day)`; a missing row counts as zero.
pub open spec fn record_seconds(rs: Seq<DailyRecord>, name: Seq<char>, day: u64) -> u64 {
    if has_record(rs, name, day) {
        rs[record_index(rs, name, day)].time_attached
    } else {
        0
    }
}

/// In a keyed session relation, a row carrying `name` is the row that the
/// lookup functions speak about.
pub proof fn lemma_session_at(ss: Seq<Session>, i: int, name: Seq<char>)
    requires
        sessions_unique(ss),
        0 <= i < ss.len(),
        ss[i].name@ == name,
    ensures
        has_session(ss, name),
        session_index(ss, name) == i,
{
    assert(has_session(ss, name));
    let i2 = session_index(ss, name);
    if i2 < i {
        assert(ss[i2].name@ != ss[i].name@);
    } else if i < i2 {
        assert(ss[i].name@ != ss[i2].name@);
    }
}

/// In a keyed record relation, a row carrying `(name, day)` is the row that
/// the lookup functions speak about.
pub proof fn lemma_record_at(rs: Seq<DailyRecord>, j: int, name: Seq<char>, day: u64)
    requires
        records_unique(rs),
        0 <= j < rs.len(),
        rs[j].session_name@ == name,
        rs[j].day == day,
    ensures
        has_record(rs, name, day),
        record_index(rs, name, day) == j,
        record_seconds(rs, name, day) == rs[j].time_attached,
{
    assert(has_record(rs, name, day));
    let j2 = record_index(rs, name, day);
    if j2 < j {
        assert(!(rs[j2].session_name@ == rs[j].session_name@ && rs[j2].day == rs[j].day));
    } else if j < j2 {
        assert(!(rs[j].session_name@ == rs[j2].session_name@ && rs[j].day == rs[j2].day));
    }
}

/// How an attach changes the session relation: the session named `name` is
/// created if absent, its open-attachment timestamp becomes `now`, and every
/// other row is untouched.  Re-attaching a live session only resets its
/// timestamp; the interval that was open is discarded, never credited.
pub open spec fn attach_post(
    old_ss: Seq<Session>,
    new_ss: Seq<Session>,
    name: Seq<char>,
    now: u64,
) -> bool {
    if has_session(old_ss, name) {
        &&& new_ss.len() == old_ss.len()
        &&& forall|i: int|
            0 <= i < old_ss.len() ==> (#[trigger] new_ss[i]).name@ == old_ss[i].name@
        &&& forall|i: int|
            0 <= i < old_ss.len() && old_ss[i].name@ != name
                ==> (#[trigger] new_ss[i]).last_attached_time == old_ss[i].last_attached_time
        &&& forall|i: int|
            0 <= i < old_ss.len() && old_ss[i].name@ == name
                ==> (#[trigger] new_ss[i]).last_attached_time == Some(now)
    } else {
        &&& new_ss.len() == old_ss.len() + 1
        &&& forall|i: int|
            0 <= i < old_ss.len()
                ==> (#[trigger] new_ss[i]).name@ == old_ss[i].name@
                    && new_ss[i].last_attached_time == old_ss[i].last_attached_time
        &&& new_ss.last().name@ == name
        &&& new_ss.last().last_attached_time == Some(now)
    }
}

/// A rollup at wall-clock time `now` into day `today` can succeed: no live
/// session was attached in the future of `now` (a clock that went backward),
/// and no day total would outgrow its counter.
pub open spec fn detach_ok(
    ss: Seq<Session>,
    rs: Seq<DailyRecord>,
    now: u64,
    today: u64,
) -> bool {
    forall|i: int|
        0 <= i < ss.len() && (#[trigger] ss[i]).last_attached_time is Some ==> {
            &&& ss[i].last_attached_time->0 <= now
            &&& record_seconds(rs, ss[i].name@, today) + (now - ss[i].last_attached_time->0)
                <= u64::MAX
        }
}

/// How a successful rollup changes the two relations.
///
/// Sessions: every row keeps its name and ends at rest.  Records: rows of
/// other days are untouched; today's row of each live session grows by
/// exactly the session's elapsed time `now - live_since`, created with that
/// amount if it did not exist; rows of sessions that were at rest are
/// untouched; nothing else is created.
pub open spec fn detach_post(
    old_ss: Seq<Session>,
    old_rs: Seq<DailyRecord>,
    new_ss: Seq<Session>,
    new_rs: Seq<DailyRecord>,
    now: u64,
    today: u64,
) -> bool {
    &&& new_ss.len() == old_ss.len()
    &&& forall|i: int|
        0 <= i < old_ss.len()
            ==> (#[trigger] new_ss[i]).name@ == old_ss[i].name@
                && new_ss[i].last_attached_time is None
    &&& old_rs.len() <= new_rs.len()
    &&& forall|j: int|
        0 <= j < old_rs.len()
            ==> (#[trigger] new_rs[j]).session_name@ == old_rs[j].session_name@
                && new_rs[j].day == old_rs[j].day
    &&& forall|j: int|
        0 <= j < old_rs.len() && !(old_rs[j].day == today && is_live(old_ss, old_rs[j].session_name@))
            ==> (#[trigger] new_rs[j]).time_attached == old_rs[j].time_attached
    &&& forall|j: int|
        0 <= j < old_rs.len() && old_rs[j].day == today && is_live(old_ss, old_rs[j].session_name@)
            ==> (#[trigger] new_rs[j]).time_attached
                == old_rs[j].time_attached + (now - live_since(old_ss, old_rs[j].session_name@))
    &&& forall|j: int|
        old_rs.len() <= j < new_rs.len() ==> {
            &&& is_live(old_ss, (#[trigger] new_rs[j]).session_name@)
            &&& !has_record(old_rs, new_rs[j].session_name@, today)
            &&& new_rs[j].day == today
            &&& new_rs[j].time_attached == now - live_since(old_ss, new_rs[j].session_name@)
        }
    &&& forall|i: int|
        0 <= i < old_ss.len() && (#[trigger] old_ss[i]).last_attached_time is Some
            ==> has_record(new_rs, old_ss[i].name@, today)
    &&& records_unique(new_rs)
}

/// First day of the trailing week window that ends on `today`: the most
/// recent Sunday at or before `today`.  Day 0 of the day-number scale
/// (1970-01-01) was a Thursday, so `(d + 4) % 7` is the Sunday-based
/// weekday of day `d`.  The result is an `int`: for the first days of the
/// scale the window notionally starts before day 0.
pub open spec fn week_start(today: u64) -> int {
    today - ((today + 4) % 7)
}

/// `day` lies in the trailing week window of `today`.
pub open spec fn in_week_window(day: u64, today: u64) -> bool {
    week_start(today) <= day <= today
}

/// Total seconds recorded for `name` on the days of the trailing week
/// window of `today`.
pub open spec fn week_window_sum(rs: Seq<DailyRecord>, name: Seq<char>, today: u64) -> int
    decreases rs.len(),
{
    if rs.len() == 0 {
        0
    } else {
        week_window_sum(rs.drop_last(), name, today) + if rs.last().session_name@ == name
            && in_week_window(rs.last().day, today) {
            rs.last().time_attached as int
        } else {
            0
        }
    }
}

/// A prefix of the record relation never sums to more than the whole of it.
pub proof fn lemma_week_window_sum_take_le(
    rs: Seq<DailyRecord>,
    name: Seq<char>,
    today: u64,
    j: int,
)
    requires
        0 <= j <= rs.len(),
    ensures
        week_window_sum(rs.take(j), name, today) <= week_window_sum(rs, name, today),
    decreases rs.len(),
{
    if j == rs.len() {
        assert(rs.take(j) =~= rs);
    } else {
        assert(rs.drop_last().take(j) =~= rs.take(j));
        lemma_week_window_sum_take_le(rs.drop_last(), name, today, j);
    }
}

} // verus!
