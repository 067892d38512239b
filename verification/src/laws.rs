//! Laws of the tracker, proved once and for all over the same model
//! predicates that the operations' contracts are stated with: what a
//! rollup credits, that an idle rollup is a no-op, that sessions are
//! credited independently, what the week window can and cannot see, and
//! that ensuring the schema twice is as good as once.

use vstd::prelude::*;

use crate::model::{
    attach_post, detach_ok, detach_post, has_record, has_session, in_week_window, is_live,
    lemma_record_at, lemma_session_at, live_since, record_index, record_seconds, records_unique,
    session_index, sessions_unique, week_start, week_window_sum, DailyRecord, Session,
};
use crate::session_tracker::{ensure_schema_post, SessionTracker};

verus! {

/// An attach makes its session live since `now`, and leaves every other
/// session exactly as it was: neither its existence, nor its liveness, nor
/// the start of its open attachment moves.
pub proof fn lemma_attach_makes_live(
    ss0: Seq<Session>,
    ss1: Seq<Session>,
    name: Seq<char>,
    now: u64,
)
    requires
        sessions_unique(ss0),
        attach_post(ss0, ss1, name, now),
    ensures
        sessions_unique(ss1),
        is_live(ss1, name),
        live_since(ss1, name) == now,
        forall|other: Seq<char>|
            other != name ==> #[trigger] has_session(ss1, other) == has_session(ss0, other),
        forall|other: Seq<char>|
            other != name && has_session(ss0, other) ==> #[trigger] is_live(ss1, other)
                == is_live(ss0, other),
        forall|other: Seq<char>|
            other != name && is_live(ss0, other) ==> #[trigger] live_since(ss1, other)
                == live_since(ss0, other),
{
    if has_session(ss0, name) {
        let i = session_index(ss0, name);
        lemma_session_at(ss0, i, name);
        assert(ss1[i].name@ == name && ss1[i].last_attached_time == Some(now));
        lemma_session_at(ss1, i, name);
    } else {
        let i = ss0.len() as int;
        assert(ss1[i].name@ == name && ss1[i].last_attached_time == Some(now));
        assert forall|k: int, l: int| 0 <= k < l < ss1.len() implies ss1[k].name@ != ss1[l].name@
        by {
            if l < i {
                assert(ss0[k].name@ != ss0[l].name@);
            } else {
                assert(!has_session(ss0, ss1[l].name@));
            }
        }
        lemma_session_at(ss1, i, name);
    }
    assert forall|other: Seq<char>| other != name implies #[trigger] has_session(ss1, other)
        == has_session(ss0, other) by {
        if has_session(ss0, other) {
            let k = session_index(ss0, other);
            lemma_session_at(ss0, k, other);
            assert(ss1[k].name@ == other);
        }
        if has_session(ss1, other) {
            let k = session_index(ss1, other);
            lemma_session_at(ss1, k, other);
            assert(0 <= k < ss0.len() && ss0[k].name@ == other);
        }
    }
    assert forall|other: Seq<char>| other != name && has_session(ss0, other) implies #[trigger] is_live(
        ss1,
        other,
    ) == is_live(ss0, other) by {
        let k = session_index(ss0, other);
        lemma_session_at(ss0, k, other);
        lemma_session_at(ss1, k, other);
        assert(ss1[k].last_attached_time == ss0[k].last_attached_time);
    }
    assert forall|other: Seq<char>| other != name && is_live(ss0, other) implies #[trigger] live_since(
        ss1,
        other,
    ) == live_since(ss0, other) by {
        let k = session_index(ss0, other);
        lemma_session_at(ss0, k, other);
        lemma_session_at(ss1, k, other);
        assert(ss1[k].last_attached_time == ss0[k].last_attached_time);
    }
}

/// What one rollup gives a live session: exactly its elapsed time
/// `now - live_since`, added to whatever today's record already held —
/// time is neither lost nor counted twice.
pub proof fn lemma_detach_credits_live(
    ss: Seq<Session>,
    rs: Seq<DailyRecord>,
    ss1: Seq<Session>,
    rs1: Seq<DailyRecord>,
    name: Seq<char>,
    now: u64,
    today: u64,
)
    requires
        sessions_unique(ss),
        records_unique(rs),
        is_live(ss, name),
        detach_ok(ss, rs, now, today),
        detach_post(ss, rs, ss1, rs1, now, today),
    ensures
        record_seconds(rs1, name, today) == record_seconds(rs, name, today) + (now - live_since(
            ss,
            name,
        )),
{
    let i = session_index(ss, name);
    assert(0 <= i < ss.len() && ss[i].name@ == name && ss[i].last_attached_time is Some);
    if has_record(rs, name, today) {
        let j = record_index(rs, name, today);
        lemma_record_at(rs, j, name, today);
        assert(rs1[j].time_attached == rs[j].time_attached + (now - live_since(ss, name)));
        lemma_record_at(rs1, j, name, today);
    } else {
        assert(has_record(rs1, name, today));
        let j = record_index(rs1, name, today);
        lemma_record_at(rs1, j, name, today);
        if j < rs.len() {
            assert(rs[j].session_name@ == name && rs[j].day == today);
            assert(false);
        }
        assert(rs1[j].time_attached == now - live_since(ss, name));
    }
}

/// A day total never shrinks: whatever a rollup does, every record of
/// every session and every day holds at least what it held before.
pub proof fn lemma_rollup_never_shrinks_a_day_total(
    ss: Seq<Session>,
    rs: Seq<DailyRecord>,
    ss1: Seq<Session>,
    rs1: Seq<DailyRecord>,
    now: u64,
    today: u64,
)
    requires
        sessions_unique(ss),
        records_unique(rs),
        detach_ok(ss, rs, now, today),
        detach_post(ss, rs, ss1, rs1, now, today),
    ensures
        forall|name: Seq<char>, day: u64|
            #[trigger] record_seconds(rs1, name, day) >= record_seconds(rs, name, day),
{
    assert forall|name: Seq<char>, day: u64| #[trigger] record_seconds(rs1, name, day)
        >= record_seconds(rs, name, day) by {
        if has_record(rs, name, day) {
            let j = record_index(rs, name, day);
            lemma_record_at(rs, j, name, day);
            lemma_record_at(rs1, j, name, day);
            if day == today && is_live(ss, name) {
                let i = session_index(ss, name);
                assert(0 <= i < ss.len() && ss[i].last_attached_time is Some);
                assert(ss[i].last_attached_time->0 <= now);
            }
        }
    }
}

/// A rollup with no live session changes nothing: every session row and
/// every day record is exactly as before, and the rollup was owed success.
pub proof fn lemma_detach_no_live_is_noop(
    ss0: Seq<Session>,
    rs0: Seq<DailyRecord>,
    ss1: Seq<Session>,
    rs1: Seq<DailyRecord>,
    now: u64,
    today: u64,
)
    requires
        forall|i: int| 0 <= i < ss0.len() ==> (#[trigger] ss0[i]).last_attached_time is None,
        detach_post(ss0, rs0, ss1, rs1, now, today),
    ensures
        detach_ok(ss0, rs0, now, today),
        ss1.len() == ss0.len(),
        forall|i: int|
            0 <= i < ss0.len() ==> (#[trigger] ss1[i]).name@ == ss0[i].name@
                && ss1[i].last_attached_time == ss0[i].last_attached_time,
        rs1.len() == rs0.len(),
        forall|j: int|
            0 <= j < rs0.len() ==> (#[trigger] rs1[j]).session_name@ == rs0[j].session_name@
                && rs1[j].day == rs0[j].day && rs1[j].time_attached == rs0[j].time_attached,
{
    assert forall|nm: Seq<char>| !(#[trigger] is_live(ss0, nm)) by {
        if is_live(ss0, nm) {
            let i = session_index(ss0, nm);
            assert(0 <= i < ss0.len());
        }
    }
    if rs1.len() > rs0.len() {
        assert(is_live(ss0, rs1[rs0.len() as int].session_name@));
        assert(false);
    }
}

/// Two different sessions attached before one rollup are each credited
/// their own elapsed time, and both end at rest in the same step.
pub proof fn lemma_two_attaches_one_detach(
    ss0: Seq<Session>,
    rs0: Seq<DailyRecord>,
    ss1: Seq<Session>,
    ss2: Seq<Session>,
    ss3: Seq<Session>,
    rs3: Seq<DailyRecord>,
    name_a: Seq<char>,
    name_b: Seq<char>,
    ta: u64,
    tb: u64,
    now: u64,
    today: u64,
)
    requires
        sessions_unique(ss0),
        records_unique(rs0),
        name_a != name_b,
        attach_post(ss0, ss1, name_a, ta),
        attach_post(ss1, ss2, name_b, tb),
        detach_ok(ss2, rs0, now, today),
        detach_post(ss2, rs0, ss3, rs3, now, today),
    ensures
        record_seconds(rs3, name_a, today) == record_seconds(rs0, name_a, today) + (now - ta),
        record_seconds(rs3, name_b, today) == record_seconds(rs0, name_b, today) + (now - tb),
        forall|i: int| 0 <= i < ss3.len() ==> (#[trigger] ss3[i]).last_attached_time is None,
{
    lemma_attach_makes_live(ss0, ss1, name_a, ta);
    lemma_attach_makes_live(ss1, ss2, name_b, tb);
    assert(is_live(ss2, name_a) && live_since(ss2, name_a) == ta);
    lemma_detach_credits_live(ss2, rs0, ss3, rs3, name_a, now, today);
    lemma_detach_credits_live(ss2, rs0, ss3, rs3, name_b, now, today);
}

/// An attach followed by a rollup raises the session's total for today by
/// exactly the wall-clock span between the two calls.
pub proof fn lemma_attach_then_detach_credits(
    ss0: Seq<Session>,
    rs0: Seq<DailyRecord>,
    ss1: Seq<Session>,
    ss2: Seq<Session>,
    rs2: Seq<DailyRecord>,
    name: Seq<char>,
    t_attach: u64,
    now: u64,
    today: u64,
)
    requires
        sessions_unique(ss0),
        records_unique(rs0),
        attach_post(ss0, ss1, name, t_attach),
        detach_ok(ss1, rs0, now, today),
        detach_post(ss1, rs0, ss2, rs2, now, today),
    ensures
        t_attach <= now,
        record_seconds(rs2, name, today) == record_seconds(rs0, name, today) + (now - t_attach),
{
    lemma_attach_makes_live(ss0, ss1, name, t_attach);
    let i = session_index(ss1, name);
    assert(ss1[i].last_attached_time == Some(t_attach));
    lemma_detach_credits_live(ss1, rs0, ss2, rs2, name, now, today);
}

/// The trailing week window never spans more than seven days: whatever day
/// it is anchored to, only that day and the six before it can fall inside.
pub proof fn lemma_week_window_spans_at_most_seven_days(day: u64, today: u64)
    requires
        in_week_window(day, today),
    ensures
        today - 6 <= day <= today,
{
    assert(week_start(today) >= today - 6);
}

/// A record of a day outside the trailing week window — in particular any
/// eighth or older day in the past — contributes nothing to the window
/// total, and neither does any record of another session.
pub proof fn lemma_outside_window_contributes_nothing(
    rs: Seq<DailyRecord>,
    rec: DailyRecord,
    name: Seq<char>,
    today: u64,
)
    requires
        rec.session_name@ != name || !in_week_window(rec.day, today),
    ensures
        week_window_sum(rs.push(rec), name, today) == week_window_sum(rs, name, today),
{
    assert(rs.push(rec).drop_last() =~= rs);
    assert(rs.push(rec).last() == rec);
}

/// Ensuring the schema twice is as good as once: the second run finds the
/// store ready, keeps it ready, and loses not a single row.
pub proof fn lemma_ensure_schema_idempotent(
    s0: SessionTracker,
    s1: SessionTracker,
    s2: SessionTracker,
)
    requires
        ensure_schema_post(s0, s1),
        ensure_schema_post(s1, s2),
    ensures
        s1.schema_ready,
        s2.sessions@ == s0.sessions@,
        s2.records@ == s0.records@,
        s2.schema_ready == s1.schema_ready,
        s2.sessions@ == s1.sessions@,
        s2.records@ == s1.records@,
{
}

} // verus!
