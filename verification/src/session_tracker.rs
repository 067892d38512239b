//! The tracker itself: an in-memory image of the durable store together
//! with the verified operations on it.
//!
//! The surrounding application owns the actual database: it loads the rows
//! into a `SessionTracker`, calls one operation, and writes the result back
//! inside one transaction.  Wall-clock time and the current day number are
//! passed in by the caller, so every function here is deterministic and
//! fully specified.

use vstd::prelude::*;

use crate::model::{
    attach_post, detach_ok, detach_post, has_record, has_session, is_live, live_since,
    record_index, record_seconds, records_unique, session_index, sessions_unique,
    week_window_sum, DailyRecord, Session,
};

verus! {

/// Why a tracker operation refused to change anything.
#[derive(Clone, Copy, Debug, PartialEq, Eq, Structural)]
pub enum TrackerError {
    /// A live session's attachment timestamp lies in the future of the
    /// wall-clock time handed to the rollup: the clock went backward.
    /// Crediting would mean a negative duration, so nothing is changed.
    ClockSkew,
    /// A day total would outgrow its 64-bit counter.
    Overflow,
}

/// In-memory image of the tracker's durable store: the session relation,
/// the per-day relation, and whether the schema of the store has been
/// ensured this run.
pub struct SessionTracker {
    pub schema_ready: bool,
    pub sessions: Vec<Session>,
    pub records: Vec<DailyRecord>,
}

/// What `ensure_schema` does: the store becomes ready and no row of either
/// relation is created, dropped or changed.
pub open spec fn ensure_schema_post(pre: SessionTracker, post: SessionTracker) -> bool {
    &&& post.schema_ready
    &&& post.sessions@ == pre.sessions@
    &&& post.records@ == pre.records@
}

impl SessionTracker {
    /// Both relations are properly keyed: session names are unique, and so
    /// are `(session, day)` pairs.
    pub open spec fn wf(self) -> bool {
        &&& sessions_unique(self.sessions@)
        &&& records_unique(self.records@)
    }

    /// A fresh store image: no sessions, no records, schema not yet ensured.
    pub fn new() -> (t: SessionTracker)
        ensures
            t.wf(),
            !t.schema_ready,
            t.sessions@.len() == 0,
            t.records@.len() == 0,
    {
        SessionTracker { schema_ready: false, sessions: Vec::new(), records: Vec::new() }
    }

    /// Makes the store ready for use.  Safe to run on every startup: on an
    /// already-ready store it changes nothing at all.
    pub fn ensure_schema(&mut self)
        ensures
            ensure_schema_post(*old(self), *final(self)),
            old(self).schema_ready ==> *final(self) == *old(self),
            final(self).wf() == old(self).wf(),
    {
        self.schema_ready = true;
    }

    /// Marks `session_name` as attached since `now`, creating the session
    /// row on first attach.  A session that was already live only gets its
    /// timestamp refreshed: the interval that was open is discarded, not
    /// credited (re-attach semantics).  Nothing else changes; in
    /// particular, no day total moves until the next rollup.
    pub fn attach_to_session(&mut self, session_name: &str, now: u64)
        requires
            old(self).wf(),
            old(self).schema_ready,
        ensures
            final(self).wf(),
            final(self).schema_ready,
            attach_post(old(self).sessions@, final(self).sessions@, session_name@, now),
            final(self).records@ == old(self).records@,
    {
        let key = String::from_str(session_name);
        match find_session(&self.sessions, &key) {
            Some(i) => {
                proof {
                    crate::model::lemma_session_at(self.sessions@, i as int, key@);
                }
                self.sessions[i].last_attached_time = Some(now);
                assert forall|k: int|
                    0 <= k < old(self).sessions@.len() && old(self).sessions@[k].name@
                        == session_name@ implies (#[trigger] self.sessions@[k]).last_attached_time
                    == Some(now) by {
                    crate::model::lemma_session_at(old(self).sessions@, k, key@);
                }
            },
            None => {
                self.sessions.push(Session { name: key, last_attached_time: Some(now) });
            },
        }
    }

    /// Rolls the open attachment of every live session into that session's
    /// record for day `today`, then puts every session at rest — the whole
    /// step happens entirely or not at all.  With no live session it is a
    /// no-op that succeeds.  The elapsed time of a live session is
    /// `now - live_since`; if a clock gone backward made that negative, or
    /// a day total would outgrow its counter, the rollup refuses and the
    /// store image is exactly as before, so no partial rollup is ever
    /// visible and no session is cleared without its credit.
    #[verifier::loop_isolation(false)]
    pub fn detach_from_all_sessions(&mut self, now: u64, today: u64) -> (r: Result<
        (),
        TrackerError,
    >)
        requires
            old(self).wf(),
            old(self).schema_ready,
        ensures
            final(self).wf(),
            final(self).schema_ready,
            r is Ok <==> detach_ok(old(self).sessions@, old(self).records@, now, today),
            r is Ok ==> detach_post(
                old(self).sessions@,
                old(self).records@,
                final(self).sessions@,
                final(self).records@,
                now,
                today,
            ),
            r is Err ==> *final(self) == *old(self),
            r == Result::<(), TrackerError>::Err(TrackerError::ClockSkew) <==> exists|i: int|
                0 <= i < old(self).sessions@.len()
                    && (#[trigger] old(self).sessions@[i]).last_attached_time is Some
                    && old(self).sessions@[i].last_attached_time->0 > now,
            r == Result::<(), TrackerError>::Err(TrackerError::Overflow) <==> ((forall|i: int|
                0 <= i < old(self).sessions@.len()
                    && (#[trigger] old(self).sessions@[i]).last_attached_time is Some
                    ==> old(self).sessions@[i].last_attached_time->0 <= now) && exists|i: int|
                0 <= i < old(self).sessions@.len()
                    && (#[trigger] old(self).sessions@[i]).last_attached_time is Some
                    && record_seconds(old(self).records@, old(self).sessions@[i].name@, today) + (
                    now - old(self).sessions@[i].last_attached_time->0) > u64::MAX),
    {
        let ghost ss0 = self.sessions@;
        let ghost rs0 = self.records@;

        // Validation passes: nothing is changed until every live session is
        // known to roll up cleanly, which makes the step all-or-nothing.
        // A clock gone backward is reported ahead of any overflow, so the
        // error depends on the store image alone, not on row order.
        let mut i: usize = 0;
        while i < self.sessions.len()
            invariant
                i <= ss0.len(),
                forall|k: int|
                    0 <= k < i && (#[trigger] ss0[k]).last_attached_time is Some
                        ==> ss0[k].last_attached_time->0 <= now,
            decreases ss0.len() - i,
        {
            match self.sessions[i].last_attached_time {
                Some(t) => {
                    if t > now {
                        return Err(TrackerError::ClockSkew);
                    }
                },
                None => {},
            }
            i += 1;
        }

        let mut i: usize = 0;
        while i < self.sessions.len()
            invariant
                i <= ss0.len(),
                forall|k: int|
                    0 <= k < ss0.len() && (#[trigger] ss0[k]).last_attached_time is Some
                        ==> ss0[k].last_attached_time->0 <= now,
                forall|k: int|
                    0 <= k < i && (#[trigger] ss0[k]).last_attached_time is Some
                        ==> record_seconds(rs0, ss0[k].name@, today) + (now
                            - ss0[k].last_attached_time->0) <= u64::MAX,
            decreases ss0.len() - i,
        {
            match self.sessions[i].last_attached_time {
                Some(t) => {
                    let elapsed = now - t;
                    let name = self.sessions[i].name.clone();
                    let cur = match find_record(&self.records, &name, today) {
                        Some(j) => {
                            proof {
                                crate::model::lemma_record_at(rs0, j as int, name@, today);
                            }
                            self.records[j].time_attached
                        },
                        None => 0,
                    };
                    if cur > u64::MAX - elapsed {
                        return Err(TrackerError::Overflow);
                    }
                },
                None => {},
            }
            i += 1;
        }
        assert(detach_ok(ss0, rs0, now, today));

        // Rollup pass: credit each live session's elapsed time to today's
        // record and put the session at rest.
        let mut i: usize = 0;
        while i < self.sessions.len()
            invariant
                i <= ss0.len(),
                self.schema_ready,
                self.sessions@.len() == ss0.len(),
                forall|k: int|
                    0 <= k < ss0.len() ==> (#[trigger] self.sessions@[k]).name@ == ss0[k].name@,
                forall|k: int|
                    0 <= k < i ==> (#[trigger] self.sessions@[k]).last_attached_time is None,
                forall|k: int|
                    i <= k < ss0.len() ==> (#[trigger] self.sessions@[k]).last_attached_time
                        == ss0[k].last_attached_time,
                rs0.len() <= self.records@.len(),
                records_unique(self.records@),
                forall|j: int|
                    0 <= j < rs0.len() ==> (#[trigger] self.records@[j]).session_name@
                        == rs0[j].session_name@ && self.records@[j].day == rs0[j].day,
                forall|j: int|
                    0 <= j < rs0.len() && !(rs0[j].day == today && is_live(ss0, rs0[j].session_name@)
                        && session_index(ss0, rs0[j].session_name@) < i)
                        ==> (#[trigger] self.records@[j]).time_attached == rs0[j].time_attached,
                forall|j: int|
                    0 <= j < rs0.len() && rs0[j].day == today && is_live(ss0, rs0[j].session_name@)
                        && session_index(ss0, rs0[j].session_name@) < i
                        ==> (#[trigger] self.records@[j]).time_attached == rs0[j].time_attached + (
                        now - live_since(ss0, rs0[j].session_name@)),
                forall|j: int|
                    rs0.len() <= j < self.records@.len() ==> {
                        &&& is_live(ss0, (#[trigger] self.records@[j]).session_name@)
                        &&& session_index(ss0, self.records@[j].session_name@) < i
                        &&& !has_record(rs0, self.records@[j].session_name@, today)
                        &&& self.records@[j].day == today
                        &&& self.records@[j].time_attached == now - live_since(
                            ss0,
                            self.records@[j].session_name@,
                        )
                    },
                forall|k: int|
                    0 <= k < i && (#[trigger] ss0[k]).last_attached_time is Some ==> has_record(
                        self.records@,
                        ss0[k].name@,
                        today,
                    ),
            decreases ss0.len() - i,
        {
            let ghost rs_pre = self.records@;
            match self.sessions[i].last_attached_time {
                Some(t) => {
                    proof {
                        crate::model::lemma_session_at(ss0, i as int, ss0[i as int].name@);
                        assert(ss0[i as int].last_attached_time == Some(t));
                    }
                    let elapsed = now - t;
                    let name = self.sessions[i].name.clone();
                    match find_record(&self.records, &name, today) {
                        Some(j) => {
                            proof {
                                assert((j as int) < rs0.len());
                                crate::model::lemma_record_at(rs0, j as int, name@, today);
                            }
                            let cur = self.records[j].time_attached;
                            self.records[j].time_attached = cur + elapsed;
                            proof {
                                assert(self.records@[j as int].session_name@ == name@
                                    && self.records@[j as int].day == today);
                            }
                        },
                        None => {
                            proof {
                                if has_record(rs0, name@, today) {
                                    let j0 = record_index(rs0, name@, today);
                                    assert(self.records@[j0].session_name@ == name@
                                        && self.records@[j0].day == today);
                                }
                            }
                            self.records.push(
                                DailyRecord { session_name: name, day: today, time_attached: elapsed },
                            );
                            proof {
                                assert(self.records@[rs_pre.len() as int].session_name@ == name@
                                    && self.records@[rs_pre.len() as int].day == today);
                            }
                        },
                    }
                    proof {
                        assert(has_record(self.records@, ss0[i as int].name@, today));
                        assert forall|k: int|
                            0 <= k < i && (#[trigger] ss0[k]).last_attached_time is Some
                                implies has_record(self.records@, ss0[k].name@, today) by {
                            let j0 = record_index(rs_pre, ss0[k].name@, today);
                            assert(0 <= j0 < rs_pre.len() && rs_pre[j0].session_name@
                                == ss0[k].name@ && rs_pre[j0].day == today);
                            assert(self.records@[j0].session_name@ == ss0[k].name@
                                && self.records@[j0].day == today);
                        }
                    }
                    self.sessions[i].last_attached_time = None;
                },
                None => {
                    self.sessions[i].last_attached_time = None;
                },
            }
            i += 1;
        }
        Ok(())
    }

    /// Seconds credited to `session_name` on day `today` by past rollups.
    /// A session or day with no row counts as zero, never as an error.
    /// Time of a still-open attachment is not included: it is realized
    /// only by the next rollup.
    pub fn get_today_session_time_in_seconds(&self, session_name: &str, today: u64) -> (r: u64)
        requires
            self.wf(),
            self.schema_ready,
        ensures
            r == record_seconds(self.records@, session_name@, today),
    {
        let key = String::from_str(session_name);
        match find_record(&self.records, &key, today) {
            Some(j) => {
                proof {
                    crate::model::lemma_record_at(self.records@, j as int, key@, today);
                }
                self.records[j].time_attached
            },
            None => 0,
        }
    }

    /// Whole hours credited to `session_name` on day `today`: the day's
    /// seconds divided by 3600, truncated (3599 seconds count as 0 hours).
    pub fn get_daily_session_time_in_hours(&self, session_name: &str, today: u64) -> (r: u64)
        requires
            self.wf(),
            self.schema_ready,
        ensures
            r == record_seconds(self.records@, session_name@, today) / 3600,
    {
        self.get_today_session_time_in_seconds(session_name, today) / 3600
    }

    /// Whole hours credited to `session_name` over the trailing week
    /// window of `today`: all of the session's day totals whose day lies
    /// between the most recent Sunday and `today` (both inclusive) are
    /// summed in seconds, and the sum is divided by 3600, truncated.
    /// Refuses only when that sum outgrows a 64-bit counter.
    #[verifier::loop_isolation(false)]
    pub fn get_weekly_session_time_in_hours(&self, session_name: &str, today: u64) -> (r: Result<
        u64,
        TrackerError,
    >)
        requires
            self.wf(),
            self.schema_ready,
        ensures
            match r {
                Ok(h) => week_window_sum(self.records@, session_name@, today) <= u64::MAX && h
                    == week_window_sum(self.records@, session_name@, today) / 3600,
                Err(e) => e == TrackerError::Overflow && week_window_sum(
                    self.records@,
                    session_name@,
                    today,
                ) > u64::MAX,
            },
    {
        let key = String::from_str(session_name);
        let w: u64 = today % 7 + 4;
        let w: u64 = if w >= 7 {
            w - 7
        } else {
            w
        };
        proof {
            vstd::arithmetic::div_mod::lemma_add_mod_noop(today as int, 4, 7);
            assert(w == (today + 4) % 7);
        }
        let mut acc: u64 = 0;
        let mut j: usize = 0;
        while j < self.records.len()
            invariant
                j <= self.records@.len(),
                acc == week_window_sum(self.records@.take(j as int), key@, today),
            decreases self.records@.len() - j,
        {
            let ghost prefix = self.records@.take(j as int);
            let day = self.records[j].day;
            let in_window = day <= today && (today < w || day >= today - w);
            proof {
                assert(in_window == crate::model::in_week_window(day, today));
                assert(self.records@.take(j as int + 1).drop_last() =~= prefix);
                assert(self.records@.take(j as int + 1).last() == self.records@[j as int]);
            }
            if in_window && self.records[j].session_name == key {
                let amt = self.records[j].time_attached;
                if acc > u64::MAX - amt {
                    proof {
                        crate::model::lemma_week_window_sum_take_le(
                            self.records@,
                            key@,
                            today,
                            j as int + 1,
                        );
                    }
                    return Err(TrackerError::Overflow);
                }
                acc = acc + amt;
            }
            j += 1;
        }
        proof {
            assert(self.records@.take(self.records@.len() as int) =~= self.records@);
        }
        Ok(acc / 3600)
    }
}

/// Index of the first session row named `name`, if there is one.
fn find_session(sessions: &Vec<Session>, name: &String) -> (r: Option<usize>)
    ensures
        match r {
            Some(i) => i < sessions@.len() && sessions@[i as int].name@ == name@,
            None => !has_session(sessions@, name@),
        },
{
    let mut i: usize = 0;
    while i < sessions.len()
        invariant
            i <= sessions@.len(),
            forall|k: int| 0 <= k < i ==> (#[trigger] sessions@[k]).name@ != name@,
        decreases sessions@.len() - i,
    {
        if sessions[i].name == *name {
            return Some(i);
        }
        i += 1;
    }
    None
}

/// Index of the first record row keyed `(name, day)`, if there is one.
fn find_record(records: &Vec<DailyRecord>, name: &String, day: u64) -> (r: Option<usize>)
    ensures
        match r {
            Some(j) => j < records@.len() && records@[j as int].session_name@ == name@
                && records@[j as int].day == day,
            None => !has_record(records@, name@, day),
        },
{
    let mut j: usize = 0;
    while j < records.len()
        invariant
            j <= records@.len(),
            forall|k: int|
                0 <= k < j
                    ==> !((#[trigger] records@[k]).session_name@ == name@
                        && records@[k].day == day),
        decreases records@.len() - j,
    {
        if records[j].session_name == *name && records[j].day == day {
            return Some(j);
        }
        j += 1;
    }
    None
}

} // verus!
