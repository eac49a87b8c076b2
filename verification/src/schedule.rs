//! The cron scheduler: parsing, next-fire computation, and the cancellable
//! waiting loop, advanced one decision at a time.
//!
//! The cron grammar and calendar arithmetic stay in the `cron` crate behind
//! trusted wrappers; the loop around them — signed delay arithmetic, chunked
//! sleeping so cancellation latency stays bounded, and the fire guards — is
//! verified. The caller owns the actual sleeping and the cancellation flag
//! and feeds both into [`ScheduleLoop::step`].

use vstd::prelude::*;

use crate::engine::{spec_stop_schedule, CommandEngine, EngineModel};

verus! {

/// The longest a single sleep may last, bounding how long a cancellation
/// request can go unobserved.
pub const MAX_SLEEP_CHUNK_MS: u64 = 250;

/// The newest instant, in epoch milliseconds, from which a next fire may be
/// searched: one second short of the newest time chrono can represent
/// (23:59:59.999999999 of year 262142), because the search begins at the
/// instant one second after the given time and adding that second to a
/// later instant panics inside the cron crate. The loop treats a later
/// "now" like an exhausted schedule.
pub const MAX_SCHEDULE_NOW_MS: i64 = 8_210_266_876_798_999;

#[verifier::external_type_specification]
#[verifier::external_body]
pub struct ExSchedule(cron::Schedule);

/// Whether `cron::Schedule::from_str` accepts an expression: a function of
/// the text alone.
pub uninterp spec fn cron_parses(s: Seq<char>) -> bool;

/// Relies on `cron::Schedule::from_str`: parses a six-field cron expression;
/// `cron_parses` names whether it succeeds. The error text is the parser's
/// own message.
#[verifier::external_body]
pub(crate) fn parse_cron(expr: &str) -> (r: Result<cron::Schedule, String>)
    ensures
        r is Ok <==> cron_parses(expr@),
{
    match <cron::Schedule as std::str::FromStr>::from_str(expr) {
        Ok(s) => Ok(s),
        Err(e) => Err(format!("{e}")),
    }
}

/// Relies on cron's `Schedule::after` iterator and chrono's timestamp
/// conversions: the first scheduled time after the given instant, read in
/// the machine's local timezone, as epoch milliseconds; `None` when the
/// schedule is exhausted or the instant is unrepresentable. The value
/// depends on the machine's timezone, so nothing is assumed of it; callers
/// treat a time already in the past as due immediately. The bound on
/// `now_ms` keeps out the one second on which cron's search start,
/// `now + 1s`, overflows chrono's range and panics.
#[verifier::external_body]
fn next_fire_after(s: &cron::Schedule, now_ms: i64) -> (r: Option<i64>)
    requires
        now_ms <= MAX_SCHEDULE_NOW_MS,
{
    let now = match chrono::DateTime::<chrono::Utc>::from_timestamp_millis(now_ms) {
        Some(utc) => utc.with_timezone(&chrono::Local),
        None => {
            return None;
        },
    };
    s.after(&now).next().map(|d| d.timestamp_millis())
}

/// Relies on chrono's formatting in the machine's local timezone: renders a
/// timestamp for display; timezone-dependent, so nothing is assumed of the
/// text.
#[verifier::external_body]
fn format_local_datetime(ms: i64) -> (r: String) {
    match chrono::DateTime::<chrono::Utc>::from_timestamp_millis(ms) {
        Some(utc) => utc.with_timezone(&chrono::Local).format("%Y-%m-%d %H:%M:%S").to_string(),
        None => String::new(),
    }
}

/// How long to wait until a fire time, computed with signed arithmetic so a
/// fire time already in the past cannot underflow: such a time is simply due
/// now.
pub fn delay_until(next_ms: i64, now_ms: i64) -> (d: u64)
    ensures
        next_ms <= now_ms ==> d == 0,
        next_ms > now_ms ==> d == next_ms - now_ms,
{
    if next_ms <= now_ms {
        0
    } else {
        let diff: i128 = (next_ms as i128) - (now_ms as i128);
        diff as u64
    }
}

/// The next slice of a long wait: at most [`MAX_SLEEP_CHUNK_MS`], and never
/// zero while any wait remains.
pub fn sleep_chunk(remaining_ms: u64) -> (c: u64)
    ensures
        c <= MAX_SLEEP_CHUNK_MS,
        c <= remaining_ms,
        remaining_ms >= MAX_SLEEP_CHUNK_MS ==> c == MAX_SLEEP_CHUNK_MS,
        remaining_ms < MAX_SLEEP_CHUNK_MS ==> c == remaining_ms,
{
    if remaining_ms < MAX_SLEEP_CHUNK_MS {
        remaining_ms
    } else {
        MAX_SLEEP_CHUNK_MS
    }
}

/// What the caller must do next to keep a schedule running.
#[derive(Clone, Copy, Debug, PartialEq, Eq)]
pub enum SchedAction {
    /// The loop is over: cancellation was observed, or the schedule has no
    /// further fire time and has shut itself down.
    Exit,
    /// A fire is due and the note is idle: perform the run, then step again.
    Fire,
    /// A fire is due but a process is still active or a stop is pending; the
    /// fire is skipped and the loop moves on to the next fire time.
    Skip,
    /// Sleep this many milliseconds, then step again.
    Sleep(u64),
}

/// One note's active cron loop: the parsed schedule and the progress of the
/// current wait.
pub struct ScheduleLoop {
    sched: cron::Schedule,
    waiting: bool,
    target_ms: i64,
    remaining_ms: u64,
}

/// The mathematical state of a [`ScheduleLoop`]: whether it is mid-wait,
/// toward which fire time, and how much of the wait remains.
pub struct LoopModel {
    pub waiting: bool,
    pub target_ms: i64,
    pub remaining_ms: u64,
}

impl View for ScheduleLoop {
    type V = LoopModel;

    closed spec fn view(&self) -> LoopModel {
        LoopModel {
            waiting: self.waiting,
            target_ms: self.target_ms,
            remaining_ms: self.remaining_ms,
        }
    }
}

impl ScheduleLoop {
    /// A fresh loop over a parsed schedule, about to compute its first fire.
    pub(crate) fn new(sched: cron::Schedule) -> (l: ScheduleLoop)
        ensures
            !l@.waiting,
    {
        ScheduleLoop { sched, waiting: false, target_ms: 0, remaining_ms: 0 }
    }

    /// The fire time currently being waited for, as epoch milliseconds.
    pub fn target_ms(&self) -> (t: i64)
        ensures
            t == self@.target_ms,
    {
        self.target_ms
    }

    /// One decision of the scheduling loop.
    ///
    /// The caller reads its cancellation flag, takes the current time, and
    /// calls `step`; it then sleeps, runs, or exits as the action says, and
    /// calls again. Cancellation is observed at every step, and no sleep
    /// exceeds [`MAX_SLEEP_CHUNK_MS`], which bounds cancellation latency to
    /// one chunk (plus scheduling overhead) however far away the next fire
    /// is. A fire is only requested while no process is active and no stop
    /// is pending, so a stop in progress is never undone by a fire. A
    /// `now_ms` past [`MAX_SCHEDULE_NOW_MS`] ends the loop the way an
    /// exhausted schedule does.
    pub fn step(&mut self, eng: &mut CommandEngine, cancelled: bool, now_ms: i64) -> (a:
        SchedAction)
        ensures
            cancelled ==> a == SchedAction::Exit && final(self)@ == old(self)@ && final(eng)@
                == old(eng)@,
            !cancelled && !old(self)@.waiting && a != SchedAction::Exit ==> final(eng)@.next_fire_at is Some,
            !cancelled ==> match a {
                SchedAction::Exit => {
                    &&& final(eng)@ == spec_stop_schedule(old(eng)@)
                    &&& !old(self)@.waiting
                    &&& final(self)@ == old(self)@
                },
                SchedAction::Fire => {
                    &&& !old(eng)@.process_active
                    &&& !old(eng)@.stopping
                    &&& !final(self)@.waiting
                    &&& final(eng)@ == (EngineModel {
                        next_fire_at: final(eng)@.next_fire_at,
                        ..old(eng)@
                    })
                },
                SchedAction::Skip => {
                    &&& old(eng)@.process_active || old(eng)@.stopping
                    &&& !final(self)@.waiting
                    &&& final(eng)@ == (EngineModel {
                        next_fire_at: final(eng)@.next_fire_at,
                        ..old(eng)@
                    })
                },
                SchedAction::Sleep(c) => {
                    &&& 1 <= c <= MAX_SLEEP_CHUNK_MS
                    &&& final(self)@.waiting
                    &&& (!old(self)@.waiting ==> final(self)@.target_ms > now_ms && final(self)@.remaining_ms + c == final(self)@.target_ms - now_ms)
                    &&& (old(self)@.waiting ==> final(self)@.target_ms == old(self)@.target_ms
                        && final(self)@.remaining_ms + c == old(self)@.remaining_ms && final(eng)@ == old(eng)@)
                    &&& final(eng)@ == (EngineModel {
                        next_fire_at: final(eng)@.next_fire_at,
                        ..old(eng)@
                    })
                },
            },
    {
        if cancelled {
            return SchedAction::Exit;
        }
        if !self.waiting {
            if now_ms > MAX_SCHEDULE_NOW_MS {
                // No representable fire time can lie after such an instant:
                // the schedule ends as an exhausted one would.
                eng.stop_schedule();
                return SchedAction::Exit;
            }
            match next_fire_after(&self.sched, now_ms) {
                None => {
                    // No further fire time exists: the schedule shuts itself
                    // down, exactly as an explicit stop would.
                    eng.stop_schedule();
                    return SchedAction::Exit;
                },
                Some(t) => {
                    eng.set_next_fire(format_local_datetime(t));
                    self.target_ms = t;
                    let rem = delay_until(t, now_ms);
                    if rem == 0 {
                        return if eng.is_idle() {
                            SchedAction::Fire
                        } else {
                            SchedAction::Skip
                        };
                    }
                    self.remaining_ms = rem;
                    self.waiting = true;
                },
            }
        }
        if self.remaining_ms > 0 {
            let c = sleep_chunk(self.remaining_ms);
            self.remaining_ms = self.remaining_ms - c;
            return SchedAction::Sleep(c);
        }
        self.waiting = false;
        if eng.is_idle() {
            SchedAction::Fire
        } else {
            SchedAction::Skip
        }
    }
}

} // verus!
