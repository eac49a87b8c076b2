//! The orchestration state machine of one command note.
//!
//! The engine owns the note's configuration and transient run state, and
//! makes every decision: what starting does, when a run is rejected, how
//! output folds into the visible result, and how stopping interacts with a
//! live schedule. The blocking work around it — spawning the planned
//! process, killing it, sleeping, persisting — is performed by the caller,
//! which reports back through small, fully specified transitions.

use vstd::prelude::*;

use crate::config::{
    CommandContent, CommandError, CommandResult, ContentModel, ErrorModel, ResultModel, Scheduler,
};
use crate::envblock::env_entries_spec;
use crate::runner::{
    argv_spec, command_is_empty, prepare_launch, working_dir_spec, LaunchPlan,
};
use crate::schedule::{cron_parses, parse_cron, ScheduleLoop};
use crate::text::{trim_spec, trim_str};

verus! {

/// The first pause of the event drain after a spawn, before polling begins.
pub const DRAIN_INITIAL_DELAY_MS: u64 = 100;

/// The pause between drain polls that found no pending event.
pub const DRAIN_POLL_MS: u64 = 50;

/// The pause between liveness checks on a running child process.
pub const LIVENESS_POLL_MS: u64 = 50;

/// One event out of a run: a line of output, a line of error output, or the
/// end of the run. Both kinds of line fold into the result the same way;
/// they interleave in arrival order.
#[derive(Clone, Debug, PartialEq, Eq)]
pub enum CmdEvent {
    Output(String),
    Error(String),
    Done,
}

/// The mathematical content of a [`CmdEvent`].
pub enum EventModel {
    Output(Seq<char>),
    Error(Seq<char>),
    Done,
}

impl View for CmdEvent {
    type V = EventModel;

    open spec fn view(&self) -> EventModel {
        match self {
            CmdEvent::Output(l) => EventModel::Output(l@),
            CmdEvent::Error(l) => EventModel::Error(l@),
            CmdEvent::Done => EventModel::Done,
        }
    }
}

/// The mathematical state of a [`CommandEngine`].
pub struct EngineModel {
    /// The note's configuration, as persisted.
    pub content: ContentModel,
    /// Whether a child process is currently live.
    pub process_active: bool,
    /// Whether a termination request is in flight.
    pub stopping: bool,
    /// Whether a scheduling loop is active for this note.
    pub schedule_active: bool,
    /// The displayed next fire time, when a schedule has computed one.
    pub next_fire_at: Option<Seq<char>>,
    /// The note's last error; the latest wins, cleared on the next success.
    pub last_error: Option<ErrorModel>,
    /// Output buffered invisibly for the atomic render modes until the run
    /// finishes.
    pub pending: Seq<char>,
}

/// What a call to [`CommandEngine::start`] asks of the caller.
pub enum StartOutcome {
    /// Nothing starts; the engine's last error says why.
    Failed,
    /// No schedule is configured: spawn this plan once.
    RunOnce(LaunchPlan),
    /// A schedule is configured and parsed: drive the loop, and spawn the
    /// plan first if one accompanies it (the run-immediately run).
    Scheduled(ScheduleLoop, Option<LaunchPlan>),
}

/// Stopping the schedule: the loop token is cleared and the next-fire
/// display emptied; everything else is untouched.
pub open spec fn spec_stop_schedule(m: EngineModel) -> EngineModel {
    EngineModel { schedule_active: false, next_fire_at: None, ..m }
}

/// What starting a run does to the visible result: with streaming on, the
/// previous result is cleared so new output shows incrementally; with
/// streaming off it stays visible. The atomic side buffer starts empty
/// either way.
pub open spec fn spec_begin_run(m: EngineModel) -> EngineModel {
    EngineModel {
        content: if m.content.stream_result {
            ContentModel {
                result: ResultModel { kind: m.content.result.kind, payload: None },
                ..m.content
            }
        } else {
            m.content
        },
        pending: Seq::empty(),
        ..m
    }
}

/// What one line of output does: incremental render modes append the line
/// and a newline to the visible result; atomic modes buffer it invisibly.
pub open spec fn spec_apply_line(m: EngineModel, line: Seq<char>) -> EngineModel {
    if m.content.result.kind.is_incremental() {
        let prev = match m.content.result.payload {
            Some(p) => p,
            None => Seq::empty(),
        };
        EngineModel {
            content: ContentModel {
                result: ResultModel {
                    kind: m.content.result.kind,
                    payload: Some(prev + line + "\n"@),
                },
                ..m.content
            },
            ..m
        }
    } else {
        EngineModel { pending: m.pending + line + "\n"@, ..m }
    }
}

/// What the end of the run does to the result: atomic render modes publish
/// the whole buffer at once; incremental modes already show everything.
pub open spec fn spec_apply_done(m: EngineModel) -> EngineModel {
    if m.content.result.kind.is_incremental() {
        m
    } else {
        EngineModel {
            content: ContentModel {
                result: ResultModel { kind: m.content.result.kind, payload: Some(m.pending) },
                ..m.content
            },
            ..m
        }
    }
}

/// One event folded into the engine.
pub open spec fn spec_apply_event(m: EngineModel, e: EventModel) -> EngineModel {
    match e {
        EventModel::Output(l) => spec_apply_line(m, l),
        EventModel::Error(l) => spec_apply_line(m, l),
        EventModel::Done => spec_apply_done(m),
    }
}

/// A whole sequence of events folded into the engine, in order.
pub open spec fn spec_drain_events(m: EngineModel, evs: Seq<EventModel>) -> EngineModel
    decreases evs.len(),
{
    if evs.len() == 0 {
        m
    } else {
        spec_drain_events(spec_apply_event(m, evs[0]), evs.subrange(1, evs.len() as int))
    }
}

/// The cleanup after the drain ends: the process is gone and any stop in
/// flight is complete, so the note is idle again.
pub open spec fn spec_finish_run(m: EngineModel) -> EngineModel {
    EngineModel { process_active: false, stopping: false, ..m }
}

/// What one poll of the child process reported.
#[derive(Clone, Copy, Debug, PartialEq, Eq)]
pub enum PollStatus {
    /// The child has exited.
    Exited,
    /// The child is still running.
    StillRunning,
    /// The child could not be checked; it is treated as gone.
    CheckFailed,
}

/// Whether the liveness watcher is finished after a poll: it keeps polling
/// only while the child is positively still running, so a kill, an exit, or
/// a broken handle all end the watch.
pub fn liveness_is_done(s: PollStatus) -> (r: bool)
    ensures
        r == !(s is StillRunning),
{
    match s {
        PollStatus::StillRunning => false,
        PollStatus::Exited => true,
        PollStatus::CheckFailed => true,
    }
}

/// What the drain loop received this iteration.
pub enum DrainInput {
    /// An event arrived.
    Event(CmdEvent),
    /// No event is pending yet.
    Empty,
    /// The run's channel is gone without a final event.
    Disconnected,
}

/// What the drain loop does next.
#[derive(Clone, Copy, Debug, PartialEq, Eq)]
pub enum DrainStep {
    /// Poll again at once.
    Continue,
    /// Sleep [`DRAIN_POLL_MS`] and poll again.
    Wait,
    /// The run is over: call [`CommandEngine::finish_run`] and stop polling.
    Finished,
}

/// The orchestration state machine of one command note.
pub struct CommandEngine {
    /// The note's configuration; mutated by the user between runs and by
    /// run completion (the result payload).
    pub config: CommandContent,
    process_active: bool,
    stopping: bool,
    schedule_active: bool,
    next_fire_at: Option<String>,
    last_error: Option<CommandError>,
    pending: String,
}

impl View for CommandEngine {
    type V = EngineModel;

    closed spec fn view(&self) -> EngineModel {
        EngineModel {
            content: self.config@,
            process_active: self.process_active,
            stopping: self.stopping,
            schedule_active: self.schedule_active,
            next_fire_at: match self.next_fire_at {
                Some(ref s) => Some(s@),
                None => None,
            },
            last_error: match self.last_error {
                Some(ref e) => Some(e@),
                None => None,
            },
            pending: self.pending@,
        }
    }
}

impl CommandEngine {
    /// An engine over a configuration, with nothing running, nothing
    /// scheduled and no error.
    pub fn new(config: CommandContent) -> (e: CommandEngine)
        ensures
            e@ == (EngineModel {
                content: config@,
                process_active: false,
                stopping: false,
                schedule_active: false,
                next_fire_at: None::<Seq<char>>,
                last_error: None::<ErrorModel>,
                pending: Seq::<char>::empty(),
            }),
    {
        CommandEngine {
            config,
            process_active: false,
            stopping: false,
            schedule_active: false,
            next_fire_at: None,
            last_error: None,
            pending: String::new(),
        }
    }

    /// Whether a child process is currently live.
    pub fn is_running(&self) -> (r: bool)
        ensures
            r == self@.process_active,
    {
        self.process_active
    }

    /// Whether a termination request is in flight.
    pub fn is_stopping(&self) -> (r: bool)
        ensures
            r == self@.stopping,
    {
        self.stopping
    }

    /// Whether a scheduling loop is active for this note.
    pub fn is_schedule_active(&self) -> (r: bool)
        ensures
            r == self@.schedule_active,
    {
        self.schedule_active
    }

    /// Whether a scheduled fire may run now: no live process and no stop in
    /// flight, so runs never overlap and a stop is never undone by a fire.
    pub fn is_idle(&self) -> (r: bool)
        ensures
            r == (!self@.process_active && !self@.stopping),
    {
        !self.process_active && !self.stopping
    }

    /// The displayed next fire time, when a schedule has computed one.
    pub fn next_fire_at(&self) -> (r: Option<&String>)
        ensures
            r matches Some(s) ==> self@.next_fire_at == Some(s@),
            r is None ==> self@.next_fire_at is None,
    {
        self.next_fire_at.as_ref()
    }

    /// The note's last error, if any.
    pub fn last_error(&self) -> (r: Option<&CommandError>)
        ensures
            r matches Some(e) ==> self@.last_error == Some(e@),
            r is None ==> self@.last_error is None,
    {
        self.last_error.as_ref()
    }

    /// The note's title, derived from the trimmed command line.
    pub fn title(&self) -> (t: String)
        ensures
            t@ == trim_spec(self@.content.command),
    {
        String::from_str(trim_str(self.config.command.as_str()))
    }

    /// The configuration as it is persisted: the command trimmed, everything
    /// else exactly as configured.
    pub fn content_for_save(&self) -> (c: CommandContent)
        ensures
            c@ == (ContentModel { command: trim_spec(self@.content.command), ..self@.content }),
    {
        let mut result = CommandResult::empty_of_kind(self.config.result.kind());
        let payload = match self.config.result.payload() {
            Some(p) => Some(p.clone()),
            None => None,
        };
        result.replace_payload(payload);
        CommandContent {
            command: String::from_str(trim_str(self.config.command.as_str())),
            environments: self.config.environments.clone(),
            working_dir: self.config.working_dir.clone(),
            scheduler: match &self.config.scheduler {
                Some(Scheduler::Cron(e)) => Some(Scheduler::Cron(e.clone())),
                None => None,
            },
            run_immediately: self.config.run_immediately,
            result,
            stream_result: self.config.stream_result,
        }
    }

    /// Records an error reported from outside the engine (a failed spawn is
    /// [`Self::on_spawn_failed`]; this is for serialization and persistence
    /// failures). The latest error wins.
    pub fn set_error(&mut self, e: CommandError)
        ensures
            final(self)@ == (EngineModel { last_error: Some(e@), ..old(self)@ }),
    {
        self.last_error = Some(e);
    }

    /// Clears the error after a successful operation.
    pub fn clear_error(&mut self)
        ensures
            final(self)@ == (EngineModel { last_error: None::<ErrorModel>, ..old(self)@ }),
    {
        self.last_error = None;
    }

    /// Publishes the next fire time for display.
    pub(crate) fn set_next_fire(&mut self, at: String)
        ensures
            final(self)@ == (EngineModel { next_fire_at: Some(at@), ..old(self)@ }),
    {
        self.next_fire_at = Some(at);
    }

    /// Stops recurring execution: clears the schedule token and the
    /// next-fire display. Independent of any running process, and idempotent
    /// — see [`lemma_stop_schedule_idempotent`]. The caller cancels its
    /// loop's flag alongside.
    pub fn stop_schedule(&mut self)
        ensures
            final(self)@ == spec_stop_schedule(old(self)@),
    {
        self.schedule_active = false;
        self.next_fire_at = None;
    }

    /// Requests termination of the live process, if any: with no process
    /// this is a no-op; otherwise the note enters Stopping and the caller
    /// must kill the process (tree first, direct kill as fallback) and keep
    /// draining until `Done`. The stop only signals intent — the watcher
    /// observes the exit at its next poll.
    pub fn stop(&mut self) -> (kill: bool)
        ensures
            !old(self)@.process_active ==> !kill && final(self)@ == old(self)@,
            old(self)@.process_active ==> kill && final(self)@ == (EngineModel {
                stopping: true,
                ..old(self)@
            }),
    {
        if !self.process_active {
            return false;
        }
        self.stopping = true;
        true
    }

    /// The configured cron expression, if a schedule is selected.
    fn scheduler_expr(&self) -> (e: Option<String>)
        ensures
            e matches Some(s) ==> self@.content.scheduler == Some(s@),
            e is None ==> self@.content.scheduler is None,
    {
        match &self.config.scheduler {
            Some(Scheduler::Cron(s)) => Some(s.clone()),
            None => None,
        }
    }

    /// Plans one run of the configured command, recording the error when it
    /// cannot run. A scheduled fire replans from the current configuration
    /// through this same path.
    pub fn plan_run(&mut self) -> (r: Option<LaunchPlan>)
        ensures
            final(self)@.content == old(self)@.content,
            final(self)@.process_active == old(self)@.process_active,
            final(self)@.stopping == old(self)@.stopping,
            final(self)@.schedule_active == old(self)@.schedule_active,
            final(self)@.next_fire_at == old(self)@.next_fire_at,
            final(self)@.pending == old(self)@.pending,
            r matches Some(p) ==> {
                &&& !command_is_empty(old(self)@.content.command)
                &&& p@.args == argv_spec(old(self)@.content.command).subrange(
                    1,
                    argv_spec(old(self)@.content.command).len() as int,
                )
                &&& p@.working_dir == working_dir_spec(old(self)@.content.working_dir)
                &&& p@.env == env_entries_spec(old(self)@.content.environments)
                &&& final(self)@.last_error == old(self)@.last_error
            },
            r is None ==> {
                &&& (command_is_empty(old(self)@.content.command) ==> final(self)@.last_error
                    == Some(ErrorModel::EmptyCommand))
                &&& (!command_is_empty(old(self)@.content.command) ==> (final(self)@.last_error
                    matches Some(e) && e == ErrorModel::ProgramNotFound(
                    argv_spec(old(self)@.content.command)[0],
                )))
            },
            command_is_empty(old(self)@.content.command) ==> r is None,
    {
        let r = prepare_launch(
            self.config.command.as_str(),
            self.config.working_dir.as_str(),
            self.config.environments.as_str(),
        );
        match r {
            Ok(plan) => Some(plan),
            Err(e) => {
                self.last_error = Some(e);
                None
            },
        }
    }

    /// Starts the note: cancels any existing schedule, then either plans a
    /// single run (no schedule configured) or parses the cron expression and
    /// hands back the loop to drive, with an immediate run's plan when the
    /// configuration asks for one. The caller persists the configuration
    /// before calling, spawns any returned plan, and drives any returned
    /// loop.
    pub fn start(&mut self) -> (o: StartOutcome)
        ensures
            final(self)@.content == old(self)@.content,
            final(self)@.process_active == old(self)@.process_active,
            final(self)@.stopping == old(self)@.stopping,
            final(self)@.pending == old(self)@.pending,
            final(self)@.next_fire_at is None,
            old(self)@.content.scheduler is None ==> match o {
                StartOutcome::RunOnce(p) => {
                    &&& !command_is_empty(old(self)@.content.command)
                    &&& p@.args == argv_spec(old(self)@.content.command).subrange(
                        1,
                        argv_spec(old(self)@.content.command).len() as int,
                    )
                    &&& p@.working_dir == working_dir_spec(old(self)@.content.working_dir)
                    &&& p@.env == env_entries_spec(old(self)@.content.environments)
                    &&& !final(self)@.schedule_active
                    &&& final(self)@.last_error == old(self)@.last_error
                },
                StartOutcome::Failed => {
                    &&& !final(self)@.schedule_active
                    &&& (command_is_empty(old(self)@.content.command) ==> final(self)@.last_error == Some(ErrorModel::EmptyCommand))
                    &&& (!command_is_empty(old(self)@.content.command) ==> (final(self)@.last_error matches Some(e) && e == ErrorModel::ProgramNotFound(
                        argv_spec(old(self)@.content.command)[0],
                    )))
                },
                StartOutcome::Scheduled(_, _) => false,
            },
            old(self)@.content.scheduler matches Some(expr) ==> match o {
                StartOutcome::Failed => {
                    &&& !final(self)@.schedule_active
                    &&& (expr.len() == 0 ==> final(self)@.last_error == Some(
                        ErrorModel::EmptyCronExpression,
                    ))
                    &&& (expr.len() > 0 ==> !cron_parses(expr) && (final(self)@.last_error
                        matches Some(e) && e is InvalidCronExpression))
                },
                StartOutcome::Scheduled(l, imm) => {
                    &&& expr.len() > 0
                    &&& cron_parses(expr)
                    &&& final(self)@.schedule_active
                    &&& final(self)@.last_error is None
                    &&& !l@.waiting
                    &&& (imm matches Some(p) ==> {
                        &&& old(self)@.content.run_immediately
                        &&& !command_is_empty(old(self)@.content.command)
                        &&& p@.args == argv_spec(old(self)@.content.command).subrange(
                            1,
                            argv_spec(old(self)@.content.command).len() as int,
                        )
                        &&& p@.working_dir == working_dir_spec(old(self)@.content.working_dir)
                        &&& p@.env == env_entries_spec(old(self)@.content.environments)
                    })
                    &&& (!old(self)@.content.run_immediately ==> imm is None)
                    &&& (command_is_empty(old(self)@.content.command) ==> imm is None)
                },
                StartOutcome::RunOnce(_) => false,
            },
            (old(self)@.content.scheduler matches Some(expr) && expr.len() > 0 && cron_parses(
                expr,
            )) ==> o is Scheduled,
    {
        // A new start is the single authority: any previous loop is
        // cancelled before anything else happens.
        self.stop_schedule();
        match self.scheduler_expr() {
            None => {
                match self.plan_run() {
                    Some(plan) => StartOutcome::RunOnce(plan),
                    None => StartOutcome::Failed,
                }
            },
            Some(expr) => {
                if expr.unicode_len() == 0 {
                    self.last_error = Some(CommandError::EmptyCronExpression);
                    return StartOutcome::Failed;
                }
                match parse_cron(expr.as_str()) {
                    Err(cause) => {
                        self.last_error = Some(CommandError::InvalidCronExpression(cause));
                        StartOutcome::Failed
                    },
                    Ok(sched) => {
                        let imm = if self.config.run_immediately {
                            self.plan_run()
                        } else {
                            None
                        };
                        // The scheduling loop is established even when an
                        // immediate run could not be planned; its error is
                        // superseded by the successful start.
                        self.last_error = None;
                        self.schedule_active = true;
                        StartOutcome::Scheduled(ScheduleLoop::new(sched), imm)
                    },
                }
            },
        }
    }

    /// The caller spawned the planned process: the note is Running.
    pub fn on_spawned(&mut self)
        ensures
            final(self)@ == (EngineModel { process_active: true, ..old(self)@ }),
    {
        self.process_active = true;
    }

    /// The caller could not spawn the planned process: no process is live
    /// and the cause becomes the note's error.
    pub fn on_spawn_failed(&mut self, cause: String)
        ensures
            final(self)@ == (EngineModel {
                last_error: Some(ErrorModel::SpawnFailed(cause@)),
                ..old(self)@
            }),
    {
        self.last_error = Some(CommandError::SpawnFailed(cause));
    }

    /// A run is starting: clears the visible result when streaming, and
    /// always begins with an empty atomic buffer.
    pub fn begin_run(&mut self)
        ensures
            final(self)@ == spec_begin_run(old(self)@),
    {
        if self.config.stream_result {
            self.config.result.replace_payload(None);
        }
        self.pending = String::new();
    }

    /// Folds one line of output into the engine.
    fn apply_line(&mut self, line: &str)
        ensures
            final(self)@ == spec_apply_line(old(self)@, line@),
    {
        let kind = self.config.result.kind();
        if kind.renders_incrementally() {
            let mut s = match self.config.result.payload() {
                Some(prev) => prev.clone(),
                None => String::new(),
            };
            s.append(line);
            s.append("\n");
            self.config.result.replace_payload(Some(s));
        } else {
            self.pending.append(line);
            self.pending.append("\n");
        }
    }

    /// One iteration of the event drain: folds an event into the result,
    /// waits when nothing is pending, and finishes on `Done` — or on a dead
    /// channel, which ends the run without publishing an atomic buffer.
    pub fn drain_step(&mut self, input: DrainInput) -> (d: DrainStep)
        ensures
            match input {
                DrainInput::Event(e) => {
                    &&& final(self)@ == spec_apply_event(old(self)@, e@)
                    &&& d == (if e@ is Done {
                        DrainStep::Finished
                    } else {
                        DrainStep::Continue
                    })
                },
                DrainInput::Empty => final(self)@ == old(self)@ && d == DrainStep::Wait,
                DrainInput::Disconnected => final(self)@ == old(self)@ && d
                    == DrainStep::Finished,
            },
    {
        match input {
            DrainInput::Event(CmdEvent::Output(line)) => {
                self.apply_line(line.as_str());
                DrainStep::Continue
            },
            DrainInput::Event(CmdEvent::Error(line)) => {
                self.apply_line(line.as_str());
                DrainStep::Continue
            },
            DrainInput::Event(CmdEvent::Done) => {
                let kind = self.config.result.kind();
                if !kind.renders_incrementally() {
                    let published = self.pending.clone();
                    self.config.result.replace_payload(Some(published));
                }
                DrainStep::Finished
            },
            DrainInput::Empty => DrainStep::Wait,
            DrainInput::Disconnected => DrainStep::Finished,
        }
    }

    /// The drain has ended: the process is gone and any stop in flight is
    /// complete, so the note is idle again. The caller persists the
    /// configuration and rebuilds any materialized Html view afterwards.
    pub fn finish_run(&mut self)
        ensures
            final(self)@ == spec_finish_run(old(self)@),
    {
        self.process_active = false;
        self.stopping = false;
    }
}

/// Law: stopping the schedule twice in a row has the same effect as
/// stopping it once.
pub proof fn lemma_stop_schedule_idempotent(m: EngineModel)
    ensures
        spec_stop_schedule(spec_stop_schedule(m)) == spec_stop_schedule(m),
{
}

/// Law: with streaming on, a run starts from an empty visible result; with
/// streaming off, the previous result is still visible, unchanged, when the
/// run starts.
pub proof fn lemma_begin_run_visibility(m: EngineModel)
    ensures
        m.content.stream_result ==> spec_begin_run(m).content.result.payload is None,
        !m.content.stream_result ==> spec_begin_run(m).content.result == m.content.result,
{
}

/// Law: under an atomic render mode (Html or Svg), the visible result does
/// not change while output arrives — only the `Done` event publishes, so
/// the result changes exactly once per run.
pub proof fn lemma_atomic_changes_only_at_done(m: EngineModel, evs: Seq<EventModel>)
    requires
        !m.content.result.kind.is_incremental(),
        forall|i: int| 0 <= i < evs.len() ==> !(#[trigger] evs[i] is Done),
    ensures
        spec_drain_events(m, evs).content.result == m.content.result,
    decreases evs.len(),
{
    if evs.len() > 0 {
        let m1 = spec_apply_event(m, evs[0]);
        assert(m1.content.result == m.content.result);
        lemma_atomic_changes_only_at_done(m1, evs.subrange(1, evs.len() as int));
    }
}

/// The text an event sequence contributes to an incremental result: each
/// line followed by a newline, in arrival order; `Done` contributes
/// nothing.
pub open spec fn lines_text(evs: Seq<EventModel>) -> Seq<char>
    decreases evs.len(),
{
    if evs.len() == 0 {
        Seq::empty()
    } else {
        let head = match evs[0] {
            EventModel::Output(l) => l + "\n"@,
            EventModel::Error(l) => l + "\n"@,
            EventModel::Done => Seq::<char>::empty(),
        };
        head + lines_text(evs.subrange(1, evs.len() as int))
    }
}

/// The text a result shows: its payload, or nothing before any run.
pub open spec fn payload_or_empty(r: ResultModel) -> Seq<char> {
    match r.payload {
        Some(p) => p,
        None => Seq::empty(),
    }
}

/// Law: under an incremental render mode (Text or Markdown), draining a
/// sequence of events appends exactly the arrived lines, each with its
/// newline and in arrival order, to what was already visible.
pub proof fn lemma_incremental_appends_lines(m: EngineModel, evs: Seq<EventModel>)
    requires
        m.content.result.kind.is_incremental(),
    ensures
        payload_or_empty(spec_drain_events(m, evs).content.result) =~= payload_or_empty(
            m.content.result,
        ) + lines_text(evs),
        spec_drain_events(m, evs).content.result.kind == m.content.result.kind,
    decreases evs.len(),
{
    if evs.len() > 0 {
        let m1 = spec_apply_event(m, evs[0]);
        let rest = evs.subrange(1, evs.len() as int);
        lemma_incremental_appends_lines(m1, rest);
        let prev = payload_or_empty(m.content.result);
        let head = match evs[0] {
            EventModel::Output(l) => l + "\n"@,
            EventModel::Error(l) => l + "\n"@,
            EventModel::Done => Seq::<char>::empty(),
        };
        assert(payload_or_empty(m1.content.result) =~= prev + head);
        assert((prev + head) + lines_text(rest) =~= prev + (head + lines_text(rest)));
        assert(prev + lines_text(evs) =~= prev + (head + lines_text(rest)));
    }
}

} // verus!
