//! The progress monitor: what to pass the provisioning process, and how each
//! thing that happens to it (spawn, output line, end of output, exit) changes
//! the session and what to wait for next. The caller performs the waiting.
use vstd::prelude::*;
use vstd::string::*;
use crate::protocol::{classify, error_tag, progress_tag, starts_with, LineKind};
use crate::session::{errored, exited, progressed, Phase, SessionState, CUSTOM, RELEASE};

verus! {

/// The version selector passed for a variant.
pub open spec fn version_of(choice: usize) -> Seq<char> {
    if choice == CUSTOM {
        "custom-tag"@
    } else if choice == RELEASE {
        "v1.0"@
    } else {
        "master"@
    }
}

/// The model selector passed for a variant: the typed address for the custom
/// variant, the built-in model otherwise.
pub open spec fn model_arg_of(choice: usize, url: Seq<char>) -> Seq<char> {
    if choice == CUSTOM {
        "--custom-url="@ + url
    } else {
        "--model=1"@
    }
}

/// Arguments for the provisioning process, after its path.
pub fn install_args(state: &SessionState) -> (r: Vec<String>)
    requires
        state.wf(),
    ensures
        r@.len() == 3,
        r@[0]@ == "--version"@,
        r@[1]@ == version_of(state.model_choice),
        r@[2]@ == model_arg_of(state.model_choice, state.custom_url@),
{
    let version = if state.model_choice == CUSTOM {
        "custom-tag"
    } else if state.model_choice == RELEASE {
        "v1.0"
    } else {
        "master"
    };
    let model = if state.model_choice == CUSTOM {
        String::from_str("--custom-url=").concat(state.custom_url.as_str())
    } else {
        String::from_str("--model=1")
    };
    let mut r: Vec<String> = Vec::new();
    r.push(String::from_str("--version"));
    r.push(String::from_str(version));
    r.push(model);
    r
}

/// Where the monitor stands.
#[derive(Clone, Copy, Debug, PartialEq, Eq, Structural)]
pub enum Stage {
    /// The process is being launched.
    Starting,
    /// Output lines are read and reported.
    Reading,
    /// An error line was seen: further lines are read and dropped.
    Draining,
    /// Output is over: the exit status is awaited.
    Waiting,
    /// The exit status was delivered, or the process never started.
    Finished,
}

/// What happened to the provisioning process.
pub enum Event {
    /// It was launched.
    Spawned,
    /// It could not be launched; the reason.
    SpawnFailed(String),
    /// A complete line of its output, without the line end.
    Line(String),
    /// Reading its output failed; the reason.
    StreamFailed(String),
    /// Its output ended.
    StreamClosed,
    /// It exited with this code.
    Exited(i32),
}

/// What the caller waits for next.
#[derive(Clone, Copy, Debug, PartialEq, Eq, Structural)]
pub enum Action {
    /// The next output line, or the end of output.
    ReadLine,
    /// The exit status.
    AwaitExit,
    /// Nothing: the monitor is done.
    Stop,
    /// The outcome of launching the process.
    AwaitSpawn,
}

/// What to wait for in a stage.
pub open spec fn action_of(s: Stage) -> Action {
    match s {
        Stage::Starting => Action::AwaitSpawn,
        Stage::Reading => Action::ReadLine,
        Stage::Draining => Action::ReadLine,
        Stage::Waiting => Action::AwaitExit,
        Stage::Finished => Action::Stop,
    }
}

/// Stage after an event; an event the stage does not expect leaves it as is.
pub open spec fn next_stage(s: Stage, e: Event) -> Stage {
    match (s, e) {
        (Stage::Starting, Event::Spawned) => Stage::Reading,
        (Stage::Starting, Event::SpawnFailed(_)) => Stage::Finished,
        (Stage::Reading, Event::Line(l)) => if !starts_with(l@, progress_tag()) && starts_with(
            l@,
            error_tag(),
        ) {
            Stage::Draining
        } else {
            Stage::Reading
        },
        (Stage::Reading, Event::StreamFailed(_)) => Stage::Waiting,
        (Stage::Reading, Event::StreamClosed) => Stage::Waiting,
        (Stage::Draining, Event::StreamFailed(_)) => Stage::Waiting,
        (Stage::Draining, Event::StreamClosed) => Stage::Waiting,
        (Stage::Waiting, Event::Exited(_)) => Stage::Finished,
        _ => s,
    }
}

/// How an event in stage `s` changes the session from `a` to `b`.
pub open spec fn session_step(s: Stage, e: Event, a: SessionState, b: SessionState) -> bool {
    match (s, e) {
        (Stage::Starting, Event::SpawnFailed(m)) => errored(a, b, m@),
        (Stage::Reading, Event::Line(l)) => if starts_with(l@, progress_tag()) {
            progressed(a, b, l@.skip(progress_tag().len() as int))
        } else if starts_with(l@, error_tag()) {
            errored(a, b, l@.skip(error_tag().len() as int))
        } else {
            b == a
        },
        (Stage::Reading, Event::StreamFailed(m)) => errored(a, b, m@),
        (Stage::Draining, Event::StreamFailed(m)) => errored(a, b, m@),
        (Stage::Waiting, Event::Exited(code)) => exited(a, b, code as int),
        _ => b == a,
    }
}

/// Exit statuses handed to the session while the monitor takes `events`
/// from stage `s` on.
pub open spec fn exits_delivered(s: Stage, events: Seq<Event>) -> nat
    decreases events.len(),
{
    if events.len() == 0 {
        0
    } else {
        let e = events[0];
        let here: nat = if s == Stage::Waiting && e is Exited {
            1
        } else {
            0
        };
        here + exits_delivered(next_stage(s, e), events.skip(1))
    }
}

/// Whatever happens, one launch hands the session at most one exit status,
/// and none once the monitor is finished.
pub proof fn exit_delivered_at_most_once(s: Stage, events: Seq<Event>)
    ensures
        exits_delivered(s, events) <= 1,
        s == Stage::Finished ==> exits_delivered(s, events) == 0,
    decreases events.len(),
{
    if events.len() > 0 {
        exit_delivered_at_most_once(next_stage(s, events[0]), events.skip(1));
        exit_delivered_at_most_once(Stage::Finished, events.skip(1));
    }
}

/// Once the run has failed or finished, no event the monitor takes changes
/// the session: an exit status after an error report keeps the error message.
pub proof fn ended_run_is_kept(s: Stage, e: Event, a: SessionState, b: SessionState)
    requires
        a.phase == Phase::Failed || a.phase == Phase::Done,
        session_step(s, e, a, b),
    ensures
        b == a,
{
}

/// The progress monitor of one launch of the provisioning process.
pub struct Monitor {
    pub stage: Stage,
}

impl Monitor {
    /// A monitor about to launch the process.
    pub fn new() -> (r: Monitor)
        ensures
            r.stage == Stage::Starting,
    {
        Monitor { stage: Stage::Starting }
    }

    /// What to wait for now.
    pub fn action(&self) -> (r: Action)
        ensures
            r == action_of(self.stage),
    {
        match self.stage {
            Stage::Starting => Action::AwaitSpawn,
            Stage::Reading => Action::ReadLine,
            Stage::Draining => Action::ReadLine,
            Stage::Waiting => Action::AwaitExit,
            Stage::Finished => Action::Stop,
        }
    }

    /// Takes one event: updates the session, moves to the next stage, and
    /// says what to wait for next.
    pub fn step(&mut self, session: &mut SessionState, event: Event) -> (r: Action)
        requires
            old(session).wf(),
        ensures
            final(session).wf(),
            final(self).stage == next_stage(old(self).stage, event),
            session_step(old(self).stage, event, *old(session), *final(session)),
            r == action_of(final(self).stage),
    {
        match self.stage {
            Stage::Starting => match &event {
                Event::Spawned => {
                    self.stage = Stage::Reading;
                },
                Event::SpawnFailed(m) => {
                    session.on_error(m.as_str());
                    self.stage = Stage::Finished;
                },
                _ => {},
            },
            Stage::Reading => match &event {
                Event::Line(l) => {
                    let kind = classify(l.as_str());
                    match kind {
                        LineKind::Progress(t) => {
                            session.on_progress(t.as_str());
                        },
                        LineKind::Error(t) => {
                            session.on_error(t.as_str());
                            self.stage = Stage::Draining;
                        },
                        LineKind::Ignored => {},
                    }
                },
                Event::StreamFailed(m) => {
                    session.on_error(m.as_str());
                    self.stage = Stage::Waiting;
                },
                Event::StreamClosed => {
                    self.stage = Stage::Waiting;
                },
                _ => {},
            },
            Stage::Draining => match &event {
                Event::StreamFailed(m) => {
                    session.on_error(m.as_str());
                    self.stage = Stage::Waiting;
                },
                Event::StreamClosed => {
                    self.stage = Stage::Waiting;
                },
                _ => {},
            },
            Stage::Waiting => match &event {
                Event::Exited(code) => {
                    session.on_exit(*code);
                    self.stage = Stage::Finished;
                },
                _ => {},
            },
            Stage::Finished => {},
        }
        self.action()
    }
}

} // verus!
