//! The capture sequence as a state machine. The caller performs each action that a
//! step returns and reports what came of it as the next event; every failure ends
//! the run.
//!
//! Partial output is not kept: when writing the image fails, or the browser process
//! exits with a failure status, the run ends by asking for the file at the output
//! path to be removed. Failures before anything is written end the run directly.
use vstd::prelude::*;
use vstd::string::*;
use crate::naming::{default_name_text, is_default_name, resolve_output_path, Timestamp};
use crate::params::{field_text, reason_text, ImageFormat, ParameterSet, ValidationError};
use crate::text::{padded, push_padded};
#[allow(unused_imports)]
use crate::text::lemma_padded_times_ten;

verus! {

/// How the browser is driven.
#[derive(Clone, Copy, Debug, PartialEq, Eq, Structural)]
pub enum Backend {
    /// An external headless browser process that writes the screenshot file itself.
    Process,
    /// An in-process automation session that hands the image bytes back.
    Binding,
}

/// The kind of a failed run.
#[derive(Clone, Copy, Debug, PartialEq, Eq, Structural)]
pub enum ErrorKind {
    Validation,
    Navigation,
    Render,
    Io,
    ProcessFailed,
}

/// Where a run stands.
#[derive(Clone, Copy, Debug, PartialEq, Eq, Structural)]
pub enum Stage {
    Built,
    Navigating,
    Delaying,
    Capturing,
    Persisting,
    Running,
    Saved,
    Failed(ErrorKind),
}

/// Outcome of one run.
#[derive(Clone, Debug, PartialEq, Eq)]
pub enum CaptureResult {
    Saved { path: String },
    Failed { kind: ErrorKind, message: String },
}

/// What the caller reports back after performing an action.
#[derive(Clone, Debug, PartialEq, Eq)]
pub enum Event {
    /// The run begins.
    Start,
    /// The page has loaded.
    Navigated,
    NavigationFailed { message: String },
    /// The requested sleep is over.
    DelayElapsed,
    /// The page was captured into these image bytes.
    Rendered { bytes: Vec<u8> },
    RenderFailed { message: String },
    /// The image bytes are on disk.
    Written,
    WriteFailed { message: String },
    /// The browser process has exited, with a success status or not.
    ProcessExited { success: bool },
    /// The browser process could not be started.
    LaunchFailed { message: String },
}

/// What the caller is to do next.
#[derive(Clone, Debug, PartialEq, Eq)]
pub enum Action {
    /// Open the page at this viewport size and user agent.
    Navigate { url: String, width: u64, height: u64, user_agent: String },
    /// Block the whole run for this many seconds.
    Sleep { seconds: u64 },
    /// Capture the loaded page in this format.
    Render { format: ImageFormat },
    /// Write these bytes to this path, replacing what is there.
    Write { path: String, bytes: Vec<u8> },
    /// Run the headless browser with these arguments and wait for it to exit. The
    /// browser loads the page, lets the sleep pass, and writes the screenshot itself.
    RunProcess { args: Vec<String> },
    /// The run is over.
    Finish { result: CaptureResult },
    /// The run has failed after output may have been written: remove the file at this
    /// path, whether whole or partial, then end the run with this result.
    Discard { path: String, result: CaptureResult },
}

/// One capture in progress.
#[derive(Debug)]
pub struct Session {
    pub params: ParameterSet,
    pub output: String,
    pub backend: Backend,
    pub stage: Stage,
}

/// The message reported when the browser process exits with a failure status.
pub open spec fn process_failure_text() -> Seq<char> {
    "browser process exited with a failure status"@
}

/// The message that a failure event carries.
pub open spec fn failure_text(e: Event) -> Seq<char> {
    match e {
        Event::NavigationFailed { message } => message@,
        Event::RenderFailed { message } => message@,
        Event::WriteFailed { message } => message@,
        Event::LaunchFailed { message } => message@,
        _ => process_failure_text(),
    }
}

/// Where a sleep is set, the browser's budget of page time between loading the page
/// and taking the screenshot: the sleep in milliseconds.
pub open spec fn budget_args(p: ParameterSet) -> Seq<Seq<char>> {
    if p.sleep_seconds > 0 {
        seq!["--virtual-time-budget="@ + padded((p.sleep_seconds * 1000) as nat, 1)]
    } else {
        seq![]
    }
}

/// The arguments of the headless browser process: headless, no GPU, no sandbox,
/// the window size, the user agent, the screenshot path, the wait before the
/// screenshot where a sleep is set, then the URL.
pub open spec fn process_args(p: ParameterSet, output: Seq<char>) -> Seq<Seq<char>> {
    seq![
        "--headless"@,
        "--disable-gpu"@,
        "--no-sandbox"@,
        "--window-size="@ + padded(p.width as nat, 1) + seq![','] + padded(p.height as nat, 1),
        "--user-agent="@ + p.user_agent@,
        "--screenshot="@ + output,
    ] + budget_args(p) + seq![p.url@]
}

pub open spec fn arg_texts(args: Seq<String>) -> Seq<Seq<char>> {
    args.map_values(|a: String| a@)
}

/// The stage a run moves to on an event; `None` where the event does not apply.
pub open spec fn next_stage(backend: Backend, stage: Stage, sleep: u64, e: Event) -> Option<Stage> {
    match (stage, e) {
        (Stage::Built, Event::Start) => Some(
            if backend is Binding {
                Stage::Navigating
            } else {
                Stage::Running
            },
        ),
        (Stage::Navigating, Event::Navigated) => Some(
            if sleep > 0 {
                Stage::Delaying
            } else {
                Stage::Capturing
            },
        ),
        (Stage::Navigating, Event::NavigationFailed { .. }) => Some(
            Stage::Failed(ErrorKind::Navigation),
        ),
        (Stage::Delaying, Event::DelayElapsed) => Some(Stage::Capturing),
        (Stage::Capturing, Event::Rendered { .. }) => Some(Stage::Persisting),
        (Stage::Capturing, Event::RenderFailed { .. }) => Some(Stage::Failed(ErrorKind::Render)),
        (Stage::Persisting, Event::Written) => Some(Stage::Saved),
        (Stage::Persisting, Event::WriteFailed { .. }) => Some(Stage::Failed(ErrorKind::Io)),
        (Stage::Running, Event::ProcessExited { success }) => Some(
            if success {
                Stage::Saved
            } else {
                Stage::Failed(ErrorKind::ProcessFailed)
            },
        ),
        (Stage::Running, Event::LaunchFailed { .. }) => Some(
            Stage::Failed(ErrorKind::ProcessFailed),
        ),
        _ => None,
    }
}

/// The failure events after which output may be on disk: a failed write, and a
/// browser process that exited with a failure status.
pub open spec fn discards(e: Event) -> bool {
    e is WriteFailed || e is ProcessExited
}

/// The action that entering stage `next` from session `s` on event `e` asks for.
pub open spec fn is_action_for(s: Session, e: Event, next: Stage, a: Action) -> bool {
    match next {
        Stage::Navigating => a == Action::Navigate {
            url: s.params.url,
            width: s.params.width,
            height: s.params.height,
            user_agent: s.params.user_agent,
        },
        Stage::Delaying => a == Action::Sleep { seconds: s.params.sleep_seconds },
        Stage::Capturing => a == Action::Render { format: s.params.format },
        Stage::Persisting => match e {
            Event::Rendered { bytes } => a == Action::Write { path: s.output, bytes },
            _ => false,
        },
        Stage::Running => match a {
            Action::RunProcess { args } => arg_texts(args@) == process_args(s.params, s.output@),
            _ => false,
        },
        Stage::Saved => a == Action::Finish { result: CaptureResult::Saved { path: s.output } },
        Stage::Failed(kind) => match a {
            Action::Finish { result: CaptureResult::Failed { kind: k, message } } => !discards(e)
                && k == kind && message@ == failure_text(e),
            Action::Discard { path, result: CaptureResult::Failed { kind: k, message } } => discards(
                e,
            ) && path == s.output && k == kind && message@ == failure_text(e),
            _ => false,
        },
        Stage::Built => false,
    }
}

/// The arguments of the headless browser process for these parameters and path.
pub fn browser_args(params: &ParameterSet, output: &str) -> (r: Vec<String>)
    ensures
        arg_texts(r@) == process_args(*params, output@),
{
    let mut v: Vec<String> = Vec::new();
    v.push(String::from_str("--headless"));
    v.push(String::from_str("--disable-gpu"));
    v.push(String::from_str("--no-sandbox"));
    let mut size = String::from_str("--window-size=");
    push_padded(&mut size, params.width, 1);
    size.push(',');
    push_padded(&mut size, params.height, 1);
    assert(size@ =~= "--window-size="@ + padded(params.width as nat, 1) + seq![','] + padded(
        params.height as nat,
        1,
    ));
    v.push(size);
    v.push(String::from_str("--user-agent=").concat(params.user_agent.as_str()));
    v.push(String::from_str("--screenshot=").concat(output));
    if params.sleep_seconds > 0 {
        let mut budget = String::from_str("--virtual-time-budget=");
        push_padded(&mut budget, params.sleep_seconds, 1);
        let budget = budget.concat("000");
        proof {
            reveal_strlit("000");
            let n = params.sleep_seconds as nat;
            lemma_padded_times_ten(n);
            lemma_padded_times_ten(n * 10);
            lemma_padded_times_ten(n * 100);
            assert(n * 1000 == (n * 100) * 10) by (nonlinear_arith);
            assert(n * 100 == (n * 10) * 10) by (nonlinear_arith);
            assert(padded(n * 1000, 1) =~= padded(n, 1) + "000"@);
        }
        v.push(budget);
    }
    v.push(params.url.clone());
    let ghost want = process_args(*params, output@);
    assert forall|i: int| 0 <= i < want.len() implies #[trigger] arg_texts(v@)[i] == want[i] by {}
    assert(arg_texts(v@) =~= want);
    v
}

impl CaptureResult {
    /// The process exit status for this outcome: 0 when saved, 1 on any failure.
    pub fn exit_code(&self) -> (r: i32)
        ensures
            r == (if self is Saved {
                0i32
            } else {
                1i32
            }),
    {
        match self {
            CaptureResult::Saved { .. } => 0,
            CaptureResult::Failed { .. } => 1,
        }
    }

    /// The outcome of a run whose parameters were refused.
    pub fn from_validation(e: &ValidationError) -> (r: CaptureResult)
        ensures
            match r {
                CaptureResult::Failed { kind, message } => kind == ErrorKind::Validation
                    && message@ == field_text(e.field) + reason_text(e.reason),
                _ => false,
            },
    {
        CaptureResult::Failed { kind: ErrorKind::Validation, message: e.message() }
    }
}

impl Session {
    /// A run of these parameters on this backend, with its output path resolved: the
    /// one given, or else the default name for a capture made at `now`.
    pub fn new(params: ParameterSet, backend: Backend, now: &Timestamp) -> (s: Session)
        ensures
            s.stage == Stage::Built,
            s.backend == backend,
            s.params == params,
            params.output_path is Some ==> s.output@ == params.output_path.unwrap()@,
            params.output_path is None ==> s.output@ == default_name_text(*now, params.format),
            params.output_path is None ==> is_default_name(s.output@, params.format),
    {
        let output = resolve_output_path(&params, now);
        Session { params, output, backend, stage: Stage::Built }
    }

    /// Moves the run on by one event and returns the action that the new stage asks
    /// for; an event that does not apply in the current stage changes nothing.
    pub fn step(&mut self, event: Event) -> (r: Option<Action>)
        ensures
            match next_stage(old(self).backend, old(self).stage, old(self).params.sleep_seconds, event) {
                None => r is None && *final(self) == *old(self),
                Some(n) => {
                    &&& r is Some
                    &&& is_action_for(*old(self), event, n, r->Some_0)
                    &&& final(self).stage == n
                    &&& final(self).params == old(self).params
                    &&& final(self).output == old(self).output
                    &&& final(self).backend == old(self).backend
                },
            },
    {
        let sleep = self.params.sleep_seconds;
        let binding = match self.backend {
            Backend::Binding => true,
            Backend::Process => false,
        };
        match (self.stage, event) {
            (Stage::Built, Event::Start) => {
                if binding {
                    self.stage = Stage::Navigating;
                    Some(
                        Action::Navigate {
                            url: self.params.url.clone(),
                            width: self.params.width,
                            height: self.params.height,
                            user_agent: self.params.user_agent.clone(),
                        },
                    )
                } else {
                    self.stage = Stage::Running;
                    Some(Action::RunProcess { args: browser_args(&self.params, self.output.as_str()) })
                }
            },
            (Stage::Navigating, Event::Navigated) => {
                if sleep > 0 {
                    self.stage = Stage::Delaying;
                    Some(Action::Sleep { seconds: sleep })
                } else {
                    self.stage = Stage::Capturing;
                    Some(Action::Render { format: self.params.format })
                }
            },
            (Stage::Navigating, Event::NavigationFailed { message }) => {
                self.stage = Stage::Failed(ErrorKind::Navigation);
                Some(Action::Finish { result: CaptureResult::Failed { kind: ErrorKind::Navigation, message } })
            },
            (Stage::Delaying, Event::DelayElapsed) => {
                self.stage = Stage::Capturing;
                Some(Action::Render { format: self.params.format })
            },
            (Stage::Capturing, Event::Rendered { bytes }) => {
                self.stage = Stage::Persisting;
                Some(Action::Write { path: self.output.clone(), bytes })
            },
            (Stage::Capturing, Event::RenderFailed { message }) => {
                self.stage = Stage::Failed(ErrorKind::Render);
                Some(Action::Finish { result: CaptureResult::Failed { kind: ErrorKind::Render, message } })
            },
            (Stage::Persisting, Event::Written) => {
                self.stage = Stage::Saved;
                Some(Action::Finish { result: CaptureResult::Saved { path: self.output.clone() } })
            },
            (Stage::Persisting, Event::WriteFailed { message }) => {
                self.stage = Stage::Failed(ErrorKind::Io);
                Some(
                    Action::Discard {
                        path: self.output.clone(),
                        result: CaptureResult::Failed { kind: ErrorKind::Io, message },
                    },
                )
            },
            (Stage::Running, Event::ProcessExited { success }) => {
                if success {
                    self.stage = Stage::Saved;
                    Some(Action::Finish { result: CaptureResult::Saved { path: self.output.clone() } })
                } else {
                    self.stage = Stage::Failed(ErrorKind::ProcessFailed);
                    Some(
                        Action::Discard {
                            path: self.output.clone(),
                            result: CaptureResult::Failed {
                                kind: ErrorKind::ProcessFailed,
                                message: String::from_str("browser process exited with a failure status"),
                            },
                        },
                    )
                }
            },
            (Stage::Running, Event::LaunchFailed { message }) => {
                self.stage = Stage::Failed(ErrorKind::ProcessFailed);
                Some(Action::Finish { result: CaptureResult::Failed { kind: ErrorKind::ProcessFailed, message } })
            },
            _ => None,
        }
    }
}

/// Every write that a run asks for, every file it asks to remove, every browser
/// process it launches and every saved outcome names the session's output path. With
/// an explicit output path that path is the session's (see `Session::new`), so each
/// run of the same parameters writes to, and replaces, the same file.
pub proof fn lemma_output_targets_session_path(s: Session, e: Event, a: Action)
    requires
        next_stage(s.backend, s.stage, s.params.sleep_seconds, e) is Some,
        is_action_for(s, e, next_stage(s.backend, s.stage, s.params.sleep_seconds, e).unwrap(), a),
    ensures
        match a {
            Action::Write { path, .. } => path == s.output,
            Action::Discard { path, .. } => path == s.output,
            Action::RunProcess { args } => arg_texts(args@)[5] == "--screenshot="@ + s.output@,
            Action::Finish { result: CaptureResult::Saved { path } } => path == s.output,
            _ => true,
        },
{
}

/// With a sleep set, the page is loaded before the wait and captured after it. In
/// an in-process run the sleep is asked for only once navigation has succeeded, for
/// the full duration, and the capture only once the sleep has elapsed. A browser
/// process, which loads and captures by itself, is told to let the sleep, in
/// milliseconds, pass after loading the page and before taking the screenshot.
pub proof fn lemma_capture_waits_for_delay(s: Session, e: Event, a: Action)
    requires
        s.params.sleep_seconds > 0,
        next_stage(s.backend, s.stage, s.params.sleep_seconds, e) is Some,
        is_action_for(s, e, next_stage(s.backend, s.stage, s.params.sleep_seconds, e).unwrap(), a),
    ensures
        a is Sleep ==> s.stage == Stage::Navigating && e is Navigated,
        a is Sleep ==> a->seconds == s.params.sleep_seconds,
        a is Render ==> s.stage == Stage::Delaying && e is DelayElapsed,
        match a {
            Action::RunProcess { args } => arg_texts(args@)[6] == "--virtual-time-budget="@
                + padded((s.params.sleep_seconds * 1000) as nat, 1),
            _ => true,
        },
{
}

/// A run that has saved or failed takes no further step: after a failure nothing
/// is written and nothing is retried.
pub proof fn lemma_finished_is_final(s: Session, e: Event)
    requires
        s.stage is Saved || s.stage is Failed,
    ensures
        next_stage(s.backend, s.stage, s.params.sleep_seconds, e) is None,
{
}

/// A navigation failure ends the run as a navigation error, with the driver's
/// message, and with nothing to remove since nothing was written.
pub proof fn lemma_navigation_failure_reported(s: Session, e: Event, a: Action)
    requires
        s.stage == Stage::Navigating,
        e is NavigationFailed,
        is_action_for(s, e, next_stage(s.backend, s.stage, s.params.sleep_seconds, e).unwrap(), a),
    ensures
        next_stage(s.backend, s.stage, s.params.sleep_seconds, e) == Some(
            Stage::Failed(ErrorKind::Navigation),
        ),
        match a {
            Action::Finish { result: CaptureResult::Failed { kind, message } } => kind
                == ErrorKind::Navigation && message@ == failure_text(e),
            _ => false,
        },
{
}

} // verus!
