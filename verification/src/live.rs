//! Running a command with live, filtered output, as a state machine.
//!
//! The caller performs each [`Action`] and reports what happened as an
//! [`Event`]; [`LiveRun::step`] decides what comes next. Every line read from
//! either stream goes into the buffer with a newline behind it, in the order
//! of arrival, and is offered to the caller's filter as it is; what the
//! filter renders is echoed at once. The run ends only when both streams
//! have ended and the process has been seen to have exited; the status that
//! is reported is the one that the final wait returned.

use crate::error_message::ErrorMessage;
use crate::process::captured_text;
use crate::process::capture_output;
use crate::process::spawn_failed_context;
use crate::process::spawn_failed_message;
use crate::process::ExitStatus;
use crate::process::ProcessOutput;
use crate::text::enclose;
use vstd::prelude::*;
use vstd::string::*;

verus! {

/// One of the two output streams of the child.
#[derive(Clone, Copy, Debug, PartialEq, Eq, Structural)]
pub enum Stream {
    Stdout,
    Stderr,
}

/// What the run is waiting for.
#[derive(Clone, Copy, Debug, PartialEq, Eq, Structural)]
pub enum Phase {
    /// The answer to [`Action::Spawn`].
    Spawning,
    /// The answer to [`Action::ReadLine`].
    Reading,
    /// The answer to [`Action::Filter`].
    Filtering,
    /// The answer to [`Action::Echo`].
    Echoing,
    /// The answer to [`Action::CheckExit`].
    Polling,
    /// The answer to [`Action::WaitForExit`].
    Waiting,
    /// Nothing: the run has finished.
    Done,
}

/// What happened when the caller performed the last action. A `cause` is the
/// debug rendering of the error that the operating system reported.
#[derive(Debug)]
pub enum Event {
    /// The child runs; for each stream, whether its pipe could be taken.
    Spawned { stdout: bool, stderr: bool },
    /// The child could not be spawned.
    SpawnFailed { cause: String },
    /// A line arrived on `stream`; `text` is the line without its terminator.
    Line { stream: Stream, text: String },
    /// `stream` has ended.
    EndOfStream { stream: Stream },
    /// Reading from `stream` failed.
    ReadFailed { stream: Stream, cause: String },
    /// The filter was called; what it rendered, if anything.
    Filtered { rendered: Option<String> },
    /// The echoed text was written and flushed.
    Flushed,
    /// Flushing the echoed text failed.
    FlushFailed { cause: String },
    /// The child is still running.
    Running,
    /// The child has exited.
    Exited,
    /// The child's state could not be queried.
    LivenessFailed { cause: String },
    /// The final wait returned.
    Waited { output: ProcessOutput },
    /// The final wait failed.
    WaitFailed { cause: String },
}

/// What the caller is to do next.
#[derive(Debug)]
pub enum Action {
    /// Spawn the command with stdin closed and both output streams piped.
    Spawn,
    /// Await the next line from whichever of the named streams has one first.
    ReadLine { stdout: bool, stderr: bool },
    /// Call the filter with `line`, the text of the line that arrived.
    Filter { line: String },
    /// Write `text` to the live output and flush it.
    Echo { text: String },
    /// Ask, without blocking, whether the child has exited.
    CheckExit,
    /// Wait for the child to exit and collect what is left of its output.
    WaitForExit,
    /// Return `result`.
    Finish { result: Result<(ExitStatus, String), ErrorMessage> },
}

/// An [`Event`] with its texts and bytes as sequences.
pub enum EventModel {
    Spawned { stdout: bool, stderr: bool },
    SpawnFailed { cause: Seq<char> },
    Line { stream: Stream, text: Seq<char> },
    EndOfStream { stream: Stream },
    ReadFailed { stream: Stream, cause: Seq<char> },
    Filtered { rendered: Option<Seq<char>> },
    Flushed,
    FlushFailed { cause: Seq<char> },
    Running,
    Exited,
    LivenessFailed { cause: Seq<char> },
    Waited { status: ExitStatus, out: Seq<u8>, err: Seq<u8> },
    WaitFailed { cause: Seq<char> },
}

/// A failure as its chain of messages, with whether the chain ends in the
/// rendering of an error that the operating system reported.
pub struct FailureModel {
    pub chain: Seq<Seq<char>>,
    pub foreign: bool,
}

/// An [`Action`] with its texts as sequences and a failure as its chain.
pub enum ActionModel {
    Spawn,
    ReadLine { stdout: bool, stderr: bool },
    Filter { line: Seq<char> },
    Echo { text: Seq<char> },
    CheckExit,
    WaitForExit,
    Finish { result: Result<(ExitStatus, Seq<char>), FailureModel> },
}

/// The state of a run: the command, everything buffered so far, which streams
/// are still open, whether the child has been seen to have exited, and what
/// the run is waiting for.
pub struct LiveModel {
    pub command: Seq<char>,
    pub buffer: Seq<char>,
    pub stdout_open: bool,
    pub stderr_open: bool,
    pub exited: bool,
    pub phase: Phase,
}

impl View for Event {
    type V = EventModel;

    open spec fn view(&self) -> EventModel {
        match *self {
            Event::Spawned { stdout, stderr } => EventModel::Spawned { stdout, stderr },
            Event::SpawnFailed { cause } => EventModel::SpawnFailed { cause: cause@ },
            Event::Line { stream, text } => EventModel::Line { stream, text: text@ },
            Event::EndOfStream { stream } => EventModel::EndOfStream { stream },
            Event::ReadFailed { stream, cause } => EventModel::ReadFailed { stream, cause: cause@ },
            Event::Filtered { rendered } => EventModel::Filtered {
                rendered: match rendered {
                    Some(text) => Some(text@),
                    None => None,
                },
            },
            Event::Flushed => EventModel::Flushed,
            Event::FlushFailed { cause } => EventModel::FlushFailed { cause: cause@ },
            Event::Running => EventModel::Running,
            Event::Exited => EventModel::Exited,
            Event::LivenessFailed { cause } => EventModel::LivenessFailed { cause: cause@ },
            Event::Waited { output } => EventModel::Waited {
                status: output.status,
                out: output.stdout@,
                err: output.stderr@,
            },
            Event::WaitFailed { cause } => EventModel::WaitFailed { cause: cause@ },
        }
    }
}

impl View for Action {
    type V = ActionModel;

    open spec fn view(&self) -> ActionModel {
        match *self {
            Action::Spawn => ActionModel::Spawn,
            Action::ReadLine { stdout, stderr } => ActionModel::ReadLine { stdout, stderr },
            Action::Filter { line } => ActionModel::Filter { line: line@ },
            Action::Echo { text } => ActionModel::Echo { text: text@ },
            Action::CheckExit => ActionModel::CheckExit,
            Action::WaitForExit => ActionModel::WaitForExit,
            Action::Finish { result } => ActionModel::Finish {
                result: match result {
                    Ok((status, text)) => Ok((status, text@)),
                    Err(error) => Err(
                        FailureModel { chain: error@, foreign: error.ends_foreign() },
                    ),
                },
            },
        }
    }
}

/// The context of a stream whose pipe could not be taken.
pub open spec fn missing_pipe_message(stream: Stream, cmd: Seq<char>) -> Seq<char> {
    match stream {
        Stream::Stdout => "Could not take stdout for process '"@ + cmd + "' to exit"@,
        Stream::Stderr => "Could not take stderr for process '"@ + cmd + "' to exit"@,
    }
}

/// The context of a failed read from `stream`.
pub open spec fn read_failed_message(stream: Stream, cmd: Seq<char>) -> Seq<char> {
    match stream {
        Stream::Stdout => "Could not read next line from stdout for process '"@ + cmd + "'"@,
        Stream::Stderr => "Could not read next line from stderr for process '"@ + cmd + "'"@,
    }
}

/// The context of a failed flush of the live output.
pub open spec fn flush_failed_message(cmd: Seq<char>) -> Seq<char> {
    "Failed to flush output buffer of '"@ + cmd + "'"@
}

/// The context of a failed liveness check or final wait.
pub open spec fn exit_wait_failed_message(cmd: Seq<char>) -> Seq<char> {
    "Failed to wait for process '"@ + cmd + "' to exit"@
}

/// A line as it is buffered: with a newline behind it.
pub open spec fn terminated(text: Seq<char>) -> Seq<char> {
    text.push('\n')
}

/// The state before anything has happened.
pub open spec fn start_model(cmd: Seq<char>) -> LiveModel {
    LiveModel {
        command: cmd,
        buffer: Seq::empty(),
        stdout_open: false,
        stderr_open: false,
        exited: false,
        phase: Phase::Spawning,
    }
}

/// Whether `stream` has not ended yet.
pub open spec fn is_open(state: LiveModel, stream: Stream) -> bool {
    match stream {
        Stream::Stdout => state.stdout_open,
        Stream::Stderr => state.stderr_open,
    }
}

/// Whether `event` answers the action that `state` is waiting on.
pub open spec fn accepts(state: LiveModel, event: EventModel) -> bool {
    match event {
        EventModel::Spawned { .. } | EventModel::SpawnFailed { .. } => state.phase
            == Phase::Spawning,
        EventModel::Line { stream, .. } | EventModel::EndOfStream { stream } | EventModel::ReadFailed {
            stream,
            ..
        } => state.phase == Phase::Reading && is_open(state, stream),
        EventModel::Filtered { .. } => state.phase == Phase::Filtering,
        EventModel::Flushed | EventModel::FlushFailed { .. } => state.phase == Phase::Echoing,
        EventModel::Running | EventModel::Exited | EventModel::LivenessFailed { .. } => state.phase
            == Phase::Polling,
        EventModel::Waited { .. } | EventModel::WaitFailed { .. } => state.phase == Phase::Waiting,
    }
}

/// The end of a run in a failure with one context and, behind it, the cause
/// that was reported.
pub open spec fn fail(state: LiveModel, context: Seq<char>, cause: Option<Seq<char>>) -> (
    LiveModel,
    ActionModel,
) {
    (
        LiveModel { phase: Phase::Done, ..state },
        ActionModel::Finish {
            result: Err(
                FailureModel {
                    chain: match cause {
                        Some(cause) => seq![context, cause],
                        None => seq![context],
                    },
                    foreign: cause is Some,
                },
            ),
        },
    )
}

/// What follows once the child's liveness is known: read on while a stream
/// is open; wait for the exit once both have ended and the child has exited;
/// otherwise ask again.
pub open spec fn resume(state: LiveModel) -> (LiveModel, ActionModel) {
    if state.stdout_open || state.stderr_open {
        (
            LiveModel { phase: Phase::Reading, ..state },
            ActionModel::ReadLine { stdout: state.stdout_open, stderr: state.stderr_open },
        )
    } else if state.exited {
        (LiveModel { phase: Phase::Waiting, ..state }, ActionModel::WaitForExit)
    } else {
        (LiveModel { phase: Phase::Polling, ..state }, ActionModel::CheckExit)
    }
}

/// The liveness check that follows every line and every end of a stream.
pub open spec fn poll(state: LiveModel) -> (LiveModel, ActionModel) {
    (LiveModel { phase: Phase::Polling, ..state }, ActionModel::CheckExit)
}

/// The state with `stream` ended.
pub open spec fn close(state: LiveModel, stream: Stream) -> LiveModel {
    match stream {
        Stream::Stdout => LiveModel { stdout_open: false, ..state },
        Stream::Stderr => LiveModel { stderr_open: false, ..state },
    }
}

/// The state and the action that follow `event` in `state`.
pub open spec fn next(state: LiveModel, event: EventModel) -> (LiveModel, ActionModel) {
    match event {
        EventModel::Spawned { stdout, stderr } => {
            if !stdout {
                fail(state, missing_pipe_message(Stream::Stdout, state.command), None)
            } else if !stderr {
                fail(state, missing_pipe_message(Stream::Stderr, state.command), None)
            } else {
                (
                    LiveModel {
                        stdout_open: true,
                        stderr_open: true,
                        phase: Phase::Reading,
                        ..state
                    },
                    ActionModel::ReadLine { stdout: true, stderr: true },
                )
            }
        },
        EventModel::SpawnFailed { cause } => fail(
            state,
            spawn_failed_message(state.command),
            Some(cause),
        ),
        EventModel::Line { stream, text } => (
            LiveModel {
                buffer: state.buffer + terminated(text),
                phase: Phase::Filtering,
                ..state
            },
            ActionModel::Filter { line: text },
        ),
        EventModel::EndOfStream { stream } => poll(close(state, stream)),
        EventModel::ReadFailed { stream, cause } => fail(
            state,
            read_failed_message(stream, state.command),
            Some(cause),
        ),
        EventModel::Filtered { rendered } => match rendered {
            Some(text) => (LiveModel { phase: Phase::Echoing, ..state }, ActionModel::Echo { text }),
            None => poll(state),
        },
        EventModel::Flushed => poll(state),
        EventModel::FlushFailed { cause } => fail(
            state,
            flush_failed_message(state.command),
            Some(cause),
        ),
        EventModel::Running => resume(state),
        EventModel::Exited => resume(LiveModel { exited: true, ..state }),
        EventModel::LivenessFailed { cause } => fail(
            state,
            exit_wait_failed_message(state.command),
            Some(cause),
        ),
        EventModel::Waited { status, out, err } => {
            let buffer = state.buffer + captured_text(out, err);
            (
                LiveModel { buffer, phase: Phase::Done, ..state },
                ActionModel::Finish { result: Ok((status, buffer)) },
            )
        },
        EventModel::WaitFailed { cause } => fail(
            state,
            exit_wait_failed_message(state.command),
            Some(cause),
        ),
    }
}

/// The state after `events` have been taken one after the other from `state`.
pub open spec fn state_after(state: LiveModel, events: Seq<EventModel>) -> LiveModel
    decreases events.len(),
{
    if events.len() == 0 {
        state
    } else {
        next(state_after(state, events.drop_last()), events.last()).0
    }
}

/// The action that answers the last of `events`.
pub open spec fn last_action(state: LiveModel, events: Seq<EventModel>) -> ActionModel
    recommends
        events.len() > 0,
{
    next(state_after(state, events.drop_last()), events.last()).1
}

/// Whether each of `events` answers the action that was issued before it.
pub open spec fn in_order(state: LiveModel, events: Seq<EventModel>) -> bool
    decreases events.len(),
{
    events.len() == 0 || (in_order(state, events.drop_last()) && accepts(
        state_after(state, events.drop_last()),
        events.last(),
    ))
}

/// What `events` put into the buffer: every line with a newline behind it, in
/// the order of arrival, and what the final wait still collected.
pub open spec fn collected_text(events: Seq<EventModel>) -> Seq<char>
    decreases events.len(),
{
    if events.len() == 0 {
        Seq::empty()
    } else {
        collected_text(events.drop_last()) + match events.last() {
            EventModel::Line { text, .. } => terminated(text),
            EventModel::Waited { out, err, .. } => captured_text(out, err),
            _ => Seq::empty(),
        }
    }
}

/// The lines that arrived on `stream`, in the order in which they arrived.
pub open spec fn lines_of(events: Seq<EventModel>, stream: Stream) -> Seq<Seq<char>>
    decreases events.len(),
{
    if events.len() == 0 {
        Seq::empty()
    } else {
        lines_of(events.drop_last(), stream) + match events.last() {
            EventModel::Line { stream: from, text } if from == stream => seq![text],
            _ => Seq::empty(),
        }
    }
}

/// The lines of both streams in the order of arrival, each with the stream
/// that it arrived on.
pub open spec fn arrivals(events: Seq<EventModel>) -> Seq<(Stream, Seq<char>)>
    decreases events.len(),
{
    if events.len() == 0 {
        Seq::empty()
    } else {
        arrivals(events.drop_last()) + match events.last() {
            EventModel::Line { stream, text } => seq![(stream, text)],
            _ => Seq::empty(),
        }
    }
}

/// The lines in `arrivals` with a newline behind each.
pub open spec fn joined(arrivals: Seq<(Stream, Seq<char>)>) -> Seq<char>
    decreases arrivals.len(),
{
    if arrivals.len() == 0 {
        Seq::empty()
    } else {
        joined(arrivals.drop_last()) + terminated(arrivals.last().1)
    }
}

/// The lines in `arrivals` that came from `stream`.
pub open spec fn from_stream(arrivals: Seq<(Stream, Seq<char>)>, stream: Stream) -> Seq<
    Seq<char>,
>
    decreases arrivals.len(),
{
    if arrivals.len() == 0 {
        Seq::empty()
    } else {
        from_stream(arrivals.drop_last(), stream) + if arrivals.last().0 == stream {
            seq![arrivals.last().1]
        } else {
            Seq::empty()
        }
    }
}

/// What holds of every state that a run passes through.
pub open spec fn consistent(state: LiveModel, events: Seq<EventModel>) -> bool {
    &&& state.buffer == collected_text(events)
    &&& state.phase == Phase::Waiting ==> state.exited && !state.stdout_open && !state.stderr_open
    &&& state.exited ==> events.contains(EventModel::Exited)
    &&& state.phase != Phase::Spawning && state.phase != Phase::Done && !state.stdout_open
        ==> events.contains(EventModel::EndOfStream { stream: Stream::Stdout })
    &&& state.phase != Phase::Spawning && state.phase != Phase::Done && !state.stderr_open
        ==> events.contains(EventModel::EndOfStream { stream: Stream::Stderr })
    &&& state.phase != Phase::Done ==> forall|i: int|
        0 <= i < events.len() ==> !(#[trigger] events[i] is Waited)
}

/// Every state that a run passes through is consistent with the events that
/// led to it.
pub proof fn lemma_consistent(cmd: Seq<char>, events: Seq<EventModel>)
    requires
        in_order(start_model(cmd), events),
    ensures
        consistent(state_after(start_model(cmd), events), events),
    decreases events.len(),
{
    let start = start_model(cmd);
    if events.len() == 0 {
    } else {
        let before = events.drop_last();
        let event = events.last();
        lemma_consistent(cmd, before);
        let state = state_after(start, before);
        let after = state_after(start, events);
        assert(after == next(state, event).0);
        assert forall|e: EventModel| before.contains(e) implies events.contains(e) by {
            let i = choose|i: int| 0 <= i < before.len() && before[i] == e;
            assert(events[i] == e);
        }
        assert(events.contains(event)) by {
            assert(events[events.len() - 1] == event);
        }
        assert(after.phase != Phase::Done ==> forall|i: int|
            0 <= i < events.len() ==> !(#[trigger] events[i] is Waited)) by {
            if after.phase != Phase::Done {
                assert forall|i: int| 0 <= i < events.len() implies !(#[trigger] events[i] is Waited) by {
                    if i < before.len() {
                        assert(before[i] == events[i]);
                    }
                }
            }
        }
        assert(after.buffer =~= collected_text(events));
    }
}

/// Where the filter never renders anything, nothing is ever echoed.
pub proof fn law_silent_filter_never_echoes(cmd: Seq<char>, events: Seq<EventModel>, i: int)
    requires
        in_order(start_model(cmd), events),
        forall|j: int|
            0 <= j < events.len() ==> (#[trigger] events[j] matches EventModel::Filtered {
                rendered,
            } ==> rendered is None),
        0 <= i < events.len(),
    ensures
        !(last_action(start_model(cmd), events.take(i + 1)) is Echo),
{
    let upto = events.take(i + 1);
    assert(upto.last() == events[i]);
}

/// Each line that arrives is offered to the filter at once and as it is, and
/// nothing else is ever offered to it: the filter is called once for each
/// line, in the order of arrival, with the text of that line.
pub proof fn law_filter_sees_each_line(cmd: Seq<char>, events: Seq<EventModel>, i: int)
    requires
        in_order(start_model(cmd), events),
        0 <= i < events.len(),
    ensures
        events[i] matches EventModel::Line { text, .. } ==> last_action(
            start_model(cmd),
            events.take(i + 1),
        ) == (ActionModel::Filter { line: text }),
        last_action(start_model(cmd), events.take(i + 1)) is Filter ==> events[i] is Line,
{
    let upto = events.take(i + 1);
    assert(upto.last() == events[i]);
}

/// Whatever the filter does, the buffer holds every line that arrived, each
/// with a newline behind it, in the order of arrival; so the lines of each
/// stream stand in it in the order in which that stream produced them. What
/// a finished run returns is that buffer.
pub proof fn law_buffer_holds_every_line(cmd: Seq<char>, events: Seq<EventModel>)
    requires
        in_order(start_model(cmd), events),
    ensures
        state_after(start_model(cmd), events).buffer == collected_text(events),
        state_after(start_model(cmd), events).phase != Phase::Done ==> collected_text(events)
            == joined(arrivals(events)),
        from_stream(arrivals(events), Stream::Stdout) == lines_of(events, Stream::Stdout),
        from_stream(arrivals(events), Stream::Stderr) == lines_of(events, Stream::Stderr),
        events.len() > 0 ==> (last_action(start_model(cmd), events) matches ActionModel::Finish {
            result: Ok(returned),
        } ==> returned.1 == collected_text(events)),
{
    lemma_consistent(cmd, events);
    lemma_streams_keep_order(events, Stream::Stdout);
    lemma_streams_keep_order(events, Stream::Stderr);
    if state_after(start_model(cmd), events).phase != Phase::Done {
        lemma_lines_only(events);
    }
    if events.len() > 0 {
        lemma_in_order_prefix(start_model(cmd), events);
        lemma_consistent(cmd, events.drop_last());
    }
}

/// Each but the last of the events of an ordered run are an ordered run.
pub proof fn lemma_in_order_prefix(state: LiveModel, events: Seq<EventModel>)
    requires
        in_order(state, events),
        events.len() > 0,
    ensures
        in_order(state, events.drop_last()),
{
}

proof fn lemma_streams_keep_order(events: Seq<EventModel>, stream: Stream)
    ensures
        from_stream(arrivals(events), stream) == lines_of(events, stream),
    decreases events.len(),
{
    if events.len() > 0 {
        lemma_streams_keep_order(events.drop_last(), stream);
        let before = arrivals(events.drop_last());
        match events.last() {
            EventModel::Line { stream: from, text } => {
                let all = arrivals(events);
                assert(all =~= before.push((from, text)));
                assert(all.drop_last() =~= before);
            },
            _ => {
                assert(arrivals(events) =~= before);
            },
        }
    }
}

proof fn lemma_lines_only(events: Seq<EventModel>)
    requires
        forall|i: int| 0 <= i < events.len() ==> !(#[trigger] events[i] is Waited),
    ensures
        collected_text(events) == joined(arrivals(events)),
    decreases events.len(),
{
    if events.len() > 0 {
        let rest = events.drop_last();
        assert forall|i: int| 0 <= i < rest.len() implies !(#[trigger] rest[i] is Waited) by {
            assert(rest[i] == events[i]);
        }
        lemma_lines_only(rest);
        let before = arrivals(rest);
        assert(!(events[events.len() - 1] is Waited));
        match events.last() {
            EventModel::Line { stream, text } => {
                let all = arrivals(events);
                assert(all =~= before.push((stream, text)));
                assert(all.drop_last() =~= before);
            },
            _ => {
                assert(arrivals(events) =~= before);
                assert(collected_text(events) =~= collected_text(rest));
            },
        }
    }
}

/// A run returns a status only after both streams have ended and the child
/// has been seen to have exited, and the status is the one that the final
/// wait returned.
pub proof fn law_status_comes_from_final_wait(cmd: Seq<char>, events: Seq<EventModel>)
    requires
        in_order(start_model(cmd), events),
        events.len() > 0,
        last_action(start_model(cmd), events) matches ActionModel::Finish { result: Ok(_) },
    ensures
        events.last() is Waited,
        last_action(start_model(cmd), events) matches ActionModel::Finish {
            result: Ok(returned),
        } && events.last() matches EventModel::Waited { status, .. } && returned.0 == status,
        events.drop_last().contains(EventModel::Exited),
        events.drop_last().contains(EventModel::EndOfStream { stream: Stream::Stdout }),
        events.drop_last().contains(EventModel::EndOfStream { stream: Stream::Stderr }),
{
    lemma_consistent(cmd, events.drop_last());
}

/// A run with live output in progress.
#[derive(Debug)]
pub struct LiveRun {
    command: String,
    buffer: String,
    stdout_open: bool,
    stderr_open: bool,
    exited: bool,
    phase: Phase,
}

impl View for LiveRun {
    type V = LiveModel;

    closed spec fn view(&self) -> LiveModel {
        LiveModel {
            command: self.command@,
            buffer: self.buffer@,
            stdout_open: self.stdout_open,
            stderr_open: self.stderr_open,
            exited: self.exited,
            phase: self.phase,
        }
    }
}

/// A failure with `context` in front of the reported `cause`.
fn failure(context: String, cause: Option<String>) -> (action: Action)
    ensures
        action@ == (ActionModel::Finish {
            result: Err(
                FailureModel {
                    chain: match cause {
                        Some(cause) => seq![context@, cause@],
                        None => seq![context@],
                    },
                    foreign: cause is Some,
                },
            ),
        }),
{
    let error = match cause {
        Some(cause) => {
            let error = ErrorMessage::with_context(context, ErrorMessage::foreign(cause));
            assert(error@ =~= seq![context@, cause@]);
            error
        },
        None => ErrorMessage::new(context),
    };
    Action::Finish { result: Err(error) }
}

impl LiveRun {
    /// A run of `cmd` that has not begun, and the action that begins it.
    pub fn start(cmd: &str) -> (begun: (LiveRun, Action))
        ensures
            begun.0@ == start_model(cmd@),
            begun.1@ == ActionModel::Spawn,
    {
        (
            LiveRun {
                command: cmd.to_owned(),
                buffer: String::new(),
                stdout_open: false,
                stderr_open: false,
                exited: false,
                phase: Phase::Spawning,
            },
            Action::Spawn,
        )
    }

    /// What the run is waiting for.
    pub fn phase(&self) -> (phase: Phase)
        ensures
            phase == self@.phase,
    {
        self.phase
    }

    /// Everything buffered so far.
    pub fn buffer(&self) -> (text: &str)
        ensures
            text@ == self@.buffer,
    {
        self.buffer.as_str()
    }

    /// Whether `event` answers the action that the run is waiting on.
    pub fn accepts(&self, event: &Event) -> (ok: bool)
        ensures
            ok == accepts(self@, event@),
    {
        match event {
            Event::Spawned { .. } | Event::SpawnFailed { .. } => self.phase == Phase::Spawning,
            Event::Line { stream, .. } | Event::EndOfStream { stream } | Event::ReadFailed {
                stream,
                ..
            } => self.phase == Phase::Reading && match stream {
                Stream::Stdout => self.stdout_open,
                Stream::Stderr => self.stderr_open,
            },
            Event::Filtered { .. } => self.phase == Phase::Filtering,
            Event::Flushed | Event::FlushFailed { .. } => self.phase == Phase::Echoing,
            Event::Running | Event::Exited | Event::LivenessFailed { .. } => self.phase
                == Phase::Polling,
            Event::Waited { .. } | Event::WaitFailed { .. } => self.phase == Phase::Waiting,
        }
    }

    fn finished(self, context: String, cause: Option<String>) -> (r: (LiveRun, Action))
        ensures
            (r.0@, r.1@) == fail(self@, context@, match cause {
                Some(cause) => Some(cause@),
                None => None,
            }),
    {
        let mut run = self;
        run.phase = Phase::Done;
        (run, failure(context, cause))
    }

    fn polling(self) -> (r: (LiveRun, Action))
        ensures
            (r.0@, r.1@) == poll(self@),
    {
        let mut run = self;
        run.phase = Phase::Polling;
        (run, Action::CheckExit)
    }

    fn resumed(self) -> (r: (LiveRun, Action))
        ensures
            (r.0@, r.1@) == resume(self@),
    {
        let mut run = self;
        if run.stdout_open || run.stderr_open {
            run.phase = Phase::Reading;
            let action = Action::ReadLine { stdout: run.stdout_open, stderr: run.stderr_open };
            (run, action)
        } else if run.exited {
            run.phase = Phase::Waiting;
            (run, Action::WaitForExit)
        } else {
            run.phase = Phase::Polling;
            (run, Action::CheckExit)
        }
    }

    /// Takes `event` where it answers the last action, and decides what is to
    /// be done next; an event that does not answer it changes nothing.
    pub fn offer(self, event: Event) -> (r: (LiveRun, Option<Action>))
        ensures
            accepts(self@, event@) ==> (r.1 matches Some(action) && (r.0@, action@) == next(
                self@,
                event@,
            )),
            !accepts(self@, event@) ==> r.1 is None && r.0@ == self@,
    {
        if self.accepts(&event) {
            let (run, action) = self.step(event);
            (run, Some(action))
        } else {
            (self, None)
        }
    }

    /// Takes `event`, the answer to the last action, and decides what is to
    /// be done next.
    pub fn step(self, event: Event) -> (r: (LiveRun, Action))
        requires
            accepts(self@, event@),
        ensures
            (r.0@, r.1@) == next(self@, event@),
    {
        let mut run = self;
        match event {
            Event::Spawned { stdout, stderr } => {
                if !stdout {
                    let context = enclose(
                        "Could not take stdout for process '",
                        run.command.as_str(),
                        "' to exit",
                    );
                    run.finished(context, None)
                } else if !stderr {
                    let context = enclose(
                        "Could not take stderr for process '",
                        run.command.as_str(),
                        "' to exit",
                    );
                    run.finished(context, None)
                } else {
                    run.stdout_open = true;
                    run.stderr_open = true;
                    run.phase = Phase::Reading;
                    (run, Action::ReadLine { stdout: true, stderr: true })
                }
            },
            Event::SpawnFailed { cause } => {
                let context = spawn_failed_context(run.command.as_str());
                run.finished(context, Some(cause))
            },
            Event::Line { stream, text } => {
                run.buffer.append(text.as_str());
                run.buffer.append("\n");
                proof {
                    reveal_strlit("\n");
                    assert(run.buffer@ =~= self.buffer@ + terminated(text@));
                }
                run.phase = Phase::Filtering;
                (run, Action::Filter { line: text })
            },
            Event::EndOfStream { stream } => {
                match stream {
                    Stream::Stdout => {
                        run.stdout_open = false;
                    },
                    Stream::Stderr => {
                        run.stderr_open = false;
                    },
                }
                run.polling()
            },
            Event::ReadFailed { stream, cause } => {
                let context = match stream {
                    Stream::Stdout => enclose(
                        "Could not read next line from stdout for process '",
                        run.command.as_str(),
                        "'",
                    ),
                    Stream::Stderr => enclose(
                        "Could not read next line from stderr for process '",
                        run.command.as_str(),
                        "'",
                    ),
                };
                run.finished(context, Some(cause))
            },
            Event::Filtered { rendered } => match rendered {
                Some(text) => {
                    run.phase = Phase::Echoing;
                    (run, Action::Echo { text })
                },
                None => run.polling(),
            },
            Event::Flushed => run.polling(),
            Event::FlushFailed { cause } => {
                let context = enclose("Failed to flush output buffer of '", run.command.as_str(), "'");
                run.finished(context, Some(cause))
            },
            Event::Running => run.resumed(),
            Event::Exited => {
                run.exited = true;
                run.resumed()
            },
            Event::LivenessFailed { cause } => {
                let context = enclose(
                    "Failed to wait for process '",
                    run.command.as_str(),
                    "' to exit",
                );
                run.finished(context, Some(cause))
            },
            Event::Waited { output } => {
                let status = capture_output(&mut run.buffer, output);
                run.phase = Phase::Done;
                let text = run.buffer.clone();
                (run, Action::Finish { result: Ok((status, text)) })
            },
            Event::WaitFailed { cause } => {
                let context = enclose(
                    "Failed to wait for process '",
                    run.command.as_str(),
                    "' to exit",
                );
                run.finished(context, Some(cause))
            },
        }
    }
}

} // verus!
