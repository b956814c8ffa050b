//! The life of one log pump, the unit that streams one container's log, as a
//! state machine, and the decisions of the readers that forward its lines.
//!
//! The pump's caller does the work: it looks the name up, starts the log
//! process, runs the readers and reaps the process. After each piece of work
//! it reports an event, and the machine answers with the next piece.

use vstd::prelude::*;
use vstd::string::*;
use crate::formatter::{
    lemma_label_tells_names_apart,
    lemma_line_shows_name,
    log_line,
};
use crate::text::has_substring;

verus! {

/// Where a pump stands.
#[derive(Clone, Copy, Debug, PartialEq, Eq, Structural)]
pub enum PumpState {
    /// The container's name is being looked up.
    Resolving,
    /// The log process is being started.
    Launching,
    /// The log process runs and `readers` of its readers have not finished.
    Streaming { readers: u8 },
    /// The log process is being terminated and waited for.
    Reaping,
    /// Nothing is left to do.
    Finished,
}

/// What the caller reports to a pump.
#[derive(Clone, Copy, Debug, PartialEq, Eq, Structural)]
pub enum PumpEvent {
    /// The lookup gave the container's name.
    NameResolved,
    /// The lookup failed.
    NameUnresolved,
    /// The log process runs, with the output streams that it offers.
    Launched { stdout: bool, stderr: bool },
    /// The log process could not be started.
    LaunchFailed,
    /// One reader has finished.
    ReaderFinished,
    /// The log process has been terminated and waited for.
    Reaped,
}

/// What a pump asks its caller to do next.
#[derive(Clone, Copy, Debug, PartialEq, Eq, Structural)]
pub enum PumpAction {
    /// Look the container's name up.
    LookupName,
    /// Start the log process under the display name.
    Launch,
    /// Send the line that reports the failed start, then stop.
    ReportFailure,
    /// Start one reader on each of the named streams.
    StartReaders { stdout: bool, stderr: bool },
    /// Wait for the next reader to finish.
    AwaitReader,
    /// Terminate the log process and wait for it.
    TerminateAndWait,
    /// Stop: the pump is done.
    Exit,
}

/// What a reader has just seen.
#[derive(Clone, Copy, Debug, PartialEq, Eq, Structural)]
pub enum ReaderEvent {
    /// The stream gave a line of text.
    Line,
    /// The stream gave bytes that are no text.
    Undecodable,
    /// The stream has ended.
    EndOfStream,
    /// The channel took the formatted line.
    Delivered,
    /// The channel refused the formatted line: its receiver is gone.
    ReceiverClosed,
}

/// What a reader does next.
#[derive(Clone, Copy, Debug, PartialEq, Eq, Structural)]
pub enum ReaderAction {
    /// Format the line and send it on the channel.
    Forward,
    /// Read the next line of the stream.
    ReadNext,
    /// Stop reading and exit.
    Stop,
}

impl PumpState {
    /// A pump that streams has one or two readers left to wait for.
    pub open spec fn well_formed(self) -> bool {
        self matches PumpState::Streaming { readers } ==> 1 <= readers <= 2
    }

    /// An upper bound on the number of events that a pump in this state can
    /// still take.
    pub open spec fn steps_left(self) -> nat {
        match self {
            PumpState::Resolving => 6,
            PumpState::Launching => 5,
            PumpState::Streaming { readers } => 2 + readers as nat,
            PumpState::Reaping => 1,
            PumpState::Finished => 0,
        }
    }

    /// Whether a log process is running, or waits to be reaped.
    pub open spec fn holds_process(self) -> bool {
        self is Streaming || self is Reaping
    }
}

/// How many readers a log process with these streams gets: one for each.
pub open spec fn reader_count(stdout: bool, stderr: bool) -> u8 {
    if stdout && stderr {
        2
    } else if stdout || stderr {
        1
    } else {
        0
    }
}

/// The state and first action of a new pump: the name is looked up only for
/// a container given by its id.
pub open spec fn initial(is_container_id: bool) -> (PumpState, PumpAction) {
    if is_container_id {
        (PumpState::Resolving, PumpAction::LookupName)
    } else {
        (PumpState::Launching, PumpAction::Launch)
    }
}

/// The state and action that follow `event` in `state`, or `None` where the
/// state does not expect the event.
pub open spec fn next(state: PumpState, event: PumpEvent) -> Option<(PumpState, PumpAction)> {
    match (state, event) {
        (PumpState::Resolving, PumpEvent::NameResolved) => Some(
            (PumpState::Launching, PumpAction::Launch),
        ),
        (PumpState::Resolving, PumpEvent::NameUnresolved) => Some(
            (PumpState::Launching, PumpAction::Launch),
        ),
        (PumpState::Launching, PumpEvent::LaunchFailed) => Some(
            (PumpState::Finished, PumpAction::ReportFailure),
        ),
        (PumpState::Launching, PumpEvent::Launched { stdout, stderr }) => if reader_count(
            stdout,
            stderr,
        ) == 0 {
            Some((PumpState::Reaping, PumpAction::TerminateAndWait))
        } else {
            Some(
                (
                    PumpState::Streaming { readers: reader_count(stdout, stderr) },
                    PumpAction::StartReaders { stdout, stderr },
                ),
            )
        },
        (PumpState::Streaming { readers }, PumpEvent::ReaderFinished) => if readers > 1 {
            Some((PumpState::Streaming { readers: (readers - 1) as u8 }, PumpAction::AwaitReader))
        } else if readers == 1 {
            Some((PumpState::Reaping, PumpAction::TerminateAndWait))
        } else {
            None
        },
        (PumpState::Reaping, PumpEvent::Reaped) => Some((PumpState::Finished, PumpAction::Exit)),
        _ => None,
    }
}

/// What a reader does after `event`: it forwards each line, reads on after
/// each delivery, and stops at the end of its stream, at bytes that are no
/// text, and as soon as the channel refuses a line.
pub open spec fn reader_reaction(event: ReaderEvent) -> ReaderAction {
    match event {
        ReaderEvent::Line => ReaderAction::Forward,
        ReaderEvent::Delivered => ReaderAction::ReadNext,
        ReaderEvent::Undecodable => ReaderAction::Stop,
        ReaderEvent::EndOfStream => ReaderAction::Stop,
        ReaderEvent::ReceiverClosed => ReaderAction::Stop,
    }
}

/// Whether a lookup gave a name: it did not fail, and what it gave is not
/// empty.
pub open spec fn names_container(lookup: Option<Seq<char>>) -> bool {
    lookup matches Some(name) && name.len() > 0
}

/// The name under which a container's log lines appear: the name that the
/// lookup gave, where the container was given by its id and the lookup gave
/// a name, and else the identifier as it was given.
pub open spec fn shown_name(
    container: Seq<char>,
    is_container_id: bool,
    lookup: Option<Seq<char>>,
) -> Seq<char> {
    if is_container_id && names_container(lookup) {
        lookup->0
    } else {
        container
    }
}

/// The view of a lookup's outcome.
pub open spec fn lookup_text(lookup: Option<String>) -> Option<Seq<char>> {
    match lookup {
        Some(name) => Some(name@),
        None => None,
    }
}

/// Starts a pump.
pub fn pump_start(is_container_id: bool) -> (r: (PumpState, PumpAction))
    ensures
        r == initial(is_container_id),
        r.0.well_formed(),
{
    if is_container_id {
        (PumpState::Resolving, PumpAction::LookupName)
    } else {
        (PumpState::Launching, PumpAction::Launch)
    }
}

/// Takes `event` in `state`: gives the next state and what to do, or `None`
/// where the state does not expect the event.
pub fn pump_step(state: PumpState, event: PumpEvent) -> (r: Option<(PumpState, PumpAction)>)
    ensures
        r == next(state, event),
{
    match state {
        PumpState::Resolving => match event {
            PumpEvent::NameResolved => Some((PumpState::Launching, PumpAction::Launch)),
            PumpEvent::NameUnresolved => Some((PumpState::Launching, PumpAction::Launch)),
            _ => None,
        },
        PumpState::Launching => match event {
            PumpEvent::LaunchFailed => Some((PumpState::Finished, PumpAction::ReportFailure)),
            PumpEvent::Launched { stdout, stderr } => {
                if stdout && stderr {
                    Some(
                        (
                            PumpState::Streaming { readers: 2 },
                            PumpAction::StartReaders { stdout, stderr },
                        ),
                    )
                } else if stdout || stderr {
                    Some(
                        (
                            PumpState::Streaming { readers: 1 },
                            PumpAction::StartReaders { stdout, stderr },
                        ),
                    )
                } else {
                    Some((PumpState::Reaping, PumpAction::TerminateAndWait))
                }
            },
            _ => None,
        },
        PumpState::Streaming { readers } => match event {
            PumpEvent::ReaderFinished => {
                if readers > 1 {
                    Some((PumpState::Streaming { readers: readers - 1 }, PumpAction::AwaitReader))
                } else if readers == 1 {
                    Some((PumpState::Reaping, PumpAction::TerminateAndWait))
                } else {
                    None
                }
            },
            _ => None,
        },
        PumpState::Reaping => match event {
            PumpEvent::Reaped => Some((PumpState::Finished, PumpAction::Exit)),
            _ => None,
        },
        PumpState::Finished => None,
    }
}

/// Tells a reader what to do after `event`.
pub fn reader_step(event: ReaderEvent) -> (r: ReaderAction)
    ensures
        r == reader_reaction(event),
{
    match event {
        ReaderEvent::Line => ReaderAction::Forward,
        ReaderEvent::Delivered => ReaderAction::ReadNext,
        ReaderEvent::Undecodable => ReaderAction::Stop,
        ReaderEvent::EndOfStream => ReaderAction::Stop,
        ReaderEvent::ReceiverClosed => ReaderAction::Stop,
    }
}

/// Picks the name under which a container's log lines appear. `lookup` is
/// what the name lookup gave, `None` where it failed or was not made. A
/// lookup that gave an empty name counts as failed.
pub fn display_name(container: &str, is_container_id: bool, lookup: Option<String>) -> (r: String)
    ensures
        r@ == shown_name(container@, is_container_id, lookup_text(lookup)),
{
    match lookup {
        Some(name) => if is_container_id && !name.as_str().is_empty() {
            name
        } else {
            String::from_str(container)
        },
        None => String::from_str(container),
    }
}

/// Every log line of a container whose name the lookup found carries that
/// name in its label, and, where the name differs from the id, is another
/// line than the one that the id would have labelled.
pub proof fn lemma_resolved_name_labels_lines(
    container_id: Seq<char>,
    resolved: Seq<char>,
    use_color: bool,
    timestamp: Seq<char>,
    line: Seq<char>,
)
    requires
        resolved.len() > 0,
    ensures
        shown_name(container_id, true, Some(resolved)) == resolved,
        has_substring(
            log_line(use_color, timestamp, shown_name(container_id, true, Some(resolved)), line),
            resolved,
        ),
        resolved != container_id ==> log_line(
            use_color,
            timestamp,
            shown_name(container_id, true, Some(resolved)),
            line,
        ) != log_line(use_color, timestamp, container_id, line),
{
    lemma_line_shows_name(use_color, timestamp, resolved, line);
    if resolved != container_id {
        lemma_label_tells_names_apart(use_color, timestamp, resolved, container_id, line);
    }
}

/// A lookup that gives no name, because it failed or because what it gave
/// is empty, does not stop the pump: it goes on to start the log process,
/// and every log line carries the identifier as it was given.
pub proof fn lemma_unresolved_name_falls_back(
    container_id: Seq<char>,
    lookup: Option<Seq<char>>,
    use_color: bool,
    timestamp: Seq<char>,
    line: Seq<char>,
)
    requires
        !names_container(lookup),
    ensures
        next(initial(true).0, PumpEvent::NameUnresolved) == Some(
            (PumpState::Launching, PumpAction::Launch),
        ),
        shown_name(container_id, true, lookup) == container_id,
        log_line(use_color, timestamp, shown_name(container_id, true, lookup), line) == log_line(
            use_color,
            timestamp,
            container_id,
            line,
        ),
        has_substring(
            log_line(use_color, timestamp, shown_name(container_id, true, lookup), line),
            container_id,
        ),
{
    lemma_line_shows_name(use_color, timestamp, container_id, line);
}

/// A pump whose log process was started finishes only by reaping it: the
/// one other way into `Finished` is a start that failed, where there is no
/// process.
pub proof fn lemma_finished_only_after_reaping(
    state: PumpState,
    event: PumpEvent,
    after: PumpState,
    action: PumpAction,
)
    requires
        next(state, event) == Some((after, action)),
    ensures
        after is Finished ==> (state is Reaping && event is Reaped && action is Exit) || (state
            is Launching && event is LaunchFailed && action is ReportFailure),
        state.holds_process() && !after.holds_process() ==> state is Reaping && event is Reaped,
        after is Reaping ==> action is TerminateAndWait,
{
}

/// Every event that a pump takes brings it closer to its end, so a pump
/// takes at most six events, and a well-formed pump stays well formed. Once
/// it is finished it takes no event.
pub proof fn lemma_pump_makes_progress(state: PumpState, event: PumpEvent)
    requires
        state.well_formed(),
    ensures
        next(state, event) matches Some((after, _)) ==> after.well_formed() && after.steps_left()
            < state.steps_left(),
        state is Finished ==> next(state, event) is None,
        state is Streaming ==> next(state, PumpEvent::ReaderFinished) is Some,
        state is Reaping ==> next(state, PumpEvent::Reaped) is Some,
{
}

/// The state of a pump that was in `state` and took `events` one after the
/// other, or `None` where one of them came out of place.
pub open spec fn after(state: PumpState, events: Seq<PumpEvent>) -> Option<PumpState>
    decreases events.len(),
{
    if events.len() == 0 {
        Some(state)
    } else {
        match next(state, events[0]) {
            Some((following, _)) => after(following, events.drop_first()),
            None => None,
        }
    }
}

/// No pump spins: a run of events that a pump takes is no longer than the
/// bound of the state it started in, six for a new pump, and it leaves the
/// pump well formed.
pub proof fn lemma_runs_are_bounded(state: PumpState, events: Seq<PumpEvent>)
    requires
        state.well_formed(),
    ensures
        after(state, events) matches Some(last) ==> last.well_formed() && events.len()
            + last.steps_left() <= state.steps_left(),
        after(state, events) is Some ==> events.len() <= 6,
    decreases events.len(),
{
    if events.len() > 0 {
        lemma_pump_makes_progress(state, events[0]);
        match next(state, events[0]) {
            Some((following, _)) => {
                lemma_runs_are_bounded(following, events.drop_first());
            },
            None => {},
        }
    }
}

/// A run that ends a pump ends with the reaping of its log process, or,
/// where no process was ever started, with the start that failed: no run
/// leaves a process behind.
pub proof fn lemma_finished_runs_end_in_reaping(state: PumpState, events: Seq<PumpEvent>)
    requires
        events.len() > 0,
        after(state, events) == Some(PumpState::Finished),
    ensures
        events.last() is Reaped || events.last() is LaunchFailed,
        state.holds_process() ==> events.last() is Reaped,
    decreases events.len(),
{
    match next(state, events[0]) {
        Some((following, action)) => {
            lemma_finished_only_after_reaping(state, events[0], following, action);
            let rest = events.drop_first();
            if rest.len() > 0 {
                assert(rest.last() == events.last());
                assert(next(following, rest[0]) is Some);
                lemma_finished_runs_end_in_reaping(following, rest);
            }
        },
        None => {},
    }
}

/// A reader whose send was refused stops at once, and so does one whose
/// stream ends or gives bytes that are no text: a reader goes on only after
/// a line that was delivered.
pub proof fn lemma_reader_stops_when_receiver_closes(event: ReaderEvent)
    ensures
        reader_reaction(ReaderEvent::ReceiverClosed) == ReaderAction::Stop,
        reader_reaction(event) == ReaderAction::ReadNext <==> event == ReaderEvent::Delivered,
        reader_reaction(event) == ReaderAction::Forward <==> event == ReaderEvent::Line,
{
}

} // verus!
