//! The heartbeat loop as a state machine: from the phase of the loop and the
//! event that arrived to the next phase and what the driver has to do.
//!
//! The driver waits for the timer and the two signals at once, hands over the
//! event that came first, and carries out the action. After a push it hands
//! over the outcome before it waits again, so a request that is under way is
//! never cut short by a signal.

use crate::config::{Config, ConfigView};
use crate::decimal::{decimal_text, to_decimal};
use crate::logging::{Level, LogEntry, LogRecord};
use crate::push::{
    is_success_code,
    names_status,
    report,
    report_record,
    success_record,
    PushOutcome,
    PushResult,
};
use vstd::prelude::*;
use vstd::string::*;

verus! {

/// Where the loop stands. It starts `Running` and ends `Stopped`; nothing
/// leads back.
#[derive(Clone, Copy, Debug, PartialEq, Eq, Structural)]
pub enum Phase {
    Running,
    Stopped,
}

/// What the loop reacts to.
#[derive(Debug, PartialEq, Eq)]
pub enum Event {
    /// The timer fired.
    Tick,
    /// The push that the last tick asked for has ended.
    Pushed(PushOutcome),
    /// An interactive interrupt arrived.
    Interrupt,
    /// A request to terminate arrived.
    Terminate,
}

/// An event as a mathematical value.
pub enum EventView {
    Tick,
    Pushed(PushResult),
    Interrupt,
    Terminate,
}

impl View for Event {
    type V = EventView;

    open spec fn view(&self) -> EventView {
        match self {
            Event::Tick => EventView::Tick,
            Event::Pushed(outcome) => EventView::Pushed(outcome@),
            Event::Interrupt => EventView::Interrupt,
            Event::Terminate => EventView::Terminate,
        }
    }
}

impl EventView {
    /// True for the two events that ask the loop to stop.
    pub open spec fn is_signal(self) -> bool {
        self is Interrupt || self is Terminate
    }
}

/// What the driver has to do after an event.
#[derive(Debug, PartialEq, Eq)]
pub enum Action {
    /// Send one GET to this endpoint, wait for its end, and hand the outcome
    /// over as `Event::Pushed`.
    Push(String),
    /// Write this line and wait for the next event.
    Log(LogEntry),
    /// Write this line and leave the loop.
    Exit(LogEntry),
    /// Nothing: the loop has stopped.
    Idle,
}

/// An action as a mathematical value.
pub enum ActionView {
    Push(Seq<char>),
    Log(LogRecord),
    Exit(LogRecord),
    Idle,
}

impl View for Action {
    type V = ActionView;

    open spec fn view(&self) -> ActionView {
        match self {
            Action::Push(url) => ActionView::Push(url@),
            Action::Log(entry) => ActionView::Log(entry@),
            Action::Exit(entry) => ActionView::Exit(entry@),
            Action::Idle => ActionView::Idle,
        }
    }
}

/// The line written when an interrupt stops the loop.
pub open spec fn interrupt_record() -> LogRecord {
    LogRecord { level: Level::Info, message: "received interrupt, shutting down gracefully"@ }
}

/// The line written when a request to terminate stops the loop.
pub open spec fn terminate_record() -> LogRecord {
    LogRecord {
        level: Level::Info,
        message: "received termination signal, shutting down gracefully"@,
    }
}

/// The line written when the service starts.
pub open spec fn startup_record(config: ConfigView) -> LogRecord {
    LogRecord {
        level: Level::Info,
        message: "Starting Uptime Kuma push service. URL: "@ + config.url + ", Interval: "@
            + decimal_text(config.interval_seconds as nat) + " seconds"@,
    }
}

/// One step of the loop: the phase after the event and the action it calls
/// for, where heartbeats go to `url`.
pub open spec fn step_spec(url: Seq<char>, phase: Phase, event: EventView) -> (Phase, ActionView) {
    match phase {
        Phase::Stopped => (Phase::Stopped, ActionView::Idle),
        Phase::Running => match event {
            EventView::Tick => (Phase::Running, ActionView::Push(url)),
            EventView::Pushed(outcome) => (Phase::Running, ActionView::Log(report_record(outcome))),
            EventView::Interrupt => (Phase::Stopped, ActionView::Exit(interrupt_record())),
            EventView::Terminate => (Phase::Stopped, ActionView::Exit(terminate_record())),
        },
    }
}

/// The lines that an action has the driver write.
pub open spec fn lines_of(action: ActionView) -> Seq<LogRecord> {
    match action {
        ActionView::Log(record) => seq![record],
        ActionView::Exit(record) => seq![record],
        ActionView::Push(_) => Seq::empty(),
        ActionView::Idle => Seq::empty(),
    }
}

/// The heartbeat loop: its settings, which never change, and its phase.
#[derive(Debug)]
pub struct Heartbeat {
    config: Config,
    phase: Phase,
}

/// A heartbeat loop as a mathematical value.
pub struct HeartbeatView {
    pub config: ConfigView,
    pub phase: Phase,
}

impl View for Heartbeat {
    type V = HeartbeatView;

    closed spec fn view(&self) -> HeartbeatView {
        HeartbeatView { config: self.config@, phase: self.phase }
    }
}

impl Heartbeat {
    /// A loop with these settings, running.
    pub fn new(config: Config) -> (machine: Heartbeat)
        ensures
            machine@ == (HeartbeatView { config: config@, phase: Phase::Running }),
    {
        Heartbeat { config, phase: Phase::Running }
    }

    /// The settings of the loop.
    pub fn config(&self) -> (config: &Config)
        ensures
            config@ == self@.config,
    {
        &self.config
    }

    /// Where the loop stands.
    pub fn phase(&self) -> (phase: Phase)
        ensures
            phase == self@.phase,
    {
        self.phase
    }

    /// True until a signal has stopped the loop.
    pub fn is_running(&self) -> (running: bool)
        ensures
            running == (self@.phase == Phase::Running),
    {
        match self.phase {
            Phase::Running => true,
            Phase::Stopped => false,
        }
    }

    /// The line to write when the service starts: it names the endpoint and
    /// the interval.
    pub fn startup_entry(&self) -> (entry: LogEntry)
        ensures
            entry@ == startup_record(self@.config),
    {
        let mut message = String::from_str("Starting Uptime Kuma push service. URL: ");
        message.append(self.config.url());
        message.append(", Interval: ");
        message.append(to_decimal(self.config.interval_seconds()).as_str());
        message.append(" seconds");
        LogEntry { level: Level::Info, message }
    }

    /// Takes one event and says what to do. The settings stay as they are;
    /// phase and action are those of `step_spec`. The line for a response
    /// outside 200 to 299 names the status code in decimal.
    pub fn handle(&mut self, event: Event) -> (action: Action)
        ensures
            final(self)@.config == old(self)@.config,
            (final(self)@.phase, action@) == step_spec(
                old(self)@.config.url,
                old(self)@.phase,
                event@,
            ),
            event@ matches EventView::Pushed(PushResult::Response(code)) ==> (old(self)@.phase
                == Phase::Running && !is_success_code(code) ==> names_status(
                lines_of(action@)[0].message,
                code,
            )),
    {
        match self.phase {
            Phase::Stopped => Action::Idle,
            Phase::Running => match event {
                Event::Tick => Action::Push(String::from_str(self.config.url())),
                Event::Pushed(outcome) => Action::Log(report(&outcome)),
                Event::Interrupt => {
                    self.phase = Phase::Stopped;
                    Action::Exit(LogEntry::info("received interrupt, shutting down gracefully"))
                },
                Event::Terminate => {
                    self.phase = Phase::Stopped;
                    Action::Exit(
                        LogEntry::info("received termination signal, shutting down gracefully"),
                    )
                },
            },
        }
    }
}

/// A whole run: the phase after the events of `events` were taken one after
/// another, from `phase` on, and the action that each of them called for.
pub open spec fn run(url: Seq<char>, phase: Phase, events: Seq<EventView>) -> (
    Phase,
    Seq<ActionView>,
)
    decreases events.len(),
{
    if events.len() == 0 {
        (phase, Seq::empty())
    } else {
        let before = run(url, phase, events.drop_last());
        let last = step_spec(url, before.0, events.last());
        (last.0, before.1.push(last.1))
    }
}

/// A tick of the running loop asks for one push to the endpoint and leaves
/// the loop running.
pub proof fn lemma_tick_pushes(url: Seq<char>)
    ensures
        step_spec(url, Phase::Running, EventView::Tick) == (Phase::Running, ActionView::Push(url)),
{
}

/// No failed push is fatal: whatever went wrong, a status outside 200 to 299
/// or no answer at all, the loop writes exactly one line, of severity
/// `ERROR`, and goes on running.
pub proof fn lemma_failed_push_is_survived(url: Seq<char>, outcome: PushResult)
    requires
        !(outcome matches PushResult::Response(code) && is_success_code(code)),
    ensures
        step_spec(url, Phase::Running, EventView::Pushed(outcome)).0 == Phase::Running,
        lines_of(step_spec(url, Phase::Running, EventView::Pushed(outcome)).1) == seq![
            report_record(outcome),
        ],
        report_record(outcome).level == Level::Error,
{
}

/// A push that the endpoint answered with a status from 200 to 299 has the
/// loop write exactly one line, `INFO` `Heartbeat sent successfully.`, and go
/// on running.
pub proof fn lemma_successful_push_is_logged_once(url: Seq<char>, code: u16)
    requires
        is_success_code(code),
    ensures
        step_spec(url, Phase::Running, EventView::Pushed(PushResult::Response(code))).0
            == Phase::Running,
        lines_of(step_spec(url, Phase::Running, EventView::Pushed(PushResult::Response(code))).1)
            == seq![success_record()],
        success_record() == (LogRecord {
            level: Level::Info,
            message: "Heartbeat sent successfully."@,
        }),
{
}

/// Either signal stops the running loop: it writes exactly one line, of
/// severity `INFO`, which says which signal came, and the driver leaves.
pub proof fn lemma_signal_stops(url: Seq<char>, event: EventView)
    requires
        event.is_signal(),
    ensures
        step_spec(url, Phase::Running, event).0 == Phase::Stopped,
        step_spec(url, Phase::Running, event).1 == ActionView::Exit(
            if event is Interrupt {
                interrupt_record()
            } else {
                terminate_record()
            },
        ),
        lines_of(step_spec(url, Phase::Running, event).1).len() == 1,
        lines_of(step_spec(url, Phase::Running, event).1)[0].level == Level::Info,
{
}

/// Nothing leads back from `Stopped`: whatever arrives, the loop stays
/// stopped, asks for no push and writes no line.
pub proof fn lemma_stopped_is_final(url: Seq<char>, event: EventView)
    ensures
        step_spec(url, Phase::Stopped, event) == (Phase::Stopped, ActionView::Idle),
        lines_of(step_spec(url, Phase::Stopped, event).1).len() == 0,
{
}

/// As long as no signal arrives the loop keeps running, however its pushes
/// end: every event is answered as the running loop answers it.
pub proof fn lemma_run_without_signal(url: Seq<char>, events: Seq<EventView>)
    requires
        forall|i: int| 0 <= i < events.len() ==> !(#[trigger] events[i]).is_signal(),
    ensures
        run(url, Phase::Running, events).0 == Phase::Running,
        run(url, Phase::Running, events).1.len() == events.len(),
        forall|i: int|
            0 <= i < events.len() ==> #[trigger] run(url, Phase::Running, events).1[i] == step_spec(
                url,
                Phase::Running,
                events[i],
            ).1,
    decreases events.len(),
{
    if events.len() > 0 {
        lemma_run_without_signal(url, events.drop_last());
    }
}

/// A signal stops the loop at whatever point it arrives, and once only. Where
/// `events[first]` is the first signal of a run: the events before it are
/// answered as the running loop answers them, none of them by leaving; the
/// signal is answered by the one line of the shutdown and by leaving; every
/// event after it, further signals included, is answered by nothing; and the
/// loop ends stopped.
pub proof fn lemma_run_with_signal(url: Seq<char>, events: Seq<EventView>, first: int)
    requires
        0 <= first < events.len(),
        events[first].is_signal(),
        forall|i: int| 0 <= i < first ==> !(#[trigger] events[i]).is_signal(),
    ensures
        run(url, Phase::Running, events).0 == Phase::Stopped,
        run(url, Phase::Running, events).1.len() == events.len(),
        forall|i: int|
            0 <= i < first ==> #[trigger] run(url, Phase::Running, events).1[i] == step_spec(
                url,
                Phase::Running,
                events[i],
            ).1 && !(run(url, Phase::Running, events).1[i] is Exit),
        run(url, Phase::Running, events).1[first] == step_spec(
            url,
            Phase::Running,
            events[first],
        ).1,
        run(url, Phase::Running, events).1[first] is Exit,
        forall|i: int|
            first < i < events.len() ==> #[trigger] run(url, Phase::Running, events).1[i]
                == ActionView::Idle,
    decreases events.len(),
{
    if first == events.len() - 1 {
        lemma_run_without_signal(url, events.drop_last());
    } else {
        lemma_run_with_signal(url, events.drop_last(), first);
    }
}

} // verus!
