//! The engine as a state machine over the events that reach it, and what
//! holds of every course of events.

use crate::mkarchqemu::EngineView;
use crate::params::ParamsView;
use crate::status::StatusView;
use vstd::prelude::*;

verus! {

/// One thing that happens to the engine.
pub enum Event {
    /// New parameters are stored.
    SetParams(ParamsView),
    /// A run is triggered.
    Trigger,
    /// The builder could not be started; the text says why.
    SpawnFailed(Seq<char>),
    /// A run ended, with these bytes on its two streams.
    Exited { stdout: Seq<u8>, stderr: Seq<u8> },
    /// Waiting for the builder failed; the text says why.
    WaitFailed(Seq<char>),
}

impl Event {
    /// Whether the event reports how a started run went on.
    pub open spec fn is_outcome(self) -> bool {
        self is SpawnFailed || self is Exited || self is WaitFailed
    }
}

impl EngineView {
    /// The engine after one event.
    pub open spec fn step(self, event: Event) -> EngineView {
        match event {
            Event::SetParams(params) => self.with_params(params),
            Event::Trigger => self.triggered(),
            Event::SpawnFailed(reason) => self.failed(reason),
            Event::Exited { stdout, stderr } => self.exited(stdout, stderr),
            Event::WaitFailed(reason) => self.failed(reason),
        }
    }

    /// Whether the event starts a run in this state: a trigger while
    /// parameters are stored.
    pub open spec fn starts_run(self, event: Event) -> bool {
        event is Trigger && self.params is Some
    }
}

/// The engine after a course of events, counted from its creation.
pub open spec fn history(events: Seq<Event>) -> EngineView
    decreases events.len(),
{
    if events.len() == 0 {
        EngineView::initial()
    } else {
        history(events.drop_last()).step(events.last())
    }
}

/// The number of runs that were started and whose outcome is still awaited.
pub open spec fn under_way(events: Seq<Event>) -> int
    decreases events.len(),
{
    if events.len() == 0 {
        0
    } else if history(events.drop_last()).starts_run(events.last()) {
        under_way(events.drop_last()) + 1
    } else if events.last().is_outcome() {
        under_way(events.drop_last()) - 1
    } else {
        under_way(events.drop_last())
    }
}

/// A course of events in which every outcome belongs to a run that was
/// started before and had no outcome yet.
pub open spec fn orderly(events: Seq<Event>) -> bool
    decreases events.len(),
{
    events.len() == 0 || (orderly(events.drop_last()) && under_way(events) >= 0)
}

/// An orderly course of events in which no run is triggered while another is
/// under way.
pub open spec fn serial(events: Seq<Event>) -> bool
    decreases events.len(),
{
    events.len() == 0 || (serial(events.drop_last()) && 0 <= under_way(events) <= 1)
}

/// The status changes that one run may cause: into `Running` from any other
/// status, and out of `Running` into `Finished` or `Error`.
pub open spec fn run_edge(before: StatusView, after: StatusView) -> bool {
    ||| (!(before is Running) && after is Running)
    ||| (before is Running && (after is Finished || after is Error))
}

/// Storing parameters and reading them back gives the same parameters, field
/// for field, an absent optional field staying absent; status and captured
/// output are left alone.
pub proof fn lemma_parameters_round_trip(engine: EngineView, params: ParamsView)
    ensures
        engine.with_params(params).params == Some(params),
        engine.with_params(params).status == engine.status,
        engine.with_params(params).last_output == engine.last_output,
{
}

/// As long as no parameters were ever stored, none are stored, and a trigger
/// starts nothing and changes nothing.
pub proof fn lemma_never_set_never_starts(events: Seq<Event>)
    requires
        forall|i: int| 0 <= i < events.len() ==> !(#[trigger] events[i] is SetParams),
    ensures
        history(events).params is None,
        history(events).launch() is None,
        history(events).triggered() == history(events),
    decreases events.len(),
{
    if events.len() > 0 {
        let earlier = events.drop_last();
        assert forall|i: int| 0 <= i < earlier.len() implies !(#[trigger] earlier[i] is SetParams) by {
            assert(earlier[i] == events[i]);
        }
        lemma_never_set_never_starts(earlier);
        assert(!(events[events.len() - 1] is SetParams));
    }
}

/// In an orderly course of events without stored parameters the engine stays
/// exactly as it was created, and no run is under way.
pub proof fn lemma_untouched_without_parameters(events: Seq<Event>)
    requires
        orderly(events),
        forall|i: int| 0 <= i < events.len() ==> !(#[trigger] events[i] is SetParams),
    ensures
        history(events) == EngineView::initial(),
        under_way(events) == 0,
    decreases events.len(),
{
    if events.len() > 0 {
        let earlier = events.drop_last();
        assert forall|i: int| 0 <= i < earlier.len() implies !(#[trigger] earlier[i] is SetParams) by {
            assert(earlier[i] == events[i]);
        }
        lemma_untouched_without_parameters(earlier);
        assert(!(events[events.len() - 1] is SetParams));
    }
}

/// Nothing is captured before the first run has ended.
pub proof fn lemma_no_output_before_first_exit(events: Seq<Event>)
    requires
        forall|i: int| 0 <= i < events.len() ==> !(#[trigger] events[i] is Exited),
    ensures
        history(events).last_output is None,
    decreases events.len(),
{
    if events.len() > 0 {
        let earlier = events.drop_last();
        assert forall|i: int| 0 <= i < earlier.len() implies !(#[trigger] earlier[i] is Exited) by {
            assert(earlier[i] == events[i]);
        }
        lemma_no_output_before_first_exit(earlier);
        assert(!(events[events.len() - 1] is Exited));
    }
}

/// A trigger with parameters stored makes the status `Running` at once and
/// hands out the launch made of those parameters. When the run ends, the
/// status is `Finished` and the captured text is that of its two streams;
/// when it cannot be started or awaited, the status is `Error` with the
/// reason and the captured text is what it was.
pub proof fn lemma_run_outcomes(
    engine: EngineView,
    stdout: Seq<u8>,
    stderr: Seq<u8>,
    reason: Seq<char>,
)
    requires
        engine.params is Some,
    ensures
        engine.triggered().status == StatusView::Running,
        engine.launch() is Some,
        engine.launch()->0.args == engine.params->0.arguments(),
        engine.triggered().exited(stdout, stderr).status == StatusView::Finished,
        engine.triggered().exited(stdout, stderr).last_output == Some(
            crate::output::combined_output(
                crate::output::lossy_text(stdout),
                crate::output::lossy_text(stderr),
            ),
        ),
        engine.triggered().failed(reason).status == StatusView::Error(reason),
        engine.triggered().failed(reason).last_output == engine.last_output,
{
}

/// In a serial course of events at most one run is under way, and the status
/// is `Running` exactly while one is.
pub proof fn lemma_serial_running(events: Seq<Event>)
    requires
        serial(events),
    ensures
        0 <= under_way(events) <= 1,
        history(events).status is Running <==> under_way(events) == 1,
    decreases events.len(),
{
    if events.len() > 0 {
        lemma_serial_running(events.drop_last());
    }
}

/// In a serial course of events every event either leaves the status as it
/// was or moves it along an edge of a run: no status is reached from
/// `Waiting`, `Finished` or `Error` but `Running`, and `Finished` and `Error`
/// are reached from `Running` alone.
pub proof fn lemma_serial_transitions(events: Seq<Event>)
    requires
        serial(events),
        events.len() > 0,
    ensures
        history(events).status == history(events.drop_last()).status || run_edge(
            history(events.drop_last()).status,
            history(events).status,
        ),
{
    lemma_serial_running(events.drop_last());
    lemma_serial_running(events);
}

} // verus!
