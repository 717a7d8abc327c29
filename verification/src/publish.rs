//! The publish run: generate, send, sleep, and close on a failed send.
//!
//! The run is driven from outside. Each call of [`gen`] takes what has just
//! happened and answers with what to do next; generating and encoding need
//! nothing from outside and happen within the call.

use vstd::prelude::*;
use std::time::Duration;
use crate::generator::{GenerateError, Generator};
use crate::options::{AnyGenerator, GenOpts, GenOptsView, GeneratorView};
use crate::sink::{
    new_sink, sink_for, CloseRequest, Delivery, DeliveryView, Sink, SinkErr, SinkErrView, SinkView,
    Stage,
};

verus! {

/// Where a run stands between two calls.
#[derive(Clone, Copy, Debug, PartialEq, Eq, Structural)]
pub enum Phase {
    /// Not started.
    Idle,
    /// A message is with the broker.
    Sending,
    /// The run sleeps between two cycles.
    Sleeping,
    /// The run is over.
    Closed,
}

/// What an open run waits for.
#[derive(Clone, Copy, Debug, PartialEq, Eq, Structural)]
pub enum Awaiting {
    Start,
    Sent,
    Slept,
}

/// What has just happened.
#[derive(Clone, Debug, PartialEq, Eq)]
pub enum LoopEvent {
    /// The run is to begin.
    Start,
    /// The broker took the message.
    Sent,
    /// The broker failed to take the message; its own words.
    SendFailed(String),
    /// The sleep is over.
    Slept,
    /// The run is to end.
    Shutdown,
}

/// The mathematical content of a [`LoopEvent`].
pub enum LoopEventView {
    Start,
    Sent,
    SendFailed(Seq<char>),
    Slept,
    Shutdown,
}

impl View for LoopEvent {
    type V = LoopEventView;

    open spec fn view(&self) -> LoopEventView {
        match *self {
            LoopEvent::Start => LoopEventView::Start,
            LoopEvent::Sent => LoopEventView::Sent,
            LoopEvent::SendFailed(message) => LoopEventView::SendFailed(message@),
            LoopEvent::Slept => LoopEventView::Slept,
            LoopEvent::Shutdown => LoopEventView::Shutdown,
        }
    }
}

/// What to do next.
#[derive(Debug, PartialEq, Eq)]
pub enum LoopAction {
    /// Hand the message to the broker; then report `Sent` or `SendFailed`.
    Send(Delivery),
    /// Report the failure of this cycle's generation, if there is one; sleep
    /// for the interval; then report `Slept`.
    Sleep { interval: Duration, failure: Option<GenerateError> },
    /// The run is over. Ask the broker what the request says, once; a
    /// failure there is reported and changes nothing. `outcome` is how the
    /// run ended.
    Close { request: CloseRequest, outcome: Result<(), SinkErr> },
    /// Nothing: the event was not awaited.
    Nothing,
}

/// The mathematical content of a [`LoopAction`].
pub enum LoopActionView {
    Send(DeliveryView),
    Sleep { interval: Duration, failure: Option<GenerateError> },
    Close { request: CloseRequest, outcome: Result<(), SinkErrView> },
    Nothing,
}

impl View for LoopAction {
    type V = LoopActionView;

    open spec fn view(&self) -> LoopActionView {
        match *self {
            LoopAction::Send(delivery) => LoopActionView::Send(delivery@),
            LoopAction::Sleep { interval, failure } => LoopActionView::Sleep { interval, failure },
            LoopAction::Close { request, outcome } => LoopActionView::Close {
                request,
                outcome: match outcome {
                    Ok(_) => Ok(()),
                    Err(error) => Err(error@),
                },
            },
            LoopAction::Nothing => LoopActionView::Nothing,
        }
    }
}

/// A publish run: one sink, one generator, and the interval between cycles.
#[derive(Debug, PartialEq, Eq)]
pub struct PublishLoop {
    sink: Sink,
    generator: AnyGenerator,
    sleep_interval: Duration,
    awaiting: Awaiting,
}

/// The mathematical content of a [`PublishLoop`].
pub struct PublishLoopView {
    pub sink: SinkView,
    pub generator: GeneratorView,
    pub sleep_interval: Duration,
    pub awaiting: Awaiting,
}

impl View for PublishLoop {
    type V = PublishLoopView;

    closed spec fn view(&self) -> PublishLoopView {
        PublishLoopView {
            sink: self.sink@,
            generator: self.generator@,
            sleep_interval: self.sleep_interval,
            awaiting: self.awaiting,
        }
    }
}

impl PublishLoopView {
    /// Where the run stands: closed once its sink is closed, else by what it
    /// waits for.
    pub open spec fn phase(self) -> Phase {
        if !self.sink.open {
            Phase::Closed
        } else {
            match self.awaiting {
                Awaiting::Start => Phase::Idle,
                Awaiting::Sent => Phase::Sending,
                Awaiting::Slept => Phase::Sleeping,
            }
        }
    }

    /// The run with its sink closed.
    pub open spec fn shut(self) -> PublishLoopView {
        PublishLoopView { sink: self.sink.closed(), ..self }
    }

    /// The end of an open run with the given outcome: the sink is closed
    /// and the broker is asked what closing the sink asks.
    pub open spec fn ends(
        self,
        outcome: Result<(), SinkErrView>,
        after: PublishLoopView,
        action: LoopActionView,
    ) -> bool {
        &&& after == self.shut()
        &&& action == LoopActionView::Close { request: self.sink.close_request(), outcome }
    }

    /// One cycle that generates `r`: a text goes to the sink and the run
    /// waits for the broker; a failure is reported and the run sleeps. The
    /// run does not end on a failed generation.
    pub open spec fn cycle_with(
        self,
        r: Result<String, GenerateError>,
        after: PublishLoopView,
        action: LoopActionView,
    ) -> bool {
        &&& self.generator.produces(after.generator, r)
        &&& after.sink == self.sink
        &&& after.sleep_interval == self.sleep_interval
        &&& match r {
            Ok(text) => {
                &&& after.awaiting == Awaiting::Sent
                &&& self.sink.delivery(text@) is Some
                &&& action == LoopActionView::Send(self.sink.delivery(text@)->Some_0)
            },
            Err(error) => after.awaiting == Awaiting::Slept && action == (LoopActionView::Sleep {
                interval: self.sleep_interval,
                failure: Some(error),
            }),
        }
    }

    /// One cycle: one generation, whatever it gives.
    pub open spec fn cycle(self, after: PublishLoopView, action: LoopActionView) -> bool {
        exists|r: Result<String, GenerateError>| #[trigger] self.cycle_with(r, after, action)
    }

    /// One step of the run, from `self` to `after` on `event` with `action`.
    ///
    /// - A closed run stays as it is and does nothing.
    /// - `Shutdown` ends an open run with success.
    /// - `Start` on an idle run, and `Slept` on a sleeping one, begin a cycle.
    /// - `Sent` on a sending run puts it to sleep.
    /// - `SendFailed` on a sending run ends it with the sink's send error.
    /// - Any other event is not awaited: the run stays and does nothing.
    pub open spec fn step(
        self,
        event: LoopEventView,
        after: PublishLoopView,
        action: LoopActionView,
    ) -> bool {
        match (self.phase(), event) {
            (Phase::Closed, _) => after == self && action is Nothing,
            (_, LoopEventView::Shutdown) => self.ends(Ok(()), after, action),
            (Phase::Idle, LoopEventView::Start) => self.cycle(after, action),
            (Phase::Sleeping, LoopEventView::Slept) => self.cycle(after, action),
            (Phase::Sending, LoopEventView::Sent) => {
                &&& after == PublishLoopView { awaiting: Awaiting::Slept, ..self }
                &&& action == LoopActionView::Sleep {
                    interval: self.sleep_interval,
                    failure: None,
                }
            },
            (Phase::Sending, LoopEventView::SendFailed(message)) => self.ends(
                Err(self.sink.failure(Stage::Send, message)),
                after,
                action,
            ),
            _ => after == self && action is Nothing,
        }
    }

    /// The run that the options select, on a connection whose outcome is
    /// `connected`: idle over the open sink, or the sink's error.
    pub open spec fn opened(opts: GenOptsView, interval: Duration, connected: Result<(), String>)
        -> Result<PublishLoopView, SinkErrView> {
        match sink_for(opts, connected) {
            Ok(sink) => Ok(
                PublishLoopView {
                    sink,
                    generator: match opts {
                        GenOptsView::Mqtt { generator, .. } => generator,
                        GenOptsView::Kafka { generator, .. } => generator,
                    },
                    sleep_interval: interval,
                    awaiting: Awaiting::Start,
                },
            ),
            Err(error) => Err(error),
        }
    }
}

impl PublishLoop {
    /// A run over a sink and a generator, not yet started.
    pub fn new(sink: Sink, generator: AnyGenerator, sleep_interval: Duration) -> (r: PublishLoop)
        ensures
            r@ == (PublishLoopView {
                sink: sink@,
                generator: generator@,
                sleep_interval,
                awaiting: Awaiting::Start,
            }),
    {
        PublishLoop { sink, generator, sleep_interval, awaiting: Awaiting::Start }
    }

    /// The run that the options select, on a connection whose outcome is
    /// `connected`.
    pub fn open(opts: GenOpts, connected: Result<(), String>) -> (r: Result<PublishLoop, SinkErr>)
        ensures
            match PublishLoopView::opened(opts@, opts.sleep_interval(), connected) {
                Ok(run) => r is Ok && r->Ok_0@ == run,
                Err(error) => r is Err && r->Err_0@ == error,
            },
    {
        let sleep_interval = opts.sleep_interval();
        match new_sink(opts, connected) {
            Ok((sink, generator)) => Ok(PublishLoop::new(sink, generator, sleep_interval)),
            Err(error) => Err(error),
        }
    }

    /// Where the run stands.
    pub fn phase(&self) -> (r: Phase)
        ensures
            r == self@.phase(),
    {
        if !self.sink.is_open() {
            Phase::Closed
        } else {
            match self.awaiting {
                Awaiting::Start => Phase::Idle,
                Awaiting::Sent => Phase::Sending,
                Awaiting::Slept => Phase::Sleeping,
            }
        }
    }

    /// The interval between two cycles.
    pub fn sleep_interval(&self) -> (r: Duration)
        ensures
            r == self@.sleep_interval,
    {
        self.sleep_interval
    }

    /// Ends an open run with the given outcome.
    fn end(&mut self, outcome: Result<(), SinkErr>) -> (action: LoopAction)
        ensures
            old(self)@.ends(
                match outcome {
                    Ok(_) => Ok(()),
                    Err(error) => Err(error@),
                },
                final(self)@,
                action@,
            ),
    {
        let request = self.sink.close();
        LoopAction::Close { request, outcome }
    }

    /// Runs one cycle of an open run.
    fn run_cycle(&mut self) -> (action: LoopAction)
        requires
            old(self)@.sink.open,
        ensures
            old(self)@.cycle(final(self)@, action@),
    {
        let r = self.generator.gen();
        let ghost generated = r;
        let action = match r {
            Ok(text) => {
                self.awaiting = Awaiting::Sent;
                // An open sink takes every text, so the second arm is never
                // reached.
                match self.sink.send(text) {
                    Ok(delivery) => LoopAction::Send(delivery),
                    Err(_) => LoopAction::Nothing,
                }
            },
            Err(error) => {
                self.awaiting = Awaiting::Slept;
                LoopAction::Sleep { interval: self.sleep_interval, failure: Some(error) }
            },
        };
        assert(old(self)@.cycle_with(generated, self@, action@));
        action
    }
}

/// Advances the run by one event and says what to do next.
pub fn gen(run: &mut PublishLoop, event: LoopEvent) -> (action: LoopAction)
    ensures
        old(run)@.step(event@, final(run)@, action@),
{
    match (run.phase(), event) {
        (Phase::Closed, _) => LoopAction::Nothing,
        (_, LoopEvent::Shutdown) => run.end(Ok(())),
        (Phase::Idle, LoopEvent::Start) => run.run_cycle(),
        (Phase::Sleeping, LoopEvent::Slept) => run.run_cycle(),
        (Phase::Sending, LoopEvent::Sent) => {
            run.awaiting = Awaiting::Slept;
            LoopAction::Sleep { interval: run.sleep_interval, failure: None }
        },
        (Phase::Sending, LoopEvent::SendFailed(message)) => {
            let error = run.sink.transport().error(Stage::Send, message);
            run.end(Err(error))
        },
        _ => LoopAction::Nothing,
    }
}

/// A closed run is final: whatever happens, it stays as it is and nothing is
/// to be done.
pub proof fn law_closed_is_final(
    run: PublishLoopView,
    event: LoopEventView,
    after: PublishLoopView,
    action: LoopActionView,
)
    requires
        run.phase() == Phase::Closed,
        run.step(event, after, action),
    ensures
        after == run,
        action is Nothing,
{
}

/// A step that closes leaves the run closed, and only an open run closes.
pub proof fn law_close_ends_the_run(
    run: PublishLoopView,
    event: LoopEventView,
    after: PublishLoopView,
    action: LoopActionView,
)
    requires
        run.step(event, after, action),
        action is Close,
    ensures
        run.phase() != Phase::Closed,
        after.phase() == Phase::Closed,
        event is Shutdown || event is SendFailed,
{
    if run.phase() != Phase::Closed && !(event is Shutdown) && !(event is SendFailed) {
        if (run.phase() == Phase::Idle && event is Start) || (run.phase() == Phase::Sleeping
            && event is Slept) {
            let r = choose|r: Result<String, GenerateError>| #[trigger]
                run.cycle_with(r, after, action);
            assert(run.cycle_with(r, after, action));
        }
    }
}

/// A failed send is fatal: the run ends with the sink's send error.
pub proof fn law_send_failure_is_fatal(
    run: PublishLoopView,
    message: Seq<char>,
    after: PublishLoopView,
    action: LoopActionView,
)
    requires
        run.phase() == Phase::Sending,
        run.step(LoopEventView::SendFailed(message), after, action),
    ensures
        after.phase() == Phase::Closed,
        action matches LoopActionView::Close { outcome: Err(error), .. }
            && error.is_send_error(),
{
}

/// A failed generation is not fatal: a cycle never ends the run.
pub proof fn law_generation_failure_is_recoverable(
    run: PublishLoopView,
    event: LoopEventView,
    after: PublishLoopView,
    action: LoopActionView,
)
    requires
        run.phase() == Phase::Idle && event is Start || run.phase() == Phase::Sleeping
            && event is Slept,
        run.step(event, after, action),
    ensures
        after.phase() == Phase::Sending || after.phase() == Phase::Sleeping,
        after.phase() == Phase::Sleeping <==> action matches LoopActionView::Sleep {
            failure: Some(_),
            ..
        },
{
    let r = choose|r: Result<String, GenerateError>| #[trigger] run.cycle_with(r, after, action);
    assert(run.cycle_with(r, after, action));
}

/// Whether `states`, `events` and `actions` describe consecutive steps of one
/// run: step `j` leads from `states[j]` to `states[j + 1]` on `events[j]`
/// with `actions[j]`.
pub open spec fn run_of(
    states: Seq<PublishLoopView>,
    events: Seq<LoopEventView>,
    actions: Seq<LoopActionView>,
) -> bool {
    &&& states.len() == events.len() + 1
    &&& actions.len() == events.len()
    &&& forall|j: int|
        0 <= j < events.len() ==> (#[trigger] states[j]).step(
            events[j],
            states[j + 1],
            actions[j],
        )
}

/// Once a run is closed it is closed at every later step.
proof fn lemma_closed_from(
    states: Seq<PublishLoopView>,
    events: Seq<LoopEventView>,
    actions: Seq<LoopActionView>,
    i: int,
    j: int,
)
    requires
        run_of(states, events, actions),
        0 <= i <= j < states.len(),
        states[i].phase() == Phase::Closed,
    ensures
        states[j].phase() == Phase::Closed,
    decreases j - i,
{
    if i < j {
        lemma_closed_from(states, events, actions, i, j - 1);
        assert(states[j - 1].step(events[j - 1], states[j], actions[j - 1]));
    }
}

/// Along a run the sink is closed at most once: after a step that closes,
/// every later step does nothing.
pub proof fn law_close_at_most_once(
    states: Seq<PublishLoopView>,
    events: Seq<LoopEventView>,
    actions: Seq<LoopActionView>,
    i: int,
    j: int,
)
    requires
        run_of(states, events, actions),
        0 <= i < j < actions.len(),
        actions[i] is Close,
    ensures
        actions[j] is Nothing,
{
    assert(states[i].step(events[i], states[i + 1], actions[i]));
    law_close_ends_the_run(states[i], events[i], states[i + 1], actions[i]);
    lemma_closed_from(states, events, actions, i + 1, j);
    assert(states[j].step(events[j], states[j + 1], actions[j]));
}

} // verus!
