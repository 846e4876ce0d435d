use vstd::prelude::*;

verus! {

/// A control signal for the periodic status-refresh ticker.
#[derive(Debug, Clone, Copy, PartialEq, Eq, Structural)]
pub enum LoopEvent {
    Start,
    Stop,
}

/// The ticker's private mode.
#[derive(Debug, Clone, Copy, PartialEq, Eq, Structural)]
pub enum SchedulerMode {
    Stopped,
    Running,
}

/// What reaches the ticker thread: a control signal, or the end of one interval
/// of sleep.
#[derive(Debug, Clone, Copy, PartialEq, Eq, Structural)]
pub enum SchedulerInput {
    Signal(LoopEvent),
    IntervalElapsed,
}

/// What the ticker thread waits for next.
#[derive(Debug, Clone, Copy, PartialEq, Eq, Structural)]
pub enum SchedulerWait {
    /// Block until a control signal arrives.
    ForSignal,
    /// Sleep this many milliseconds, then check for a pending signal.
    Sleep(u64),
}

pub open spec fn mode_after_signal(mode: SchedulerMode, signal: LoopEvent) -> SchedulerMode {
    match signal {
        LoopEvent::Start => SchedulerMode::Running,
        LoopEvent::Stop => SchedulerMode::Stopped,
    }
}

/// The mode after one input.
pub open spec fn next_mode(mode: SchedulerMode, input: SchedulerInput) -> SchedulerMode {
    match input {
        SchedulerInput::Signal(s) => mode_after_signal(mode, s),
        SchedulerInput::IntervalElapsed => mode,
    }
}

/// Whether one input makes the ticker emit a "refresh status" event.
pub open spec fn emits_tick(mode: SchedulerMode, input: SchedulerInput) -> bool {
    input == SchedulerInput::IntervalElapsed && mode == SchedulerMode::Running
}

/// The mode after a whole sequence of inputs.
pub open spec fn run_mode(mode: SchedulerMode, xs: Seq<SchedulerInput>) -> SchedulerMode
    decreases xs.len(),
{
    if xs.len() == 0 {
        mode
    } else {
        run_mode(next_mode(mode, xs[0]), xs.drop_first())
    }
}

/// How many "refresh status" events a sequence of inputs makes the ticker emit.
pub open spec fn run_ticks(mode: SchedulerMode, xs: Seq<SchedulerInput>) -> nat
    decreases xs.len(),
{
    if xs.len() == 0 {
        0
    } else {
        (if emits_tick(mode, xs[0]) { 1nat } else { 0nat }) + run_ticks(
            next_mode(mode, xs[0]),
            xs.drop_first(),
        )
    }
}

pub open spec fn has_start(xs: Seq<SchedulerInput>) -> bool {
    exists|i: int| 0 <= i < xs.len() && xs[i] == SchedulerInput::Signal(LoopEvent::Start)
}

/// The ticker thread's state machine.
#[derive(Debug, Clone, Copy, PartialEq, Eq, Structural)]
pub struct UpdateScheduler {
    pub interval_ms: u64,
    pub mode: SchedulerMode,
}

impl UpdateScheduler {
    /// A ticker for the given interval; it starts stopped.
    pub fn new(interval_ms: u64) -> (r: Self)
        ensures
            r.interval_ms == interval_ms,
            r.mode == SchedulerMode::Stopped,
    {
        UpdateScheduler { interval_ms, mode: SchedulerMode::Stopped }
    }

    /// Stopped: block for a signal. Running: sleep one interval.
    pub fn next_wait(&self) -> (r: SchedulerWait)
        ensures
            self.mode == SchedulerMode::Stopped ==> r == SchedulerWait::ForSignal,
            self.mode == SchedulerMode::Running ==> r == SchedulerWait::Sleep(self.interval_ms),
    {
        match self.mode {
            SchedulerMode::Stopped => SchedulerWait::ForSignal,
            SchedulerMode::Running => SchedulerWait::Sleep(self.interval_ms),
        }
    }

    /// Applies one input; returns whether a "refresh status" event is to be sent.
    pub fn handle(&mut self, input: SchedulerInput) -> (emit: bool)
        ensures
            final(self).interval_ms == old(self).interval_ms,
            final(self).mode == next_mode(old(self).mode, input),
            emit == emits_tick(old(self).mode, input),
    {
        match input {
            SchedulerInput::Signal(LoopEvent::Start) => {
                self.mode = SchedulerMode::Running;
                false
            },
            SchedulerInput::Signal(LoopEvent::Stop) => {
                self.mode = SchedulerMode::Stopped;
                false
            },
            SchedulerInput::IntervalElapsed => {
                match self.mode {
                    SchedulerMode::Running => true,
                    SchedulerMode::Stopped => false,
                }
            },
        }
    }
}

/// The controlling side of the ticker, held by the event loop. Without an
/// interval the ticker is inert and no signal is ever sent.
#[derive(Debug, Clone, Copy, PartialEq, Eq, Structural)]
pub struct RenderLoop {
    pub interval_ms: Option<u64>,
}

impl RenderLoop {
    pub fn new(interval_ms: Option<u64>) -> (r: Self)
        ensures
            r.interval_ms == interval_ms,
    {
        RenderLoop { interval_ms }
    }

    /// The ticker state machine to run on its own thread, if an interval is set.
    pub fn ticker(&self) -> (r: Option<UpdateScheduler>)
        ensures
            self.interval_ms is None ==> r is None,
            self.interval_ms matches Some(ms) ==> r == Some(
                UpdateScheduler { interval_ms: ms, mode: SchedulerMode::Stopped },
            ),
    {
        match self.interval_ms {
            Some(ms) => Some(UpdateScheduler::new(ms)),
            None => None,
        }
    }

    /// The signal to send to the ticker to start it; none when inert.
    pub fn start(&self) -> (r: Option<LoopEvent>)
        ensures
            r == (if self.interval_ms is Some { Some(LoopEvent::Start) } else { None::<LoopEvent> }),
    {
        match self.interval_ms {
            Some(_) => Some(LoopEvent::Start),
            None => None,
        }
    }

    /// The signal to send to the ticker to stop it; none when inert.
    pub fn stop(&self) -> (r: Option<LoopEvent>)
        ensures
            r == (if self.interval_ms is Some { Some(LoopEvent::Stop) } else { None::<LoopEvent> }),
    {
        match self.interval_ms {
            Some(_) => Some(LoopEvent::Stop),
            None => None,
        }
    }
}

/// Once stopped, the ticker emits no "refresh status" event and stays stopped
/// until a Start signal arrives.
pub proof fn lemma_stopped_until_start(xs: Seq<SchedulerInput>)
    requires
        !has_start(xs),
    ensures
        run_ticks(SchedulerMode::Stopped, xs) == 0,
        run_mode(SchedulerMode::Stopped, xs) == SchedulerMode::Stopped,
    decreases xs.len(),
{
    if xs.len() > 0 {
        assert(xs[0] != SchedulerInput::Signal(LoopEvent::Start));
        assert forall|i: int| 0 <= i < xs.drop_first().len() implies xs.drop_first()[i]
            != SchedulerInput::Signal(LoopEvent::Start) by {
            assert(xs.drop_first()[i] == xs[i + 1]);
        }
        lemma_stopped_until_start(xs.drop_first());
    }
}

/// Sending Stop while running moves the ticker to Stopped, and no further
/// "refresh status" event is emitted until Start is sent.
pub proof fn lemma_stop_while_running(xs: Seq<SchedulerInput>)
    requires
        !has_start(xs),
    ensures
        next_mode(SchedulerMode::Running, SchedulerInput::Signal(LoopEvent::Stop))
            == SchedulerMode::Stopped,
        run_ticks(SchedulerMode::Running, seq![SchedulerInput::Signal(LoopEvent::Stop)] + xs) == 0,
{
    let ys = seq![SchedulerInput::Signal(LoopEvent::Stop)] + xs;
    assert(ys.drop_first() =~= xs);
    lemma_stopped_until_start(xs);
}

/// Sending Start while already running changes nothing: the mode and the
/// ticks that follow are those without the signal.
pub proof fn lemma_start_while_running(xs: Seq<SchedulerInput>)
    ensures
        run_mode(SchedulerMode::Running, seq![SchedulerInput::Signal(LoopEvent::Start)] + xs)
            == run_mode(SchedulerMode::Running, xs),
        run_ticks(SchedulerMode::Running, seq![SchedulerInput::Signal(LoopEvent::Start)] + xs)
            == run_ticks(SchedulerMode::Running, xs),
{
    let ys = seq![SchedulerInput::Signal(LoopEvent::Start)] + xs;
    assert(ys.drop_first() =~= xs);
}

/// Without an interval no signal is ever sent, so a ticker that only sees its
/// intervals go by never ticks.
pub proof fn lemma_inert_without_interval(r: RenderLoop, xs: Seq<SchedulerInput>)
    requires
        r.interval_ms is None,
        forall|i: int| 0 <= i < xs.len() ==> xs[i] == SchedulerInput::IntervalElapsed,
    ensures
        run_ticks(SchedulerMode::Stopped, xs) == 0,
{
    lemma_stopped_until_start(xs);
}

} // verus!
