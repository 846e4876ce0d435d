use vstd::prelude::*;

verus! {

/// The least time between two renders: one thirtieth of a second, in nanoseconds.
pub const FRAME_BUDGET_NS: u64 = 33_333_333;

/// What handling one event asks of the render scheduling.
#[derive(Debug, Clone, Copy, PartialEq, Eq, Structural)]
pub enum EventEffect {
    /// Nothing to draw: the render check of this cycle is skipped.
    SkipRender,
    /// Leave the loop.
    Quit,
    /// The flags stay as they are.
    Unchanged,
    /// A render is wanted.
    Render,
    /// A render is wanted, and stale buffers are to be cleared first.
    FullRender,
}

/// How the current cycle goes on after its event.
#[derive(Debug, Clone, Copy, PartialEq, Eq, Structural)]
pub enum CycleControl {
    /// Go on to the render check.
    Proceed,
    /// Start the next cycle without a render check.
    Continue,
    /// Leave the loop.
    Quit,
}

/// The render decision at the end of a cycle.
#[derive(Debug, Clone, Copy, PartialEq, Eq, Structural)]
pub enum RenderAction {
    /// No render now.
    Wait,
    /// Draw the frame.
    Render,
    /// Clear the screen, then draw the frame.
    FullRender,
}

/// When to render: the pending flags and the time of the last render, in
/// nanoseconds on a monotonic clock. No last render means that the budget has
/// elapsed.
#[derive(Debug, Clone, Copy, PartialEq, Eq, Structural)]
pub struct FramePacer {
    pub render_wanted: bool,
    pub full_rerender_wanted: bool,
    pub last_render: Option<u64>,
}

pub open spec fn budget_elapsed(last_render: Option<u64>, now: u64) -> bool {
    match last_render {
        None => true,
        Some(t) => now >= t && now - t >= FRAME_BUDGET_NS,
    }
}

pub open spec fn remaining_budget(last_render: Option<u64>, now: u64) -> u64 {
    match last_render {
        None => 0,
        Some(t) => if now < t {
            FRAME_BUDGET_NS
        } else if now - t >= FRAME_BUDGET_NS {
            0
        } else {
            (FRAME_BUDGET_NS - (now - t)) as u64
        },
    }
}

pub open spec fn apply_spec(s: FramePacer, e: EventEffect) -> (FramePacer, CycleControl) {
    match e {
        EventEffect::SkipRender => (s, CycleControl::Continue),
        EventEffect::Quit => (s, CycleControl::Quit),
        EventEffect::Unchanged => (s, CycleControl::Proceed),
        EventEffect::Render => (FramePacer { render_wanted: true, ..s }, CycleControl::Proceed),
        EventEffect::FullRender => (
            FramePacer { render_wanted: true, full_rerender_wanted: true, ..s },
            CycleControl::Proceed,
        ),
    }
}

pub open spec fn render_check_spec(s: FramePacer, now: u64) -> (FramePacer, RenderAction) {
    if s.render_wanted && budget_elapsed(s.last_render, now) {
        (
            FramePacer { render_wanted: false, full_rerender_wanted: false, last_render: Some(now) },
            if s.full_rerender_wanted { RenderAction::FullRender } else { RenderAction::Render },
        )
    } else {
        (s, RenderAction::Wait)
    }
}

/// One consumption cycle: the cycle's start time, and the effect of the event
/// it received (none when the wait timed out).
pub struct CycleInput {
    pub now: u64,
    pub effect: Option<EventEffect>,
}

/// The state after one cycle, and whether it rendered.
pub open spec fn cycle_spec(s: FramePacer, c: CycleInput) -> (FramePacer, bool) {
    let (s1, ctl) = match c.effect {
        None => (s, CycleControl::Proceed),
        Some(e) => apply_spec(s, e),
    };
    if ctl == CycleControl::Proceed {
        let (s2, a) = render_check_spec(s1, c.now);
        (s2, a != RenderAction::Wait)
    } else {
        (s1, false)
    }
}

/// The state after a sequence of cycles.
pub open spec fn run_state(s: FramePacer, cs: Seq<CycleInput>) -> FramePacer
    decreases cs.len(),
{
    if cs.len() == 0 {
        s
    } else {
        run_state(cycle_spec(s, cs[0]).0, cs.drop_first())
    }
}

/// The start times of the cycles that rendered, in order.
pub open spec fn render_times(s: FramePacer, cs: Seq<CycleInput>) -> Seq<u64>
    decreases cs.len(),
{
    if cs.len() == 0 {
        seq![]
    } else {
        let (s1, r) = cycle_spec(s, cs[0]);
        (if r { seq![cs[0].now] } else { seq![] }) + render_times(s1, cs.drop_first())
    }
}

/// No cycle leaves the loop, and the clock never goes back.
pub open spec fn well_timed(s: FramePacer, cs: Seq<CycleInput>) -> bool {
    &&& forall|i: int| 0 <= i < cs.len() ==> cs[i].effect != Some(EventEffect::Quit)
    &&& forall|i: int, j: int| 0 <= i <= j < cs.len() ==> cs[i].now <= cs[j].now
    &&& forall|i: int| 0 <= i < cs.len() ==> (s.last_render matches Some(t) ==> t <= #[trigger] cs[i].now)
}

impl FramePacer {
    /// Nothing pending, and no render yet.
    pub fn new() -> (r: Self)
        ensures
            r == (FramePacer { render_wanted: false, full_rerender_wanted: false, last_render: None }),
    {
        FramePacer { render_wanted: false, full_rerender_wanted: false, last_render: None }
    }

    /// How long the next wait on the bus may last: with a render pending, until
    /// the next frame is allowed; otherwise without limit (`None`).
    pub fn wait_timeout(&self, now: u64) -> (r: Option<u64>)
        ensures
            !self.render_wanted ==> r is None,
            self.render_wanted ==> r == Some(remaining_budget(self.last_render, now)),
    {
        if !self.render_wanted {
            return None;
        }
        match self.last_render {
            None => Some(0),
            Some(t) => {
                if now < t {
                    Some(FRAME_BUDGET_NS)
                } else if now - t >= FRAME_BUDGET_NS {
                    Some(0)
                } else {
                    Some(FRAME_BUDGET_NS - (now - t))
                }
            },
        }
    }

    /// Applies the effect of the event that this cycle received.
    pub fn apply(&mut self, effect: EventEffect) -> (r: CycleControl)
        ensures
            (*final(self), r) == apply_spec(*old(self), effect),
    {
        match effect {
            EventEffect::SkipRender => CycleControl::Continue,
            EventEffect::Quit => CycleControl::Quit,
            EventEffect::Unchanged => CycleControl::Proceed,
            EventEffect::Render => {
                self.render_wanted = true;
                CycleControl::Proceed
            },
            EventEffect::FullRender => {
                self.render_wanted = true;
                self.full_rerender_wanted = true;
                CycleControl::Proceed
            },
        }
    }

    /// The render check at the end of a cycle that started at `now`: renders
    /// when one is pending and the frame budget has elapsed since the last
    /// render, then records the time and clears both flags.
    pub fn render_check(&mut self, now: u64) -> (r: RenderAction)
        ensures
            (*final(self), r) == render_check_spec(*old(self), now),
    {
        let elapsed = match self.last_render {
            None => true,
            Some(t) => now >= t && now - t >= FRAME_BUDGET_NS,
        };
        if self.render_wanted && elapsed {
            let full = self.full_rerender_wanted;
            self.render_wanted = false;
            self.full_rerender_wanted = false;
            self.last_render = Some(now);
            if full {
                RenderAction::FullRender
            } else {
                RenderAction::Render
            }
        } else {
            RenderAction::Wait
        }
    }
}

proof fn lemma_cycle_last_render(s: FramePacer, c: CycleInput)
    ensures
        cycle_spec(s, c).1 ==> cycle_spec(s, c).0.last_render == Some(c.now) && budget_elapsed(
            s.last_render,
            c.now,
        ),
        !cycle_spec(s, c).1 ==> cycle_spec(s, c).0.last_render == s.last_render,
        cycle_spec(s, c).0.last_render is None ==> s.last_render is None,
{
}

/// Renders are at least one frame budget apart: the first render comes a full
/// budget after the last one before it, and each later render a full budget
/// after the one before.
pub proof fn lemma_render_spacing(s: FramePacer, cs: Seq<CycleInput>)
    requires
        well_timed(s, cs),
    ensures
        render_times(s, cs).len() > 0 ==> budget_elapsed(s.last_render, render_times(s, cs)[0]),
        forall|i: int| #![trigger render_times(s, cs)[i]]
            0 <= i < render_times(s, cs).len() - 1 ==> render_times(s, cs)[i + 1]
                >= render_times(s, cs)[i] + FRAME_BUDGET_NS,
    decreases cs.len(),
{
    if cs.len() > 0 {
        let (s1, r) = cycle_spec(s, cs[0]);
        let rest = cs.drop_first();
        lemma_cycle_last_render(s, cs[0]);
        assert(well_timed(s1, rest)) by {
            assert forall|i: int| 0 <= i < rest.len() implies (s1.last_render matches Some(t) ==> t
                <= #[trigger] rest[i].now) by {
                assert(rest[i] == cs[i + 1]);
            }
            assert forall|i: int, j: int| 0 <= i <= j < rest.len() implies rest[i].now
                <= rest[j].now by {
                assert(rest[i] == cs[i + 1]);
                assert(rest[j] == cs[j + 1]);
            }
            assert forall|i: int| 0 <= i < rest.len() implies rest[i].effect != Some(
                EventEffect::Quit,
            ) by {
                assert(rest[i] == cs[i + 1]);
            }
        }
        lemma_render_spacing(s1, rest);
        let tail = render_times(s1, rest);
        let all = render_times(s, cs);
        let head: Seq<u64> = if r { seq![cs[0].now] } else { seq![] };
        assert(all == head + tail);
        if r {
            assert(all[0] == cs[0].now);
            if tail.len() > 0 {
                assert(all[1] == tail[0]);
            }
            assert forall|i: int| #![trigger all[i]] 0 <= i < all.len() - 1 implies all[i + 1]
                >= all[i] + FRAME_BUDGET_NS by {
                if i > 0 {
                    assert(all[i] == tail[i - 1]);
                    assert(all[i + 1] == tail[i]);
                    assert(tail[i] >= tail[i - 1] + FRAME_BUDGET_NS);
                }
            }
        } else {
            assert(all =~= tail);
        }
    }
}

/// Any number of render requests inside one frame window give no render in
/// that window; the first cycle after the window (here a timed-out wait)
/// performs exactly one render.
pub proof fn lemma_one_render_per_window(s: FramePacer, t0: u64, cs: Seq<CycleInput>, end: u64)
    requires
        s.last_render == Some(t0),
        t0 + FRAME_BUDGET_NS <= end,
        cs.len() > 0,
        forall|i: int| 0 <= i < cs.len() ==> t0 <= #[trigger] cs[i].now < t0 + FRAME_BUDGET_NS,
        forall|i: int| 0 <= i < cs.len() ==> cs[i].effect != Some(EventEffect::Quit),
        exists|i: int|
            0 <= i < cs.len() && (cs[i].effect == Some(EventEffect::Render) || cs[i].effect == Some(
                EventEffect::FullRender,
            )),
    ensures
        render_times(s, cs).len() == 0,
        run_state(s, cs).render_wanted,
        render_times(s, cs.push(CycleInput { now: end, effect: None })) == seq![end],
{
    lemma_window_no_render(s, t0, cs);
    lemma_render_times_push(s, cs, CycleInput { now: end, effect: None });
}

proof fn lemma_window_no_render(s: FramePacer, t0: u64, cs: Seq<CycleInput>)
    requires
        s.last_render == Some(t0),
        forall|i: int| 0 <= i < cs.len() ==> t0 <= #[trigger] cs[i].now < t0 + FRAME_BUDGET_NS,
    ensures
        render_times(s, cs).len() == 0,
        run_state(s, cs).last_render == Some(t0),
        run_state(s, cs).render_wanted == (s.render_wanted || exists|i: int|
            0 <= i < cs.len() && (cs[i].effect == Some(EventEffect::Render) || cs[i].effect
                == Some(EventEffect::FullRender))),
    decreases cs.len(),
{
    if cs.len() > 0 {
        let s1 = cycle_spec(s, cs[0]).0;
        let rest = cs.drop_first();
        assert forall|i: int| 0 <= i < rest.len() implies t0 <= #[trigger] rest[i].now < t0
            + FRAME_BUDGET_NS by {
            assert(rest[i] == cs[i + 1]);
        }
        lemma_window_no_render(s1, t0, rest);
        let p = |c: CycleInput|
            c.effect == Some(EventEffect::Render) || c.effect == Some(EventEffect::FullRender);
        if exists|i: int| 0 <= i < rest.len() && p(rest[i]) {
            let i = choose|i: int| 0 <= i < rest.len() && p(rest[i]);
            assert(cs[i + 1] == rest[i]);
        }
        if exists|i: int| 0 <= i < cs.len() && p(cs[i]) {
            let i = choose|i: int| 0 <= i < cs.len() && p(cs[i]);
            if i > 0 {
                assert(rest[i - 1] == cs[i]);
            }
        }
    }
}

proof fn lemma_render_times_push(s: FramePacer, cs: Seq<CycleInput>, c: CycleInput)
    ensures
        render_times(s, cs.push(c)) == render_times(s, cs) + (if cycle_spec(run_state(s, cs), c).1 {
            seq![c.now]
        } else {
            seq![]
        }),
    decreases cs.len(),
{
    if cs.len() == 0 {
        let xs = cs.push(c);
        assert(xs.drop_first() =~= Seq::<CycleInput>::empty());
        assert(xs[0] == c);
        let s1 = cycle_spec(s, c).0;
        assert(render_times(s1, xs.drop_first()) == Seq::<u64>::empty());
        let t: Seq<u64> = if cycle_spec(s, c).1 { seq![c.now] } else { seq![] };
        assert(render_times(s, xs) =~= t + Seq::<u64>::empty());
        assert(render_times(s, cs) + t =~= t);
    } else {
        let s1 = cycle_spec(s, cs[0]).0;
        lemma_render_times_push(s1, cs.drop_first(), c);
        assert(cs.push(c).drop_first() =~= cs.drop_first().push(c));
        assert(cs.push(c)[0] == cs[0]);
        let h: Seq<u64> = if cycle_spec(s, cs[0]).1 { seq![cs[0].now] } else { seq![] };
        let t: Seq<u64> = if cycle_spec(run_state(s, cs), c).1 { seq![c.now] } else { seq![] };
        assert(h + (render_times(s1, cs.drop_first()) + t) =~= (h + render_times(s1, cs.drop_first()))
            + t);
    }
}

/// The events of producer `p` in a stream of (producer, event) pairs, in stream order.
pub open spec fn events_of<E>(xs: Seq<(u64, E)>, p: u64) -> Seq<E>
    decreases xs.len(),
{
    if xs.len() == 0 {
        seq![]
    } else if xs.last().0 == p {
        events_of(xs.drop_last(), p).push(xs.last().1)
    } else {
        events_of(xs.drop_last(), p)
    }
}

proof fn lemma_events_of_concat<E>(a: Seq<(u64, E)>, b: Seq<(u64, E)>, p: u64)
    ensures
        events_of(a + b, p) == events_of(a, p) + events_of(b, p),
    decreases b.len(),
{
    if b.len() == 0 {
        assert(a + b =~= a);
        assert(events_of(a, p) + events_of(b, p) =~= events_of(a, p));
    } else {
        assert((a + b).drop_last() =~= a + b.drop_last());
        assert((a + b).last() == b.last());
        lemma_events_of_concat(a, b.drop_last(), p);
        if b.last().0 == p {
            assert(events_of(a, p) + events_of(b.drop_last(), p).push(b.last().1) =~= (events_of(a, p)
                + events_of(b.drop_last(), p)).push(b.last().1));
        }
    }
}

/// The bus is one FIFO queue into which the producers' sends are interleaved;
/// the loop takes one event from its front per cycle that does not time out.
/// After any number `n` of such cycles, each producer's handled events are the
/// first ones it sent, in the order it sent them: never reordered, never skipped.
pub proof fn lemma_producer_order_kept<E>(bus: Seq<(u64, E)>, n: nat, p: u64)
    requires
        n <= bus.len(),
    ensures
        events_of(bus, p) == events_of(bus.take(n as int), p) + events_of(bus.skip(n as int), p),
        events_of(bus.take(n as int), p) == events_of(bus, p).take(events_of(bus.take(n as int), p).len() as int),
{
    assert(bus =~= bus.take(n as int) + bus.skip(n as int));
    lemma_events_of_concat(bus.take(n as int), bus.skip(n as int), p);
    let h = events_of(bus.take(n as int), p);
    assert((h + events_of(bus.skip(n as int), p)).take(h.len() as int) =~= h);
}

} // verus!
