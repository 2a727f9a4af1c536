//! Construction and teardown of a render context, as a state machine.
//!
//! The machine names one action at a time (create this object, destroy that
//! one, wait for the device to go idle); the caller performs it and reports
//! the outcome as an event. Every object that was made is kept on a stack:
//! a failed step unwinds the stack, and teardown first waits for the device to
//! go idle and then unwinds it, so objects are always released in exactly the
//! reverse order of their creation.
use crate::resources::{
    construction_plan,
    lemma_bootstrap_fixed,
    plan_len,
    plan_step,
    planned,
    Resource,
    FIXED_STEPS,
    IMAGE_CHAIN_STEP,
    SLOT_STEPS,
};
use crate::frame_loop::{initial_loop, FrameLoop};
use vstd::prelude::*;

verus! {

/// Where a render context is in its life.
#[derive(Clone, Copy, Debug, PartialEq, Eq, Structural)]
pub enum Phase {
    /// Objects are being made, in plan order.
    Building,
    /// A step failed; what was made is being released, newest first.
    Unwinding,
    /// Every object exists; frames may be rendered.
    Live,
    /// Shutdown was asked for; waiting for the device to finish its work.
    Quiescing,
    /// The device is idle; every object is being released, newest first.
    Draining,
    /// The device could not be brought to idle; nothing may be released.
    Halted,
}

/// What the caller is to do next.
#[derive(Clone, Copy, Debug, PartialEq, Eq, Structural)]
pub enum Action {
    /// Make this object.
    Create(Resource),
    /// Release this object.
    Destroy(Resource),
    /// Block until the device has no outstanding work.
    WaitIdle,
    /// Construction is complete.
    Live,
    /// Construction failed and everything made so far has been released.
    Aborted,
    /// Teardown is complete.
    Released,
    /// The device never went idle; the objects are left as they are.
    Halted,
}

/// The outcome of the last action, as the caller reports it.
#[derive(Clone, Copy, Debug, PartialEq, Eq, Structural)]
pub enum Event {
    /// The object was made.
    Created,
    /// The image chain was made, with this many presentable images.
    ChainCreated { images: u32 },
    /// The action failed.
    Failed,
    /// The object was released.
    Destroyed,
    /// The owner asks for the context to be torn down.
    Shutdown,
    /// The device reported that it is idle.
    Idle,
}

/// The abstract state of a context's life.
pub struct LifeState {
    pub phase: Phase,
    /// Number of presentable images (0 until the image chain exists).
    pub images: nat,
    /// Number of frame slots.
    pub frames: nat,
    /// The objects that exist, oldest first.
    pub created: Seq<Resource>,
}

/// The state before anything is made.
pub open spec fn initial(frames: nat) -> LifeState {
    LifeState { phase: Phase::Building, images: 0, frames, created: Seq::empty() }
}

/// The plan that state `s` follows.
pub open spec fn plan_of(s: LifeState) -> Seq<Resource> {
    construction_plan(s.images, s.frames)
}

/// The states a context can be in.
pub open spec fn state_wf(s: LifeState) -> bool {
    let n = plan_len(s.images, s.frames);
    &&& s.frames <= u32::MAX
    &&& s.images <= u32::MAX
    &&& n <= usize::MAX
    &&& s.created.len() <= n
    &&& s.created == plan_of(s).take(s.created.len() as int)
    &&& s.phase == Phase::Building ==> s.created.len() < n
    &&& (s.phase == Phase::Live || s.phase == Phase::Quiescing) ==> s.created.len() == n
}

/// The action owed in state `s`.
pub open spec fn action_in(s: LifeState) -> Action {
    match s.phase {
        Phase::Building => Action::Create(plan_of(s)[s.created.len() as int]),
        Phase::Unwinding => if s.created.len() == 0 {
            Action::Aborted
        } else {
            Action::Destroy(s.created.last())
        },
        Phase::Live => Action::Live,
        Phase::Quiescing => Action::WaitIdle,
        Phase::Draining => if s.created.len() == 0 {
            Action::Released
        } else {
            Action::Destroy(s.created.last())
        },
        Phase::Halted => Action::Halted,
    }
}

/// State `s` with `r` made: construction is complete once the plan is.
pub open spec fn with_created(s: LifeState, r: Resource) -> LifeState {
    let c = s.created.push(r);
    LifeState {
        phase: if c.len() == plan_len(s.images, s.frames) {
            Phase::Live
        } else {
            Phase::Building
        },
        images: s.images,
        frames: s.frames,
        created: c,
    }
}

/// State `s` with phase `p`.
pub open spec fn in_phase(s: LifeState, p: Phase) -> LifeState {
    LifeState { phase: p, images: s.images, frames: s.frames, created: s.created }
}

/// The state after event `e` in state `s`. An event that does not answer the
/// action owed leaves the state as it is.
pub open spec fn after(s: LifeState, e: Event) -> LifeState {
    match s.phase {
        Phase::Building => {
            let r = plan_of(s)[s.created.len() as int];
            match e {
                Event::Created => if r != Resource::ImageChain {
                    with_created(s, r)
                } else {
                    s
                },
                Event::ChainCreated { images } => if r != Resource::ImageChain {
                    s
                } else if plan_len(images as nat, s.frames) <= usize::MAX {
                    with_created(
                        LifeState {
                            phase: s.phase,
                            images: images as nat,
                            frames: s.frames,
                            created: s.created,
                        },
                        r,
                    )
                } else {
                    // The chain exists but is too large to plan for: release it.
                    LifeState {
                        phase: Phase::Unwinding,
                        images: s.images,
                        frames: s.frames,
                        created: s.created.push(r),
                    }
                },
                Event::Failed => in_phase(s, Phase::Unwinding),
                _ => s,
            }
        },
        Phase::Unwinding | Phase::Draining => if e == Event::Destroyed && s.created.len() > 0 {
            LifeState {
                phase: s.phase,
                images: s.images,
                frames: s.frames,
                created: s.created.drop_last(),
            }
        } else {
            s
        },
        Phase::Live => if e == Event::Shutdown {
            in_phase(s, Phase::Quiescing)
        } else {
            s
        },
        Phase::Quiescing => if e == Event::Idle {
            in_phase(s, Phase::Draining)
        } else if e == Event::Failed {
            in_phase(s, Phase::Halted)
        } else {
            s
        },
        Phase::Halted => s,
    }
}

/// Every event keeps a state well formed.
pub proof fn lemma_after_wf(s: LifeState, e: Event)
    requires
        state_wf(s),
    ensures
        state_wf(after(s, e)),
{
    let n = s.created.len();
    if s.phase == Phase::Building {
        let r = plan_of(s)[n as int];
        if let Event::ChainCreated { images } = e {
            if r == Resource::ImageChain {
                assert(n == IMAGE_CHAIN_STEP) by {
                    if n != IMAGE_CHAIN_STEP {
                        assert(planned(s.images, n as int) != Resource::ImageChain);
                    }
                }
                let t = after(s, e);
                assert forall|i: int| 0 <= i < t.created.len() implies t.created[i] == plan_of(
                    t,
                )[i] by {
                    lemma_bootstrap_fixed(s.images, t.images, i);
                }
                assert(t.created =~= plan_of(t).take(t.created.len() as int));
            }
        } else {
            let t = after(s, e);
            assert(t.created =~= plan_of(t).take(t.created.len() as int));
        }
    } else {
        let t = after(s, e);
        assert(t.created =~= plan_of(t).take(t.created.len() as int));
    }
}

/// The state reached from `s` through `events`.
pub open spec fn run(s: LifeState, events: Seq<Event>) -> LifeState
    decreases events.len(),
{
    if events.len() == 0 {
        s
    } else {
        run(after(s, events[0]), events.drop_first())
    }
}

/// The actions owed from `s` on through `events`: the one owed before each
/// event, and the one owed at the end.
pub open spec fn trace(s: LifeState, events: Seq<Event>) -> Seq<Action>
    decreases events.len(),
{
    if events.len() == 0 {
        seq![action_in(s)]
    } else {
        seq![action_in(s)] + trace(after(s, events[0]), events.drop_first())
    }
}

/// The creation actions for `c`, oldest first.
pub open spec fn creations(c: Seq<Resource>) -> Seq<Action> {
    Seq::new(c.len(), |i: int| Action::Create(c[i]))
}

/// The release actions for `c`, newest first.
pub open spec fn releases(c: Seq<Resource>) -> Seq<Action> {
    Seq::new(c.len(), |i: int| Action::Destroy(c[c.len() - 1 - i]))
}

/// The events of a construction whose first `k` steps succeed, on a device
/// whose image chain has `images` images.
pub open spec fn successes(images: u32, k: nat) -> Seq<Event> {
    Seq::new(
        k,
        |i: int|
            if i == IMAGE_CHAIN_STEP {
                Event::ChainCreated { images }
            } else {
                Event::Created
            },
    )
}

/// `n` confirmed releases.
pub open spec fn confirmations(n: nat) -> Seq<Event> {
    Seq::new(n, |i: int| Event::Destroyed)
}

/// The state once the first `k` steps of the plan have succeeded.
pub open spec fn built(images: nat, frames: nat, k: nat) -> LifeState {
    LifeState {
        phase: if k == plan_len(images, frames) {
            Phase::Live
        } else {
            Phase::Building
        },
        images: if k > IMAGE_CHAIN_STEP {
            images
        } else {
            0
        },
        frames,
        created: construction_plan(images, frames).take(k as int),
    }
}

proof fn lemma_trace_len(s: LifeState, events: Seq<Event>)
    ensures
        trace(s, events).len() == events.len() + 1,
    decreases events.len(),
{
    if events.len() > 0 {
        lemma_trace_len(after(s, events[0]), events.drop_first());
    }
}

/// Running through `a + b` is running through `a`, then through `b`.
proof fn lemma_run_append(s: LifeState, a: Seq<Event>, b: Seq<Event>)
    ensures
        run(s, a + b) == run(run(s, a), b),
        trace(s, a + b) == trace(s, a).drop_last() + trace(run(s, a), b),
    decreases a.len(),
{
    if a.len() == 0 {
        assert(a + b =~= b);
        assert(trace(s, a).drop_last() =~= Seq::<Action>::empty());
        assert(trace(s, a + b) =~= trace(s, a).drop_last() + trace(run(s, a), b));
    } else {
        let t = after(s, a[0]);
        assert((a + b)[0] == a[0]);
        assert((a + b).drop_first() =~= a.drop_first() + b);
        lemma_run_append(t, a.drop_first(), b);
        lemma_trace_len(t, a.drop_first());
        assert(trace(s, a).drop_last() =~= seq![action_in(s)] + trace(t, a.drop_first()).drop_last());
        assert(trace(s, a + b) =~= trace(s, a).drop_last() + trace(run(s, a), b));
    }
}

/// Confirming every release from an unwinding or draining state releases
/// the objects newest first and leaves none.
proof fn lemma_unwind(s: LifeState)
    requires
        s.phase == Phase::Unwinding || s.phase == Phase::Draining,
    ensures
        trace(s, confirmations(s.created.len())) == releases(s.created) + seq![
            if s.phase == Phase::Unwinding {
                Action::Aborted
            } else {
                Action::Released
            },
        ],
        run(s, confirmations(s.created.len())).created.len() == 0,
    decreases s.created.len(),
{
    let n = s.created.len();
    let events = confirmations(n);
    if n == 0 {
        assert(releases(s.created) =~= Seq::<Action>::empty());
        assert(trace(s, events) =~= releases(s.created) + seq![action_in(s)]);
    } else {
        let t = after(s, Event::Destroyed);
        assert(events[0] == Event::Destroyed);
        assert(events.drop_first() =~= confirmations((n - 1) as nat));
        lemma_unwind(t);
        assert(releases(s.created) =~= seq![Action::Destroy(s.created.last())] + releases(
            t.created,
        ));
        assert(trace(s, events) =~= releases(s.created) + seq![
            if s.phase == Phase::Unwinding {
                Action::Aborted
            } else {
                Action::Released
            },
        ]);
    }
}

/// Succeeding at the first `k` steps makes the first `k` objects of the plan,
/// in order.
proof fn lemma_build(images: u32, frames: u32, k: nat)
    requires
        plan_len(images as nat, frames as nat) <= usize::MAX,
        k <= plan_len(images as nat, frames as nat),
    ensures
        run(initial(frames as nat), successes(images, k)) == built(images as nat, frames as nat, k),
        trace(initial(frames as nat), successes(images, k)) == creations(
            construction_plan(images as nat, frames as nat).take(k as int),
        ) + seq![action_in(built(images as nat, frames as nat, k))],
    decreases k,
{
    let plan = construction_plan(images as nat, frames as nat);
    let init = initial(frames as nat);
    if k == 0 {
        assert(built(images as nat, frames as nat, 0).created =~= Seq::<Resource>::empty());
        assert(built(images as nat, frames as nat, 0) == init);
        assert(creations(plan.take(0)) =~= Seq::<Action>::empty());
        assert(trace(init, successes(images, 0)) =~= creations(plan.take(0)) + seq![
            action_in(init),
        ]);
    } else {
        let j = (k - 1) as nat;
        lemma_build(images, frames, j);
        let a = successes(images, j);
        let e = successes(images, k)[j as int];
        assert(successes(images, k) =~= a + seq![e]);
        lemma_run_append(init, a, seq![e]);
        let s = built(images as nat, frames as nat, j);
        let t = built(images as nat, frames as nat, k);
        if j < IMAGE_CHAIN_STEP + 1 {
            lemma_bootstrap_fixed(s.images, images as nat, j as int);
        }
        assert(plan_of(s)[j as int] == plan[j as int]);
        assert(s.created.push(plan[j as int]) =~= t.created);
        if j == IMAGE_CHAIN_STEP {
            assert(after(s, e) == t);
        } else {
            assert(plan[j as int] != Resource::ImageChain);
            assert(after(s, e) == t);
        }
        assert(seq![e].drop_first() =~= Seq::<Event>::empty());
        assert(seq![e][0] == e);
        assert(run(s, seq![e]) == run(after(s, e), Seq::<Event>::empty()));
        assert(run(s, seq![e]) == t);
        assert(trace(s, seq![e]) == seq![action_in(s)] + trace(t, Seq::<Event>::empty()));
        assert(trace(s, seq![e]) =~= seq![action_in(s), action_in(t)]);
        lemma_trace_len(init, a);
        assert(trace(init, a).drop_last() =~= creations(plan.take(j as int)));
        assert(creations(plan.take(k as int)) =~= creations(plan.take(j as int)) + seq![
            action_in(s),
        ]);
        assert(trace(init, successes(images, k)) =~= creations(plan.take(k as int)) + seq![
            action_in(t),
        ]);
    }
}

/// When step `k` of construction fails, exactly the `k` objects made before
/// it are released, newest first, and nothing is left.
pub proof fn law_failed_construction_releases_everything(images: u32, frames: u32, k: nat)
    requires
        plan_len(images as nat, frames as nat) <= usize::MAX,
        k < plan_len(images as nat, frames as nat),
    ensures
        ({
            let plan = construction_plan(images as nat, frames as nat);
            let events = successes(images, k) + seq![Event::Failed] + confirmations(k);
            &&& trace(initial(frames as nat), events) == creations(plan.take(k as int + 1))
                + releases(plan.take(k as int)) + seq![Action::Aborted]
            &&& run(initial(frames as nat), events).created.len() == 0
        }),
{
    let plan = construction_plan(images as nat, frames as nat);
    let init = initial(frames as nat);
    let a = successes(images, k);
    let b = seq![Event::Failed] + confirmations(k);
    assert(a + seq![Event::Failed] + confirmations(k) =~= a + b);
    lemma_build(images, frames, k);
    lemma_run_append(init, a, b);
    let s = built(images as nat, frames as nat, k);
    let u = after(s, Event::Failed);
    if k < IMAGE_CHAIN_STEP + 1 {
        lemma_bootstrap_fixed(s.images, images as nat, k as int);
    }
    assert(action_in(s) == Action::Create(plan[k as int]));
    assert(u.created.len() == k);
    lemma_unwind(u);
    assert(b[0] == Event::Failed);
    assert(b.drop_first() =~= confirmations(k));
    assert(trace(s, b) == seq![action_in(s)] + trace(u, confirmations(k)));
    assert(run(s, b) == run(u, confirmations(k)));
    lemma_trace_len(init, a);
    assert(creations(plan.take(k as int + 1)) =~= creations(plan.take(k as int)) + seq![
        action_in(s),
    ]);
    assert(trace(init, a).drop_last() =~= creations(plan.take(k as int)));
    assert(trace(init, a + b) =~= creations(plan.take(k as int + 1)) + releases(
        plan.take(k as int),
    ) + seq![Action::Aborted]);
}

/// A context built in full and then shut down waits for the device to go
/// idle and then releases every object in exactly the reverse order of
/// construction, leaving none.
pub proof fn law_teardown_reverses_construction(images: u32, frames: u32)
    requires
        plan_len(images as nat, frames as nat) <= usize::MAX,
    ensures
        ({
            let plan = construction_plan(images as nat, frames as nat);
            let events = successes(images, plan.len()) + seq![Event::Shutdown, Event::Idle]
                + confirmations(plan.len());
            &&& trace(initial(frames as nat), events) == creations(plan) + seq![
                Action::Live,
                Action::WaitIdle,
            ] + releases(plan) + seq![Action::Released]
            &&& run(initial(frames as nat), events).created.len() == 0
        }),
{
    let plan = construction_plan(images as nat, frames as nat);
    let n = plan.len();
    let init = initial(frames as nat);
    let a = successes(images, n);
    let b = seq![Event::Shutdown, Event::Idle] + confirmations(n);
    assert(a + seq![Event::Shutdown, Event::Idle] + confirmations(n) =~= a + b);
    lemma_build(images, frames, n);
    lemma_run_append(init, a, b);
    let s = built(images as nat, frames as nat, n);
    assert(plan.take(n as int) =~= plan);
    let q = after(s, Event::Shutdown);
    let d = after(q, Event::Idle);
    assert(d.created.len() == n);
    lemma_unwind(d);
    assert(b[0] == Event::Shutdown);
    assert(b.drop_first()[0] == Event::Idle);
    assert(b.drop_first().drop_first() =~= confirmations(n));
    assert(trace(q, b.drop_first()) == seq![Action::WaitIdle] + trace(d, confirmations(n)));
    assert(trace(s, b) == seq![Action::Live] + trace(q, b.drop_first()));
    assert(run(q, b.drop_first()) == run(d, confirmations(n)));
    assert(run(s, b) == run(q, b.drop_first()));
    lemma_trace_len(init, a);
    assert(trace(init, a).drop_last() =~= creations(plan));
    assert(trace(init, a + b) =~= creations(plan) + seq![Action::Live, Action::WaitIdle]
        + releases(plan) + seq![Action::Released]);
}

/// A render context's construction and teardown.
pub struct Lifecycle {
    phase: Phase,
    images: u32,
    frames: u32,
    created: Vec<Resource>,
}

impl View for Lifecycle {
    type V = LifeState;

    closed spec fn view(&self) -> LifeState {
        LifeState {
            phase: self.phase,
            images: self.images as nat,
            frames: self.frames as nat,
            created: self.created@,
        }
    }
}

/// Number of plan steps, when it fits in a `usize`.
fn plan_length(images: u32, frames: u32) -> (r: Option<usize>)
    ensures
        r matches Some(n) ==> n == plan_len(images as nat, frames as nat),
        r is None <==> plan_len(images as nat, frames as nat) > usize::MAX,
{
    assert(SLOT_STEPS as u64 * frames as u64 <= 6 * 0xffff_ffffu64) by (nonlinear_arith)
        requires
            frames <= 0xffff_ffffu32,
    ;
    let n: u64 = FIXED_STEPS as u64 + images as u64 + SLOT_STEPS as u64 * frames as u64;
    if n <= usize::MAX as u64 {
        Some(n as usize)
    } else {
        None
    }
}

impl Lifecycle {
    #[verifier::type_invariant]
    spec fn inv(&self) -> bool {
        state_wf(self@)
    }

    /// A context with `frames` frame slots, before anything is made.
    pub fn new(frames: u32) -> (r: Self)
        requires
            plan_len(0, frames as nat) <= usize::MAX,
        ensures
            r@ == initial(frames as nat),
    {
        let created: Vec<Resource> = Vec::new();
        assert(created@ =~= construction_plan(0, frames as nat).take(0));
        Lifecycle { phase: Phase::Building, images: 0, frames, created }
    }

    /// Where the context is in its life.
    pub fn phase(&self) -> (r: Phase)
        ensures
            r == self@.phase,
    {
        self.phase
    }

    /// Number of presentable images (0 until the image chain exists).
    pub fn images(&self) -> (r: u32)
        ensures
            r == self@.images,
    {
        self.images
    }

    /// Number of frame slots.
    pub fn frames(&self) -> (r: u32)
        ensures
            r == self@.frames,
    {
        self.frames
    }

    /// Number of objects that exist.
    pub fn live_objects(&self) -> (r: usize)
        ensures
            r == self@.created.len(),
    {
        self.created.len()
    }

    /// The frame loop of a live context, before its first tick. There is
    /// none while the context is not live, nor for a context without slots.
    pub fn frame_loop(&self) -> (r: Option<FrameLoop>)
        ensures
            r is Some <==> (self@.phase == Phase::Live && self@.frames > 0),
            r matches Some(l) ==> l@ == initial_loop(self@.frames, self@.images),
    {
        if matches!(self.phase, Phase::Live) && self.frames > 0 {
            Some(FrameLoop::new(self.frames, self.images))
        } else {
            None
        }
    }

    /// The action owed now.
    pub fn next_action(&self) -> (a: Action)
        ensures
            a == action_in(self@),
    {
        proof {
            use_type_invariant(self);
        }
        let n: usize = self.created.len();
        match self.phase {
            Phase::Building => Action::Create(plan_step(self.images, self.frames, n)),
            Phase::Unwinding => if n == 0 {
                Action::Aborted
            } else {
                Action::Destroy(self.created[n - 1])
            },
            Phase::Live => Action::Live,
            Phase::Quiescing => Action::WaitIdle,
            Phase::Draining => if n == 0 {
                Action::Released
            } else {
                Action::Destroy(self.created[n - 1])
            },
            Phase::Halted => Action::Halted,
        }
    }

    /// Takes in the outcome of the action owed.
    pub fn step(&mut self, e: Event)
        ensures
            final(self)@ == after(old(self)@, e),
    {
        proof {
            use_type_invariant(&*self);
            lemma_after_wf(self@, e);
        }
        let ghost s = self@;
        let empty: Vec<Resource> = Vec::new();
        assert(empty@ =~= construction_plan(0, 0).take(0));
        let mut cur = Lifecycle { phase: Phase::Halted, images: 0, frames: 0, created: empty };
        std::mem::swap(&mut cur, self);
        let Lifecycle { phase, images, frames, mut created } = cur;
        let n: usize = created.len();
        let mut next_phase = phase;
        let mut next_images: u32 = images;
        match phase {
            Phase::Building => {
                let r = plan_step(images, frames, n);
                match e {
                    Event::Created => {
                        if !matches!(r, Resource::ImageChain) {
                            created.push(r);
                            if Some(created.len()) == plan_length(images, frames) {
                                next_phase = Phase::Live;
                            }
                        }
                    },
                    Event::ChainCreated { images: count } => {
                        if matches!(r, Resource::ImageChain) {
                            created.push(r);
                            match plan_length(count, frames) {
                                Some(total) => {
                                    next_images = count;
                                    if created.len() == total {
                                        next_phase = Phase::Live;
                                    }
                                },
                                None => {
                                    next_phase = Phase::Unwinding;
                                },
                            }
                        }
                    },
                    Event::Failed => {
                        next_phase = Phase::Unwinding;
                    },
                    _ => {},
                }
            },
            Phase::Unwinding | Phase::Draining => {
                if matches!(e, Event::Destroyed) && n > 0 {
                    created.pop();
                }
            },
            Phase::Live => {
                if matches!(e, Event::Shutdown) {
                    next_phase = Phase::Quiescing;
                }
            },
            Phase::Quiescing => {
                if matches!(e, Event::Idle) {
                    next_phase = Phase::Draining;
                } else if matches!(e, Event::Failed) {
                    next_phase = Phase::Halted;
                }
            },
            Phase::Halted => {},
        }
        proof {
            assert(created@ =~= after(s, e).created);
        }
        *self = Lifecycle { phase: next_phase, images: next_images, frames, created };
    }
}

} // verus!
