//! The per-tick frame loop over a fixed ring of frame slots, as a state machine.
//!
//! Each tick uses slot `tick mod N` and runs, strictly in order: wait for the
//! slot's fence, reset the fence and the slot's commands, acquire a
//! presentable image, record, submit, present. The tick count then advances.
//! The caller performs each action and reports its outcome; any failure ends
//! the loop. A stop request is honoured only between ticks.
use vstd::prelude::*;

verus! {

/// Where the loop stands within a tick.
#[derive(Clone, Copy, Debug, PartialEq, Eq, Structural)]
pub enum Stage {
    WaitFence,
    Reset,
    Acquire,
    Record,
    Submit,
    Present,
    /// The loop ended normally.
    Stopped,
    /// The loop ended on a fatal error.
    Failed(LoopError),
}

/// Why the loop ended on a fatal error.
#[derive(Clone, Copy, Debug, PartialEq, Eq, Structural)]
pub enum LoopError {
    FenceWait,
    Reset,
    Acquire,
    /// The presentation engine named an image that does not exist.
    ImageOutOfRange,
    Record,
    Submit,
    Present,
}

/// What the caller is to do next.
#[derive(Clone, Copy, Debug, PartialEq, Eq, Structural)]
pub enum FrameAction {
    /// Block until the slot's fence is signaled.
    WaitFence { slot: u32 },
    /// Unsignal the slot's fence and reset its command pool and buffer.
    Reset { slot: u32 },
    /// Acquire the next presentable image, signaling the slot's acquire semaphore.
    Acquire { slot: u32 },
    /// Record the slot's commands against `image`, writing the current
    /// transform into the slot's uniform buffer.
    Record { slot: u32, image: u32 },
    /// Submit the slot's commands: wait on its acquire semaphore, signal its
    /// render semaphore and its fence.
    Submit { slot: u32, image: u32 },
    /// Present `image` once the slot's render semaphore is signaled.
    Present { slot: u32, image: u32 },
    /// The loop is over.
    Stop,
    /// The loop ended on this error.
    Fail(LoopError),
}

/// The outcome of the last action, as the caller reports it.
#[derive(Clone, Copy, Debug, PartialEq, Eq, Structural)]
pub enum FrameEvent {
    /// The action succeeded.
    Done,
    /// The acquire succeeded with this image index.
    Acquired { image: u32 },
    /// The action failed.
    Failed,
    /// The owner asks for the loop to end after the current tick.
    StopRequested,
}

/// The abstract state of the loop.
pub struct LoopState {
    /// Number of frame slots, N.
    pub slots: nat,
    /// Number of presentable images.
    pub images: nat,
    /// Ticks completed so far.
    pub tick: nat,
    pub stage: Stage,
    /// The image acquired in the current tick.
    pub image: nat,
    /// For each slot: it was submitted, and its fence has not been seen
    /// signaled since.
    pub in_flight: Seq<bool>,
    /// A stop was asked for during the current tick.
    pub stop: bool,
}

/// The slot that tick `tick` uses in a ring of `slots` slots.
pub open spec fn slot_of(tick: nat, slots: nat) -> nat
    recommends
        slots > 0,
{
    tick % slots
}

/// The slot of the current tick.
pub open spec fn current_slot(s: LoopState) -> nat {
    slot_of(s.tick, s.slots)
}

/// The loop before its first tick: every fence starts signaled.
pub open spec fn initial_loop(slots: nat, images: nat) -> LoopState {
    LoopState {
        slots,
        images,
        tick: 0,
        stage: Stage::WaitFence,
        image: 0,
        in_flight: Seq::new(slots, |i: int| false),
        stop: false,
    }
}

/// The states the loop can be in.
pub open spec fn loop_wf(s: LoopState) -> bool {
    let k = current_slot(s) as int;
    &&& 0 < s.slots <= u32::MAX
    &&& s.images <= u32::MAX
    &&& s.tick <= u64::MAX
    &&& s.in_flight.len() == s.slots
    &&& (s.stage == Stage::Reset || s.stage == Stage::Acquire || s.stage == Stage::Record
        || s.stage == Stage::Submit) ==> !s.in_flight[k]
    &&& s.stage == Stage::Present ==> s.in_flight[k]
    &&& (s.stage == Stage::Record || s.stage == Stage::Submit || s.stage == Stage::Present)
        ==> s.image < s.images
}

/// The action owed in state `s`.
pub open spec fn action_of(s: LoopState) -> FrameAction {
    let slot = current_slot(s) as u32;
    let image = s.image as u32;
    match s.stage {
        Stage::WaitFence => FrameAction::WaitFence { slot },
        Stage::Reset => FrameAction::Reset { slot },
        Stage::Acquire => FrameAction::Acquire { slot },
        Stage::Record => FrameAction::Record { slot, image },
        Stage::Submit => FrameAction::Submit { slot, image },
        Stage::Present => FrameAction::Present { slot, image },
        Stage::Stopped => FrameAction::Stop,
        Stage::Failed(err) => FrameAction::Fail(err),
    }
}

/// The error with which a failure in `stage` ends the loop.
pub open spec fn failure_in(stage: Stage) -> LoopError {
    match stage {
        Stage::WaitFence => LoopError::FenceWait,
        Stage::Reset => LoopError::Reset,
        Stage::Acquire => LoopError::Acquire,
        Stage::Record => LoopError::Record,
        Stage::Submit => LoopError::Submit,
        _ => LoopError::Present,
    }
}

/// State `s` moved on to `stage`.
pub open spec fn at_stage(s: LoopState, stage: Stage) -> LoopState {
    LoopState { stage, ..s }
}

/// The state after event `e` in state `s`. An event that does not answer the
/// action owed leaves the state as it is.
pub open spec fn step_of(s: LoopState, e: FrameEvent) -> LoopState {
    let k = current_slot(s) as int;
    match s.stage {
        Stage::Stopped | Stage::Failed(_) => s,
        _ => match e {
            FrameEvent::Failed => at_stage(s, Stage::Failed(failure_in(s.stage))),
            FrameEvent::StopRequested => if s.stage == Stage::WaitFence {
                at_stage(s, Stage::Stopped)
            } else {
                LoopState { stop: true, ..s }
            },
            FrameEvent::Acquired { image } => if s.stage != Stage::Acquire {
                s
            } else if image < s.images {
                LoopState { stage: Stage::Record, image: image as nat, ..s }
            } else {
                at_stage(s, Stage::Failed(LoopError::ImageOutOfRange))
            },
            FrameEvent::Done => match s.stage {
                Stage::WaitFence => LoopState {
                    stage: Stage::Reset,
                    in_flight: s.in_flight.update(k, false),
                    ..s
                },
                Stage::Reset => at_stage(s, Stage::Acquire),
                Stage::Record => at_stage(s, Stage::Submit),
                Stage::Submit => LoopState {
                    stage: Stage::Present,
                    in_flight: s.in_flight.update(k, true),
                    ..s
                },
                Stage::Present => if s.tick == u64::MAX {
                    at_stage(s, Stage::Stopped)
                } else {
                    LoopState {
                        stage: if s.stop {
                            Stage::Stopped
                        } else {
                            Stage::WaitFence
                        },
                        tick: s.tick + 1,
                        ..s
                    }
                },
                _ => s,
            },
        },
    }
}

/// Every event keeps the loop's state well formed.
pub proof fn lemma_step_wf(s: LoopState, e: FrameEvent)
    requires
        loop_wf(s),
    ensures
        loop_wf(step_of(s, e)),
{
}

/// The slot index of tick `tick` in a ring of `slots` slots.
pub fn slot_for_tick(tick: u64, slots: u32) -> (r: u32)
    requires
        slots > 0,
    ensures
        r == slot_of(tick as nat, slots as nat),
{
    (tick % (slots as u64)) as u32
}

/// A slot's fence is seen signaled before the slot is reset, recorded into or
/// submitted again, so no slot ever has more than one submission outstanding.
/// A slot enters flight only when its submission succeeds, and leaves it only
/// when the wait on its fence does.
pub proof fn law_fence_before_reuse(s: LoopState, e: FrameEvent)
    requires
        loop_wf(s),
    ensures
        action_of(s) matches FrameAction::Reset { slot } ==> !s.in_flight[slot as int],
        action_of(s) matches FrameAction::Record { slot, .. } ==> !s.in_flight[slot as int],
        action_of(s) matches FrameAction::Submit { slot, .. } ==> !s.in_flight[slot as int],
        forall|k: int|
            0 <= k < s.slots && #[trigger] step_of(s, e).in_flight[k] && !s.in_flight[k] ==> (e
                == FrameEvent::Done && action_of(s) == FrameAction::Submit {
                slot: k as u32,
                image: s.image as u32,
            }),
        forall|k: int|
            0 <= k < s.slots && !#[trigger] step_of(s, e).in_flight[k] && s.in_flight[k] ==> (e
                == FrameEvent::Done && action_of(s) == FrameAction::WaitFence { slot: k as u32 }),
{
}

/// The state reached from `s` through `events`.
pub open spec fn loop_run(s: LoopState, events: Seq<FrameEvent>) -> LoopState
    decreases events.len(),
{
    if events.len() == 0 {
        s
    } else {
        loop_run(step_of(s, events[0]), events.drop_first())
    }
}

/// The actions owed from `s` on through `events`: the one owed before each
/// event, and the one owed at the end.
pub open spec fn loop_trace(s: LoopState, events: Seq<FrameEvent>) -> Seq<FrameAction>
    decreases events.len(),
{
    if events.len() == 0 {
        seq![action_of(s)]
    } else {
        seq![action_of(s)] + loop_trace(step_of(s, events[0]), events.drop_first())
    }
}

/// The events of one tick in which every action succeeds and the acquire
/// yields `image`.
pub open spec fn tick_events(image: u32) -> Seq<FrameEvent> {
    seq![
        FrameEvent::Done,
        FrameEvent::Done,
        FrameEvent::Acquired { image },
        FrameEvent::Done,
        FrameEvent::Done,
        FrameEvent::Done,
    ]
}

/// The actions of one tick on `slot` that draws into `image`.
pub open spec fn tick_actions(slot: u32, image: u32) -> Seq<FrameAction> {
    seq![
        FrameAction::WaitFence { slot },
        FrameAction::Reset { slot },
        FrameAction::Acquire { slot },
        FrameAction::Record { slot, image },
        FrameAction::Submit { slot, image },
        FrameAction::Present { slot, image },
    ]
}

/// The events of successive successful ticks whose acquires yield `images`.
pub open spec fn ticks_events(images: Seq<u32>) -> Seq<FrameEvent>
    decreases images.len(),
{
    if images.len() == 0 {
        Seq::empty()
    } else {
        ticks_events(images.drop_last()) + tick_events(images.last())
    }
}

/// The actions of successive ticks, the first of them tick `first`, whose
/// acquires yield `images`: tick `t` uses slot `t mod slots`.
pub open spec fn ticks_actions(first: nat, slots: nat, images: Seq<u32>) -> Seq<FrameAction>
    decreases images.len(),
{
    if images.len() == 0 {
        Seq::empty()
    } else {
        ticks_actions(first, slots, images.drop_last()) + tick_actions(
            slot_of((first + images.len() - 1) as nat, slots) as u32,
            images.last(),
        )
    }
}

proof fn lemma_loop_trace_len(s: LoopState, events: Seq<FrameEvent>)
    ensures
        loop_trace(s, events).len() == events.len() + 1,
    decreases events.len(),
{
    if events.len() > 0 {
        lemma_loop_trace_len(step_of(s, events[0]), events.drop_first());
    }
}

proof fn lemma_loop_cons(s: LoopState, e: FrameEvent, rest: Seq<FrameEvent>)
    ensures
        loop_run(s, seq![e] + rest) == loop_run(step_of(s, e), rest),
        loop_trace(s, seq![e] + rest) == seq![action_of(s)] + loop_trace(step_of(s, e), rest),
{
    assert((seq![e] + rest)[0] == e);
    assert((seq![e] + rest).drop_first() =~= rest);
}

/// Running through `a + b` is running through `a`, then through `b`.
proof fn lemma_loop_append(s: LoopState, a: Seq<FrameEvent>, b: Seq<FrameEvent>)
    ensures
        loop_run(s, a + b) == loop_run(loop_run(s, a), b),
        loop_trace(s, a + b) == loop_trace(s, a).drop_last() + loop_trace(loop_run(s, a), b),
    decreases a.len(),
{
    if a.len() == 0 {
        assert(a + b =~= b);
        assert(loop_trace(s, a).drop_last() =~= Seq::<FrameAction>::empty());
        assert(loop_trace(s, a + b) =~= loop_trace(s, a).drop_last() + loop_trace(
            loop_run(s, a),
            b,
        ));
    } else {
        let t = step_of(s, a[0]);
        assert((a + b)[0] == a[0]);
        assert((a + b).drop_first() =~= a.drop_first() + b);
        lemma_loop_append(t, a.drop_first(), b);
        lemma_loop_trace_len(t, a.drop_first());
        assert(loop_trace(s, a).drop_last() =~= seq![action_of(s)] + loop_trace(
            t,
            a.drop_first(),
        ).drop_last());
        assert(loop_trace(s, a + b) =~= loop_trace(s, a).drop_last() + loop_trace(
            loop_run(s, a),
            b,
        ));
    }
}

/// One successful tick from a tick boundary uses the tick's slot throughout
/// and ends at the next boundary.
proof fn lemma_one_tick(s: LoopState, image: u32)
    requires
        loop_wf(s),
        s.stage == Stage::WaitFence,
        !s.stop,
        s.tick < u64::MAX,
        image < s.images,
    ensures
        ({
            let t = loop_run(s, tick_events(image));
            &&& loop_wf(t)
            &&& t.stage == Stage::WaitFence
            &&& !t.stop
            &&& t.tick == s.tick + 1
            &&& t.slots == s.slots
            &&& t.images == s.images
            &&& loop_trace(s, tick_events(image)) == tick_actions(
                current_slot(s) as u32,
                image,
            ) + seq![action_of(t)]
        }),
{
    let done = FrameEvent::Done;
    let e5: Seq<FrameEvent> = seq![done];
    let e4 = seq![done] + e5;
    let e3 = seq![done] + e4;
    let e2 = seq![FrameEvent::Acquired { image }] + e3;
    let e1 = seq![done] + e2;
    let e0 = seq![done] + e1;
    assert(e0 =~= tick_events(image));
    let s1 = step_of(s, done);
    let s2 = step_of(s1, done);
    let s3 = step_of(s2, FrameEvent::Acquired { image });
    let s4 = step_of(s3, done);
    let s5 = step_of(s4, done);
    let s6 = step_of(s5, done);
    lemma_loop_cons(s, done, e1);
    lemma_loop_cons(s1, done, e2);
    lemma_loop_cons(s2, FrameEvent::Acquired { image }, e3);
    lemma_loop_cons(s3, done, e4);
    lemma_loop_cons(s4, done, e5);
    lemma_loop_cons(s5, done, Seq::empty());
    assert(e5 =~= seq![done] + Seq::<FrameEvent>::empty());
    lemma_step_wf(s, done);
    lemma_step_wf(s1, done);
    lemma_step_wf(s2, FrameEvent::Acquired { image });
    lemma_step_wf(s3, done);
    lemma_step_wf(s4, done);
    lemma_step_wf(s5, done);
    assert(loop_trace(s, e0) =~= tick_actions(current_slot(s) as u32, image) + seq![
        action_of(s6),
    ]);
}

/// Successive ticks visit the slots round robin: tick `t` uses slot
/// `t mod N` for every one of its actions, whatever images the
/// presentation engine hands out.
pub proof fn law_round_robin(s: LoopState, images: Seq<u32>)
    requires
        loop_wf(s),
        s.stage == Stage::WaitFence,
        !s.stop,
        s.tick + images.len() <= u64::MAX,
        forall|i: int| 0 <= i < images.len() ==> images[i] < s.images,
    ensures
        ({
            let t = loop_run(s, ticks_events(images));
            &&& loop_trace(s, ticks_events(images)) == ticks_actions(s.tick, s.slots, images)
                + seq![FrameAction::WaitFence { slot: slot_of(s.tick + images.len(), s.slots) as u32 }]
            &&& t.tick == s.tick + images.len()
            &&& t.stage == Stage::WaitFence
            &&& !t.stop
        }),
    decreases images.len(),
{
    if images.len() == 0 {
        assert(ticks_events(images) =~= Seq::<FrameEvent>::empty());
        assert(ticks_actions(s.tick, s.slots, images) =~= Seq::<FrameAction>::empty());
        assert(loop_trace(s, ticks_events(images)) =~= ticks_actions(s.tick, s.slots, images)
            + seq![FrameAction::WaitFence { slot: slot_of(s.tick + images.len(), s.slots) as u32 }]);
    } else {
        let front = images.drop_last();
        law_round_robin(s, front);
        let m = loop_run(s, ticks_events(front));
        lemma_loop_wf_run(s, ticks_events(front));
        lemma_one_tick(m, images.last());
        lemma_loop_append(s, ticks_events(front), tick_events(images.last()));
        lemma_loop_trace_len(s, ticks_events(front));
        assert(loop_trace(s, ticks_events(front)).drop_last() =~= ticks_actions(
            s.tick,
            s.slots,
            front,
        ));
        assert(loop_trace(s, ticks_events(images)) =~= ticks_actions(s.tick, s.slots, images)
            + seq![FrameAction::WaitFence { slot: slot_of(s.tick + images.len(), s.slots) as u32 }]);
    }
}

/// Whatever events the device reports, the loop only reaches well-formed
/// states: in every one of them a slot that is reset, recorded into or
/// submitted has no submission outstanding.
pub proof fn law_every_run_is_well_formed(slots: u32, images: u32, events: Seq<FrameEvent>)
    requires
        slots > 0,
    ensures
        loop_wf(loop_run(initial_loop(slots as nat, images as nat), events)),
{
    let s = initial_loop(slots as nat, images as nat);
    assert(s.tick % s.slots == 0) by (nonlinear_arith)
        requires
            s.tick == 0,
            s.slots > 0,
    ;
    lemma_loop_wf_run(s, events);
}

/// Every run keeps the loop's state well formed.
proof fn lemma_loop_wf_run(s: LoopState, events: Seq<FrameEvent>)
    requires
        loop_wf(s),
    ensures
        loop_wf(loop_run(s, events)),
        loop_run(s, events).slots == s.slots,
        loop_run(s, events).images == s.images,
    decreases events.len(),
{
    if events.len() > 0 {
        lemma_step_wf(s, events[0]);
        lemma_loop_wf_run(step_of(s, events[0]), events.drop_first());
    }
}

/// The frame loop of a render context.
pub struct FrameLoop {
    slots: u32,
    images: u32,
    tick: u64,
    stage: Stage,
    image: u32,
    in_flight: Vec<bool>,
    stop: bool,
}

impl View for FrameLoop {
    type V = LoopState;

    closed spec fn view(&self) -> LoopState {
        LoopState {
            slots: self.slots as nat,
            images: self.images as nat,
            tick: self.tick as nat,
            stage: self.stage,
            image: self.image as nat,
            in_flight: self.in_flight@,
            stop: self.stop,
        }
    }
}

impl FrameLoop {
    #[verifier::type_invariant]
    spec fn inv(&self) -> bool {
        loop_wf(self@)
    }

    /// The loop of a context with `slots` frame slots and `images`
    /// presentable images, before its first tick.
    pub fn new(slots: u32, images: u32) -> (r: Self)
        requires
            slots > 0,
        ensures
            r@ == initial_loop(slots as nat, images as nat),
    {
        let mut in_flight: Vec<bool> = Vec::new();
        let mut i: u32 = 0;
        while i < slots
            invariant
                i <= slots,
                in_flight@ == Seq::new(i as nat, |j: int| false),
            decreases slots - i,
        {
            in_flight.push(false);
            i = i + 1;
            assert(in_flight@ =~= Seq::new(i as nat, |j: int| false));
        }
        FrameLoop { slots, images, tick: 0, stage: Stage::WaitFence, image: 0, in_flight, stop: false }
    }

    /// Ticks completed so far.
    pub fn tick(&self) -> (r: u64)
        ensures
            r == self@.tick,
    {
        self.tick
    }

    /// Where the loop stands within the current tick.
    pub fn stage(&self) -> (r: Stage)
        ensures
            r == self@.stage,
    {
        self.stage
    }

    /// The slot of the current tick.
    pub fn slot(&self) -> (r: u32)
        ensures
            r == current_slot(self@),
    {
        proof {
            use_type_invariant(self);
        }
        slot_for_tick(self.tick, self.slots)
    }

    /// Whether `slot` was submitted and its fence not seen signaled since.
    pub fn in_flight(&self, slot: u32) -> (r: bool)
        ensures
            r == (slot < self@.slots && self@.in_flight[slot as int]),
    {
        proof {
            use_type_invariant(self);
        }
        slot < self.slots && self.in_flight[slot as usize]
    }

    /// The action owed now.
    pub fn next_action(&self) -> (a: FrameAction)
        ensures
            a == action_of(self@),
    {
        let slot: u32 = self.slot();
        let image: u32 = self.image;
        match self.stage {
            Stage::WaitFence => FrameAction::WaitFence { slot },
            Stage::Reset => FrameAction::Reset { slot },
            Stage::Acquire => FrameAction::Acquire { slot },
            Stage::Record => FrameAction::Record { slot, image },
            Stage::Submit => FrameAction::Submit { slot, image },
            Stage::Present => FrameAction::Present { slot, image },
            Stage::Stopped => FrameAction::Stop,
            Stage::Failed(err) => FrameAction::Fail(err),
        }
    }

    /// Takes in the outcome of the action owed.
    pub fn step(&mut self, e: FrameEvent)
        ensures
            final(self)@ == step_of(old(self)@, e),
    {
        proof {
            use_type_invariant(&*self);
            lemma_step_wf(self@, e);
        }
        let ghost s = self@;
        let k: usize = self.slot() as usize;
        let mut one: Vec<bool> = Vec::new();
        one.push(false);
        let mut cur = FrameLoop {
            slots: 1,
            images: 0,
            tick: 0,
            stage: Stage::Stopped,
            image: 0,
            in_flight: one,
            stop: false,
        };
        std::mem::swap(&mut cur, self);
        let FrameLoop { slots, images, tick, stage, image, mut in_flight, stop } = cur;
        let mut next_stage = stage;
        let mut next_tick: u64 = tick;
        let mut next_image: u32 = image;
        let mut next_stop = stop;
        match stage {
            Stage::Stopped | Stage::Failed(_) => {},
            _ => match e {
                FrameEvent::Failed => {
                    next_stage = Stage::Failed(failure_of(stage));
                },
                FrameEvent::StopRequested => {
                    if matches!(stage, Stage::WaitFence) {
                        next_stage = Stage::Stopped;
                    } else {
                        next_stop = true;
                    }
                },
                FrameEvent::Acquired { image: acquired } => {
                    if matches!(stage, Stage::Acquire) {
                        if acquired < images {
                            next_stage = Stage::Record;
                            next_image = acquired;
                        } else {
                            next_stage = Stage::Failed(LoopError::ImageOutOfRange);
                        }
                    }
                },
                FrameEvent::Done => match stage {
                    Stage::WaitFence => {
                        in_flight.set(k, false);
                        next_stage = Stage::Reset;
                    },
                    Stage::Reset => {
                        next_stage = Stage::Acquire;
                    },
                    Stage::Record => {
                        next_stage = Stage::Submit;
                    },
                    Stage::Submit => {
                        in_flight.set(k, true);
                        next_stage = Stage::Present;
                    },
                    Stage::Present => {
                        if tick == u64::MAX {
                            next_stage = Stage::Stopped;
                        } else {
                            next_tick = tick + 1;
                            next_stage = if stop {
                                Stage::Stopped
                            } else {
                                Stage::WaitFence
                            };
                        }
                    },
                    _ => {},
                },
            },
        }
        *self = FrameLoop {
            slots,
            images,
            tick: next_tick,
            stage: next_stage,
            image: next_image,
            in_flight,
            stop: next_stop,
        };
    }
}

/// The error with which a failure in `stage` ends the loop.
fn failure_of(stage: Stage) -> (r: LoopError)
    ensures
        r == failure_in(stage),
{
    match stage {
        Stage::WaitFence => LoopError::FenceWait,
        Stage::Reset => LoopError::Reset,
        Stage::Acquire => LoopError::Acquire,
        Stage::Record => LoopError::Record,
        Stage::Submit => LoopError::Submit,
        _ => LoopError::Present,
    }
}

} // verus!
