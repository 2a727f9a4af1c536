use vkframe::frame_loop::{slot_for_tick, FrameAction, FrameEvent, FrameLoop, LoopError, Stage};
use vkframe::NUM_FRAMES;

/// A device whose fences signal only once they are waited on, and which
/// counts for each slot the submissions still outstanding.
struct FakeDevice {
    images: Vec<u32>,
    acquires: usize,
    fail_acquire_on_tick: Option<u64>,
    fail_on: Option<&'static str>,
    outstanding: Vec<u32>,
    waited_slots: Vec<u32>,
    submits: Vec<(u32, u32)>,
    presents: Vec<(u32, u32)>,
    records: usize,
}

impl FakeDevice {
    fn new(slots: u32, images: Vec<u32>) -> Self {
        FakeDevice {
            images,
            acquires: 0,
            fail_acquire_on_tick: None,
            fail_on: None,
            outstanding: vec![0; slots as usize],
            waited_slots: Vec::new(),
            submits: Vec::new(),
            presents: Vec::new(),
            records: 0,
        }
    }

    fn perform(&mut self, tick: u64, action: FrameAction) -> Option<FrameEvent> {
        let name = match action {
            FrameAction::WaitFence { .. } => "wait",
            FrameAction::Reset { .. } => "reset",
            FrameAction::Acquire { .. } => "acquire",
            FrameAction::Record { .. } => "record",
            FrameAction::Submit { .. } => "submit",
            FrameAction::Present { .. } => "present",
            FrameAction::Stop | FrameAction::Fail(_) => return None,
        };
        if self.fail_on == Some(name) {
            return Some(FrameEvent::Failed);
        }
        match action {
            FrameAction::WaitFence { slot } => {
                self.waited_slots.push(slot);
                self.outstanding[slot as usize] = 0;
                Some(FrameEvent::Done)
            }
            FrameAction::Reset { slot } => {
                assert_eq!(self.outstanding[slot as usize], 0);
                Some(FrameEvent::Done)
            }
            FrameAction::Acquire { .. } => {
                if self.fail_acquire_on_tick == Some(tick) {
                    return Some(FrameEvent::Failed);
                }
                let image = self.images[self.acquires % self.images.len()];
                self.acquires += 1;
                Some(FrameEvent::Acquired { image })
            }
            FrameAction::Record { slot, .. } => {
                assert_eq!(self.outstanding[slot as usize], 0);
                self.records += 1;
                Some(FrameEvent::Done)
            }
            FrameAction::Submit { slot, image } => {
                self.outstanding[slot as usize] += 1;
                assert!(self.outstanding[slot as usize] <= 1);
                self.submits.push((slot, image));
                Some(FrameEvent::Done)
            }
            FrameAction::Present { slot, image } => {
                self.presents.push((slot, image));
                Some(FrameEvent::Done)
            }
            FrameAction::Stop | FrameAction::Fail(_) => None,
        }
    }
}

/// Runs at most `ticks` ticks; returns the action that ended the run, if any.
fn run_ticks(frames: &mut FrameLoop, dev: &mut FakeDevice, ticks: u64) -> Option<FrameAction> {
    while frames.tick() < ticks {
        let action = frames.next_action();
        match dev.perform(frames.tick(), action) {
            Some(event) => frames.step(event),
            None => return Some(action),
        }
    }
    None
}

#[test]
fn five_ticks_alternate_slots() {
    let mut frames = FrameLoop::new(NUM_FRAMES, 3);
    let mut dev = FakeDevice::new(NUM_FRAMES, vec![0, 1, 2]);
    assert_eq!(run_ticks(&mut frames, &mut dev, 5), None);
    assert_eq!(dev.waited_slots, vec![0, 1, 0, 1, 0]);
    assert_eq!(dev.submits.len(), 5);
    assert_eq!(dev.presents.len(), 5);
    assert_eq!(dev.submits, dev.presents);
    assert_eq!(frames.tick(), 5);
    assert_eq!(frames.slot(), 1);
    assert_eq!(frames.next_action(), FrameAction::WaitFence { slot: 1 });
}

#[test]
fn acquire_failure_on_tick_three_ends_the_loop() {
    let mut frames = FrameLoop::new(NUM_FRAMES, 3);
    let mut dev = FakeDevice::new(NUM_FRAMES, vec![2, 0, 1]);
    dev.fail_acquire_on_tick = Some(3);
    let end = run_ticks(&mut frames, &mut dev, 10);
    assert_eq!(end, Some(FrameAction::Fail(LoopError::Acquire)));
    assert_eq!(frames.tick(), 3);
    assert_eq!(dev.submits.len(), 3);
    assert_eq!(dev.presents.len(), 3);
    assert_eq!(dev.records, 3);
    assert_eq!(frames.stage(), Stage::Failed(LoopError::Acquire));
    // Nothing moves the loop once it has failed.
    frames.step(FrameEvent::Done);
    assert_eq!(frames.next_action(), FrameAction::Fail(LoopError::Acquire));
}

#[test]
fn slot_follows_tick_whatever_the_image() {
    for images in [vec![0u32], vec![3, 1, 4, 1, 0, 2], vec![4, 4, 4]] {
        let mut frames = FrameLoop::new(3, 5);
        let mut dev = FakeDevice::new(3, images.clone());
        assert_eq!(run_ticks(&mut frames, &mut dev, 7), None);
        assert_eq!(dev.waited_slots, vec![0, 1, 2, 0, 1, 2, 0]);
        let slots: Vec<u32> = dev.submits.iter().map(|s| s.0).collect();
        assert_eq!(slots, vec![0, 1, 2, 0, 1, 2, 0]);
        let drawn: Vec<u32> = dev.submits.iter().map(|s| s.1).collect();
        let expected: Vec<u32> = (0..7).map(|i| images[i % images.len()]).collect();
        assert_eq!(drawn, expected);
    }
}

#[test]
fn single_slot_reuses_slot_zero() {
    let mut frames = FrameLoop::new(1, 2);
    let mut dev = FakeDevice::new(1, vec![1, 0]);
    assert_eq!(run_ticks(&mut frames, &mut dev, 4), None);
    assert_eq!(dev.waited_slots, vec![0, 0, 0, 0]);
}

#[test]
fn fence_is_waited_before_reset() {
    let mut frames = FrameLoop::new(NUM_FRAMES, 2);
    let mut dev = FakeDevice::new(NUM_FRAMES, vec![0, 1]);
    assert!(!frames.in_flight(0));
    assert_eq!(frames.next_action(), FrameAction::WaitFence { slot: 0 });
    assert_eq!(run_ticks(&mut frames, &mut dev, 2), None);
    // Both slots were submitted and not yet waited on.
    assert!(frames.in_flight(0));
    assert!(frames.in_flight(1));
    assert!(!frames.in_flight(2));
    let event = dev.perform(frames.tick(), frames.next_action()).unwrap();
    assert_eq!(event, FrameEvent::Done);
    frames.step(event);
    assert!(!frames.in_flight(0));
    assert_eq!(frames.next_action(), FrameAction::Reset { slot: 0 });
    assert_eq!(run_ticks(&mut frames, &mut dev, 20), None);
    assert!(dev.outstanding.iter().all(|n| *n <= 1));
}

#[test]
fn stop_request_finishes_the_tick() {
    let mut frames = FrameLoop::new(NUM_FRAMES, 2);
    let mut dev = FakeDevice::new(NUM_FRAMES, vec![1]);
    frames.step(FrameEvent::Done);
    frames.step(FrameEvent::StopRequested);
    assert_eq!(frames.next_action(), FrameAction::Reset { slot: 0 });
    assert_eq!(run_ticks(&mut frames, &mut dev, 5), Some(FrameAction::Stop));
    assert_eq!(frames.tick(), 1);
    assert_eq!(dev.presents, vec![(0, 1)]);
    assert_eq!(frames.stage(), Stage::Stopped);
}

#[test]
fn stop_request_between_ticks_stops_at_once() {
    let mut frames = FrameLoop::new(NUM_FRAMES, 2);
    frames.step(FrameEvent::StopRequested);
    assert_eq!(frames.next_action(), FrameAction::Stop);
    frames.step(FrameEvent::Done);
    assert_eq!(frames.next_action(), FrameAction::Stop);
    assert_eq!(frames.tick(), 0);
}

#[test]
fn image_out_of_range_is_fatal() {
    let mut frames = FrameLoop::new(NUM_FRAMES, 2);
    frames.step(FrameEvent::Done);
    frames.step(FrameEvent::Done);
    assert_eq!(frames.next_action(), FrameAction::Acquire { slot: 0 });
    frames.step(FrameEvent::Acquired { image: 2 });
    assert_eq!(frames.next_action(), FrameAction::Fail(LoopError::ImageOutOfRange));
}

#[test]
fn every_failing_step_names_its_error() {
    let cases = [
        ("wait", LoopError::FenceWait),
        ("reset", LoopError::Reset),
        ("acquire", LoopError::Acquire),
        ("record", LoopError::Record),
        ("submit", LoopError::Submit),
        ("present", LoopError::Present),
    ];
    for (step, error) in cases {
        let mut frames = FrameLoop::new(NUM_FRAMES, 2);
        let mut dev = FakeDevice::new(NUM_FRAMES, vec![0]);
        dev.fail_on = Some(step);
        assert_eq!(run_ticks(&mut frames, &mut dev, 3), Some(FrameAction::Fail(error)));
        assert_eq!(frames.tick(), 0);
        assert!(dev.presents.is_empty());
    }
}

#[test]
fn loop_ignores_events_that_do_not_answer() {
    let mut frames = FrameLoop::new(NUM_FRAMES, 2);
    frames.step(FrameEvent::Acquired { image: 1 });
    assert_eq!(frames.next_action(), FrameAction::WaitFence { slot: 0 });
    frames.step(FrameEvent::Done);
    frames.step(FrameEvent::Done);
    frames.step(FrameEvent::Done);
    assert_eq!(frames.next_action(), FrameAction::Acquire { slot: 0 });
}

#[test]
fn slot_for_tick_is_tick_mod_n() {
    assert_eq!(slot_for_tick(0, 2), 0);
    assert_eq!(slot_for_tick(5, 2), 1);
    assert_eq!(slot_for_tick(7, 3), 1);
    assert_eq!(slot_for_tick(u64::MAX, 2), 1);
    assert_eq!(slot_for_tick(u64::MAX, 3), 0);
    assert_eq!(slot_for_tick(u64::MAX, 1), 0);
}
