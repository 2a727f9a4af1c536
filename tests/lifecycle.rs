use vkframe::lifecycle::{Action, Event, Lifecycle, Phase};
use vkframe::resources::Resource;
use vkframe::NUM_FRAMES;

/// A device that makes whatever it is asked to, except at one chosen step,
/// and keeps a log of what it made and released.
struct FakeDevice {
    images: u32,
    fail_at: Option<usize>,
    idle_fails: bool,
    attempts: usize,
    created: Vec<Resource>,
    destroyed: Vec<Resource>,
    idle_waits: usize,
    live: i64,
}

impl FakeDevice {
    fn new(images: u32) -> Self {
        FakeDevice {
            images,
            fail_at: None,
            idle_fails: false,
            attempts: 0,
            created: Vec::new(),
            destroyed: Vec::new(),
            idle_waits: 0,
            live: 0,
        }
    }

    fn perform(&mut self, action: Action) -> Option<Event> {
        match action {
            Action::Create(r) => {
                let step = self.attempts;
                self.attempts += 1;
                if self.fail_at == Some(step) {
                    return Some(Event::Failed);
                }
                self.created.push(r);
                self.live += 1;
                if r == Resource::ImageChain {
                    Some(Event::ChainCreated { images: self.images })
                } else {
                    Some(Event::Created)
                }
            }
            Action::Destroy(r) => {
                self.destroyed.push(r);
                self.live -= 1;
                Some(Event::Destroyed)
            }
            Action::WaitIdle => {
                self.idle_waits += 1;
                if self.idle_fails {
                    Some(Event::Failed)
                } else {
                    Some(Event::Idle)
                }
            }
            Action::Live | Action::Aborted | Action::Released | Action::Halted => None,
        }
    }
}

/// Runs the machine against the device until it names an outcome.
fn drive(life: &mut Lifecycle, dev: &mut FakeDevice) -> Action {
    loop {
        let action = life.next_action();
        match dev.perform(action) {
            Some(event) => life.step(event),
            None => return action,
        }
    }
}

fn full_plan(images: u32, frames: u32) -> Vec<Resource> {
    let mut plan = vec![
        Resource::Instance,
        Resource::Surface,
        Resource::Device,
        Resource::Allocator,
        Resource::ImageChain,
        Resource::DepthImage,
        Resource::DepthView,
    ];
    for image in 0..images {
        plan.push(Resource::ColorView { image });
    }
    plan.push(Resource::DescriptorSetLayout);
    plan.push(Resource::PipelineLayout);
    plan.push(Resource::Pipeline);
    for slot in 0..frames {
        plan.push(Resource::CommandPool { slot });
        plan.push(Resource::UniformBuffer { slot });
        plan.push(Resource::DescriptorPool { slot });
        plan.push(Resource::AcquireSemaphore { slot });
        plan.push(Resource::RenderSemaphore { slot });
        plan.push(Resource::Fence { slot });
    }
    plan
}

#[test]
fn construction_follows_the_plan() {
    let mut life = Lifecycle::new(NUM_FRAMES);
    let mut dev = FakeDevice::new(3);
    assert_eq!(drive(&mut life, &mut dev), Action::Live);
    assert_eq!(dev.created, full_plan(3, NUM_FRAMES));
    assert_eq!(dev.created.len(), 10 + 3 + 6 * 2);
    assert_eq!(life.phase(), Phase::Live);
    assert_eq!(life.images(), 3);
    assert_eq!(life.frames(), NUM_FRAMES);
    assert_eq!(life.live_objects(), 25);
    assert!(dev.destroyed.is_empty());
}

#[test]
fn teardown_reverses_construction() {
    let mut life = Lifecycle::new(NUM_FRAMES);
    let mut dev = FakeDevice::new(2);
    assert_eq!(drive(&mut life, &mut dev), Action::Live);
    assert_eq!(dev.idle_waits, 0);
    life.step(Event::Shutdown);
    assert_eq!(life.next_action(), Action::WaitIdle);
    assert_eq!(drive(&mut life, &mut dev), Action::Released);
    assert_eq!(dev.idle_waits, 1);
    let mut reversed = dev.created.clone();
    reversed.reverse();
    assert_eq!(dev.destroyed, reversed);
    assert_eq!(dev.live, 0);
    assert_eq!(life.live_objects(), 0);
    // The first releases are the last slot's fence and semaphores.
    assert_eq!(dev.destroyed[0], Resource::Fence { slot: 1 });
    assert_eq!(dev.destroyed[1], Resource::RenderSemaphore { slot: 1 });
    assert_eq!(dev.destroyed[2], Resource::AcquireSemaphore { slot: 1 });
    assert_eq!(dev.destroyed[3], Resource::DescriptorPool { slot: 1 });
    assert_eq!(dev.destroyed[4], Resource::UniformBuffer { slot: 1 });
    assert_eq!(dev.destroyed[5], Resource::CommandPool { slot: 1 });
    assert_eq!(*dev.destroyed.last().unwrap(), Resource::Instance);
}

#[test]
fn failure_at_any_step_releases_everything() {
    let total = full_plan(2, NUM_FRAMES).len();
    for k in 0..total {
        let mut life = Lifecycle::new(NUM_FRAMES);
        let mut dev = FakeDevice::new(2);
        dev.fail_at = Some(k);
        assert_eq!(drive(&mut life, &mut dev), Action::Aborted);
        assert_eq!(dev.created.len(), k);
        assert_eq!(dev.live, 0);
        let mut reversed = dev.created.clone();
        reversed.reverse();
        assert_eq!(dev.destroyed, reversed);
        assert_eq!(dev.idle_waits, 0);
        assert_eq!(life.phase(), Phase::Unwinding);
    }
}

#[test]
fn pipeline_failure_releases_targets_once() {
    let mut life = Lifecycle::new(NUM_FRAMES);
    let mut dev = FakeDevice::new(3);
    let pipeline_step = full_plan(3, NUM_FRAMES)
        .iter()
        .position(|r| *r == Resource::Pipeline)
        .unwrap();
    dev.fail_at = Some(pipeline_step);
    assert_eq!(drive(&mut life, &mut dev), Action::Aborted);
    let count = |r: Resource| dev.destroyed.iter().filter(|d| **d == r).count();
    assert_eq!(count(Resource::ImageChain), 1);
    assert_eq!(count(Resource::DepthImage), 1);
    assert_eq!(count(Resource::DepthView), 1);
    for image in 0..3 {
        assert_eq!(count(Resource::ColorView { image }), 1);
    }
    assert_eq!(count(Resource::PipelineLayout), 1);
    assert_eq!(count(Resource::DescriptorSetLayout), 1);
    assert_eq!(count(Resource::Pipeline), 0);
    assert_eq!(count(Resource::Fence { slot: 0 }), 0);
    assert_eq!(dev.live, 0);
}

#[test]
fn failure_of_first_step_releases_nothing() {
    let mut life = Lifecycle::new(NUM_FRAMES);
    let mut dev = FakeDevice::new(2);
    dev.fail_at = Some(0);
    assert_eq!(drive(&mut life, &mut dev), Action::Aborted);
    assert!(dev.created.is_empty());
    assert!(dev.destroyed.is_empty());
}

#[test]
fn idle_failure_halts_without_release() {
    let mut life = Lifecycle::new(NUM_FRAMES);
    let mut dev = FakeDevice::new(2);
    assert_eq!(drive(&mut life, &mut dev), Action::Live);
    dev.idle_fails = true;
    life.step(Event::Shutdown);
    assert_eq!(drive(&mut life, &mut dev), Action::Halted);
    assert!(dev.destroyed.is_empty());
    assert_eq!(life.phase(), Phase::Halted);
    life.step(Event::Idle);
    assert_eq!(life.next_action(), Action::Halted);
}

#[test]
fn lifecycle_ignores_events_that_do_not_answer() {
    let mut life = Lifecycle::new(NUM_FRAMES);
    life.step(Event::Destroyed);
    life.step(Event::Shutdown);
    life.step(Event::Idle);
    assert_eq!(life.next_action(), Action::Create(Resource::Instance));
    // The image chain must be reported with its image count.
    for _ in 0..4 {
        life.step(Event::Created);
    }
    assert_eq!(life.next_action(), Action::Create(Resource::ImageChain));
    life.step(Event::Created);
    assert_eq!(life.next_action(), Action::Create(Resource::ImageChain));
    life.step(Event::ChainCreated { images: 1 });
    assert_eq!(life.next_action(), Action::Create(Resource::DepthImage));
    // An image count is only taken from the image chain step.
    life.step(Event::ChainCreated { images: 7 });
    assert_eq!(life.images(), 1);
    assert_eq!(life.next_action(), Action::Create(Resource::DepthImage));
}

#[test]
fn frame_loop_only_while_live() {
    let mut life = Lifecycle::new(NUM_FRAMES);
    assert!(life.frame_loop().is_none());
    let mut dev = FakeDevice::new(3);
    drive(&mut life, &mut dev);
    let frames = life.frame_loop().unwrap();
    assert_eq!(frames.tick(), 0);
    assert_eq!(frames.slot(), 0);
    life.step(Event::Shutdown);
    assert!(life.frame_loop().is_none());
}

#[test]
fn context_without_slots_has_no_frame_loop() {
    let mut life = Lifecycle::new(0);
    let mut dev = FakeDevice::new(2);
    assert_eq!(drive(&mut life, &mut dev), Action::Live);
    assert_eq!(dev.created, full_plan(2, 0));
    assert!(life.frame_loop().is_none());
}
