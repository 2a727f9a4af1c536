//! The GPU objects of a render context and the order in which they are made.
//!
//! Construction follows one fixed plan: bootstrap (instance, surface, device,
//! allocator, image chain), render targets (depth image and view, one color
//! view per presentable image), the pipeline set (binding-set layout, pipeline
//! layout, pipeline), and then, for each frame slot in turn, the slot's command
//! pool, uniform buffer, binding pool, two semaphores and fence.
use vstd::prelude::*;

verus! {

/// One GPU object, or tightly bound group of objects, owned by a render context.
#[derive(Clone, Copy, Debug, PartialEq, Eq, Structural)]
pub enum Resource {
    Instance,
    Surface,
    Device,
    Allocator,
    ImageChain,
    DepthImage,
    DepthView,
    /// The color view over presentable image `image`.
    ColorView { image: u32 },
    DescriptorSetLayout,
    PipelineLayout,
    /// The graphics pipeline; its shader modules live only while it is compiled.
    Pipeline,
    /// A slot's command pool with the one command buffer allocated from it.
    CommandPool { slot: u32 },
    /// A slot's persistently mapped uniform buffer.
    UniformBuffer { slot: u32 },
    /// A slot's descriptor pool with the one binding set allocated from it.
    DescriptorPool { slot: u32 },
    /// The semaphore a slot's acquire signals.
    AcquireSemaphore { slot: u32 },
    /// The semaphore a slot's submission signals for presentation.
    RenderSemaphore { slot: u32 },
    /// A slot's submission-complete fence, made in the signaled state.
    Fence { slot: u32 },
}

/// Number of bootstrap steps; the last of them makes the image chain.
pub const BOOTSTRAP_STEPS: usize = 5;

/// Position of the image chain in the plan.
pub const IMAGE_CHAIN_STEP: usize = 4;

/// Position of the first color view in the plan.
pub const COLOR_VIEWS_START: usize = 7;

/// Number of objects each frame slot owns.
pub const SLOT_STEPS: usize = 6;

/// Number of steps that do not depend on the image or slot count.
pub const FIXED_STEPS: usize = 10;

/// The `k`-th object (in creation order) of frame slot `slot`.
pub open spec fn slot_resource(slot: u32, k: int) -> Resource {
    if k == 0 {
        Resource::CommandPool { slot }
    } else if k == 1 {
        Resource::UniformBuffer { slot }
    } else if k == 2 {
        Resource::DescriptorPool { slot }
    } else if k == 3 {
        Resource::AcquireSemaphore { slot }
    } else if k == 4 {
        Resource::RenderSemaphore { slot }
    } else {
        Resource::Fence { slot }
    }
}

/// Number of steps in the plan of a context with `images` presentable images
/// and `frames` frame slots.
pub open spec fn plan_len(images: nat, frames: nat) -> nat {
    (FIXED_STEPS + images + SLOT_STEPS * frames) as nat
}

/// Step `i` of the plan of a context with `images` presentable images.
pub open spec fn planned(images: nat, i: int) -> Resource {
    if i == 0 {
        Resource::Instance
    } else if i == 1 {
        Resource::Surface
    } else if i == 2 {
        Resource::Device
    } else if i == 3 {
        Resource::Allocator
    } else if i == 4 {
        Resource::ImageChain
    } else if i == 5 {
        Resource::DepthImage
    } else if i == 6 {
        Resource::DepthView
    } else if i < COLOR_VIEWS_START + images {
        Resource::ColorView { image: (i - COLOR_VIEWS_START) as u32 }
    } else if i == COLOR_VIEWS_START + images {
        Resource::DescriptorSetLayout
    } else if i == COLOR_VIEWS_START + images + 1 {
        Resource::PipelineLayout
    } else if i == COLOR_VIEWS_START + images + 2 {
        Resource::Pipeline
    } else {
        let j = i - (FIXED_STEPS + images);
        slot_resource((j / SLOT_STEPS as int) as u32, j % SLOT_STEPS as int)
    }
}

/// The whole construction plan, in creation order.
pub open spec fn construction_plan(images: nat, frames: nat) -> Seq<Resource> {
    Seq::new(plan_len(images, frames), |i: int| planned(images, i))
}

/// The bootstrap steps come first and do not depend on the image count.
pub proof fn lemma_bootstrap_fixed(a: nat, b: nat, i: int)
    requires
        0 <= i < BOOTSTRAP_STEPS,
    ensures
        planned(a, i) == planned(b, i),
{
}

/// The `k`-th object of frame slot `slot`.
pub fn slot_step(slot: u32, k: usize) -> (r: Resource)
    requires
        k < SLOT_STEPS,
    ensures
        r == slot_resource(slot, k as int),
{
    if k == 0 {
        Resource::CommandPool { slot }
    } else if k == 1 {
        Resource::UniformBuffer { slot }
    } else if k == 2 {
        Resource::DescriptorPool { slot }
    } else if k == 3 {
        Resource::AcquireSemaphore { slot }
    } else if k == 4 {
        Resource::RenderSemaphore { slot }
    } else {
        Resource::Fence { slot }
    }
}

/// Step `i` of the plan of a context with `images` presentable images and
/// `frames` frame slots.
pub fn plan_step(images: u32, frames: u32, i: usize) -> (r: Resource)
    requires
        i < plan_len(images as nat, frames as nat),
        plan_len(images as nat, frames as nat) <= usize::MAX,
    ensures
        r == planned(images as nat, i as int),
{
    let views_end: usize = COLOR_VIEWS_START + images as usize;
    if i == 0 {
        Resource::Instance
    } else if i == 1 {
        Resource::Surface
    } else if i == 2 {
        Resource::Device
    } else if i == 3 {
        Resource::Allocator
    } else if i == 4 {
        Resource::ImageChain
    } else if i == 5 {
        Resource::DepthImage
    } else if i == 6 {
        Resource::DepthView
    } else if i < views_end {
        Resource::ColorView { image: (i - COLOR_VIEWS_START) as u32 }
    } else if i == views_end {
        Resource::DescriptorSetLayout
    } else if i == views_end + 1 {
        Resource::PipelineLayout
    } else if i == views_end + 2 {
        Resource::Pipeline
    } else {
        let j: usize = i - (views_end + 3);
        assert(j / SLOT_STEPS < frames) by (nonlinear_arith)
            requires
                j < SLOT_STEPS * frames,
        ;
        slot_step((j / SLOT_STEPS) as u32, j % SLOT_STEPS)
    }
}

} // verus!
