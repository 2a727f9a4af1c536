//! The fixed graphics pipeline and the attachments it draws into, described
//! as plain values; the caller turns the description into device objects.
use vstd::prelude::*;

verus! {

/// A programmable stage of the mesh pipeline.
#[derive(Clone, Copy, Debug, PartialEq, Eq, Structural)]
pub enum ShaderStage {
    Task,
    Mesh,
    Fragment,
}

/// How depth values are mapped: the standard range puts the far plane at 1,
/// the reversed range puts it at 0.
#[derive(Clone, Copy, Debug, PartialEq, Eq, Structural)]
pub enum DepthRange {
    Standard,
    Reversed,
}

/// The depth comparison that lets a fragment through.
#[derive(Clone, Copy, Debug, PartialEq, Eq, Structural)]
pub enum CompareOp {
    LessOrEqual,
    GreaterOrEqual,
}

/// The value the depth attachment is cleared to: the far plane.
#[derive(Clone, Copy, Debug, PartialEq, Eq, Structural)]
pub enum ClearDepth {
    Zero,
    One,
}

/// What happens to an attachment's contents when rendering begins.
#[derive(Clone, Copy, Debug, PartialEq, Eq, Structural)]
pub enum LoadOp {
    Load,
    Clear,
    DontCare,
}

/// What happens to an attachment's contents when rendering ends.
#[derive(Clone, Copy, Debug, PartialEq, Eq, Structural)]
pub enum StoreOp {
    Store,
    DontCare,
}

/// Pipeline state that is set while recording instead of being baked in.
#[derive(Clone, Copy, Debug, PartialEq, Eq, Structural)]
pub enum DynamicState {
    Viewport,
    Scissor,
}

/// Load and store behaviour of one attachment.
#[derive(Clone, Copy, Debug, PartialEq, Eq, Structural)]
pub struct AttachmentOps {
    pub load: LoadOp,
    pub store: StoreOp,
}

/// The fixed-function and stage layout of the mesh pipeline.
pub struct PipelineDesc {
    /// The programmable stages, in the order they are handed to the device.
    pub stages: Vec<ShaderStage>,
    pub depth_test: bool,
    pub depth_write: bool,
    pub depth_compare: CompareOp,
    /// Rasterised line width, in pixels.
    pub line_width: u32,
    /// Whether blending is enabled on the one color attachment.
    pub blend: bool,
    /// Whether all four color channels are written.
    pub write_all_channels: bool,
    pub dynamic_states: Vec<DynamicState>,
}

/// The comparison that keeps the nearer fragment under depth range `range`.
pub open spec fn compare_for(range: DepthRange) -> CompareOp {
    match range {
        DepthRange::Standard => CompareOp::LessOrEqual,
        DepthRange::Reversed => CompareOp::GreaterOrEqual,
    }
}

/// The far plane under depth range `range`.
pub open spec fn far_plane(range: DepthRange) -> ClearDepth {
    match range {
        DepthRange::Standard => ClearDepth::One,
        DepthRange::Reversed => ClearDepth::Zero,
    }
}

/// The programmable stages of the mesh pipeline, with a task stage or not.
pub open spec fn stages_for(with_task: bool) -> Seq<ShaderStage> {
    if with_task {
        seq![ShaderStage::Mesh, ShaderStage::Fragment, ShaderStage::Task]
    } else {
        seq![ShaderStage::Mesh, ShaderStage::Fragment]
    }
}

/// The depth comparison consistent with depth range `range`.
pub fn depth_compare(range: DepthRange) -> (r: CompareOp)
    ensures
        r == compare_for(range),
{
    match range {
        DepthRange::Standard => CompareOp::LessOrEqual,
        DepthRange::Reversed => CompareOp::GreaterOrEqual,
    }
}

/// The value the depth attachment is cleared to under depth range `range`.
pub fn depth_clear(range: DepthRange) -> (r: ClearDepth)
    ensures
        r == far_plane(range),
{
    match range {
        DepthRange::Standard => ClearDepth::One,
        DepthRange::Reversed => ClearDepth::Zero,
    }
}

/// The color attachment is cleared when rendering begins and kept for
/// presentation.
pub fn color_attachment_ops() -> (r: AttachmentOps)
    ensures
        r == (AttachmentOps { load: LoadOp::Clear, store: StoreOp::Store }),
{
    AttachmentOps { load: LoadOp::Clear, store: StoreOp::Store }
}

/// The depth attachment is cleared when rendering begins and not kept.
pub fn depth_attachment_ops() -> (r: AttachmentOps)
    ensures
        r == (AttachmentOps { load: LoadOp::Clear, store: StoreOp::DontCare }),
{
    AttachmentOps { load: LoadOp::Clear, store: StoreOp::DontCare }
}

/// The mesh pipeline: mesh and fragment stages, then the task stage when
/// there is one; depth test and write on, with the comparison of `range`;
/// lines one pixel wide; one color attachment, all channels written,
/// blending off; viewport and scissor set while recording.
pub fn mesh_pipeline_desc(with_task: bool, range: DepthRange) -> (r: PipelineDesc)
    ensures
        r.stages@ == stages_for(with_task),
        r.depth_test,
        r.depth_write,
        r.depth_compare == compare_for(range),
        r.line_width == 1,
        !r.blend,
        r.write_all_channels,
        r.dynamic_states@ == seq![DynamicState::Viewport, DynamicState::Scissor],
{
    let mut stages: Vec<ShaderStage> = Vec::new();
    stages.push(ShaderStage::Mesh);
    stages.push(ShaderStage::Fragment);
    if with_task {
        stages.push(ShaderStage::Task);
    }
    let mut dynamic_states: Vec<DynamicState> = Vec::new();
    dynamic_states.push(DynamicState::Viewport);
    dynamic_states.push(DynamicState::Scissor);
    proof {
        assert(stages@ =~= stages_for(with_task));
        assert(dynamic_states@ =~= seq![DynamicState::Viewport, DynamicState::Scissor]);
    }
    PipelineDesc {
        stages,
        depth_test: true,
        depth_write: true,
        depth_compare: depth_compare(range),
        line_width: 1,
        blend: false,
        write_all_channels: true,
        dynamic_states,
    }
}

} // verus!
