//! The renderer context's lifecycle: lazy creation once the window is up,
//! swapchain recreation on resize or staleness, the render pass and its
//! framebuffers, the frame cycle, and teardown in reverse order of creation.
//!
//! The functions here decide; the caller performs the device work that each
//! returned action names and hands back what the device reported.
use vstd::prelude::*;
use ash::vk;

use crate::error::VulkanError;
use crate::frame::{
    lemma_record, AcquireOutcome, FenceState, FramePhase, FRAMES_IN_FLIGHT, FrameSubmit, GpuOp, InternalContext,
    PresentOutcome,
};
use crate::surface::{clamp_count, clamp_image_count, extent_in_bounds, SwapchainPlan};
use crate::window::{contains_resize, has_resize, Window};

verus! {

/// The render pass, with one framebuffer per swapchain image.
#[derive(Clone, Copy, PartialEq, Eq, Structural, Debug)]
pub struct Pass {
    pub framebuffer_count: u32,
}

/// Pipelines and other device resources, by id.
pub struct Resources {
    pub pipelines: Vec<u32>,
}

/// The compiled shader stages a pipeline is made from.
pub struct PipelineConfig<'a> {
    pub vertext_shader_source: &'a [u8],
    pub fragment_shader_source: &'a [u8],
}

/// The renderer: the size and validation it was asked for, and, once the
/// window is up, the live context, its resources and its render pass.
pub struct VulkanContext {
    pub width: u32,
    pub height: u32,
    pub validation: bool,
    pub internal: Option<InternalContext>,
    pub resources: Option<Resources>,
    pub pass: Option<Pass>,
}

/// What the caller must do after an update.
#[derive(Debug)]
pub enum ContextAction {
    Nothing,
    /// Create the device context for the window.
    Create,
    /// Tear everything down, in the order given.
    Destroy(Vec<Teardown>),
    /// Recreate the swapchain at this drawable size.
    Resize { width: u32, height: u32 },
}

/// One step of teardown.
#[derive(Clone, Copy, PartialEq, Eq, Structural, Debug)]
pub enum Teardown {
    WaitIdle,
    Pipelines,
    Framebuffers,
    RenderPass,
    FrameSync,
    ImageViews,
    CommandPool,
    DebugMessenger,
    Swapchain,
    Device,
    Surface,
    Instance,
}

/// What to do with a request to recreate the swapchain.
#[derive(Clone, Copy)]
pub enum ResizeDecision {
    /// Nothing now: a dimension is zero, or there is no idle context.
    Deferred,
    /// The size lies outside the surface's bounds; nothing is done.
    OutOfBounds,
    /// Rebuild the swapchain (and the framebuffers) from this plan.
    Rebuild(SwapchainPlan),
}

pub open spec fn teardown_order(has_resources: bool, has_pass: bool) -> Seq<Teardown> {
    seq![Teardown::WaitIdle] + (if has_resources {
        seq![Teardown::Pipelines]
    } else {
        Seq::empty()
    }) + (if has_pass {
        seq![Teardown::Framebuffers, Teardown::RenderPass]
    } else {
        Seq::empty()
    }) + seq![
        Teardown::FrameSync,
        Teardown::ImageViews,
        Teardown::CommandPool,
        Teardown::DebugMessenger,
        Teardown::Swapchain,
        Teardown::Device,
        Teardown::Surface,
        Teardown::Instance,
    ]
}

/// The decision on a request to recreate the swapchain of `internal` at
/// `width` by `height`, against the surface's live capabilities.
pub open spec fn resize_decision(
    internal: InternalContext,
    caps: vk::SurfaceCapabilitiesKHR,
    width: u32,
    height: u32,
) -> ResizeDecision {
    if width == 0 || height == 0 || internal.phase != FramePhase::Idle {
        ResizeDecision::Deferred
    } else if !extent_in_bounds(caps, width, height) {
        ResizeDecision::OutOfBounds
    } else {
        ResizeDecision::Rebuild(
            SwapchainPlan {
                surface_format: internal.surface_format,
                extent: vk::Extent2D { width, height },
                image_count: clamp_count(
                    internal.image_count,
                    caps.min_image_count,
                    caps.max_image_count,
                ),
                present_mode: internal.present_mode,
            },
        )
    }
}

impl VulkanContext {
    pub open spec fn wf(&self) -> bool {
        match self.internal {
            Some(i) => {
                &&& i.wf()
                &&& self.pass matches Some(p) ==> p.framebuffer_count == i.image_count
            },
            None => self.pass is None && self.resources is None,
        }
    }

    /// The context with `internal` replaced and everything else kept.
    pub open spec fn with_internal(self, internal: InternalContext) -> VulkanContext {
        VulkanContext { internal: Some(internal), ..self }
    }

    pub open spec fn begin_frame_spec(self) -> (VulkanContext, Option<usize>) {
        match self.internal {
            Some(i) => {
                let (i2, r) = i.begin_frame_spec();
                (self.with_internal(i2), r)
            },
            None => (self, None),
        }
    }

    pub open spec fn image_acquired_spec(self, outcome: AcquireOutcome) -> (
        VulkanContext,
        Result<bool, VulkanError>,
    ) {
        match self.internal {
            Some(i) => {
                let (i2, r) = i.image_acquired_spec(outcome);
                (self.with_internal(i2), r)
            },
            None => (self, Ok(false)),
        }
    }

    pub open spec fn draw_pass_spec(self) -> (VulkanContext, Option<u32>) {
        match (self.internal, self.pass) {
            (Some(i), Some(_)) => {
                let (i2, r) = i.draw_pass_spec();
                (self.with_internal(i2), r)
            },
            _ => (self, None),
        }
    }

    pub open spec fn end_frame_spec(self) -> (VulkanContext, Option<FrameSubmit>) {
        match self.internal {
            Some(i) => {
                let (i2, r) = i.end_frame_spec();
                (self.with_internal(i2), r)
            },
            None => (self, None),
        }
    }

    pub open spec fn frame_presented_spec(self, outcome: PresentOutcome) -> (
        VulkanContext,
        Result<(), VulkanError>,
    ) {
        match self.internal {
            Some(i) => {
                let (i2, r) = i.frame_presented_spec(outcome);
                (self.with_internal(i2), r)
            },
            None => (self, Ok(())),
        }
    }

    /// The context after its swapchain (and the pass's framebuffers) were
    /// rebuilt from `plan` with `image_count` images.
    pub open spec fn rebuilt_spec(self, plan: SwapchainPlan, image_count: u32) -> VulkanContext {
        match self.internal {
            Some(i) => VulkanContext {
                internal: Some(i.rebuilt_spec(plan, image_count)),
                pass: match self.pass {
                    Some(_) => Some(Pass { framebuffer_count: image_count }),
                    None => None,
                },
                ..self
            },
            None => self,
        }
    }

    /// A renderer that will create its context once the window is up.
    pub fn new(width: u32, height: u32, validation: bool) -> (r: Self)
        ensures
            r.width == width && r.height == height && r.validation == validation,
            r.internal is None && r.resources is None && r.pass is None,
            r.wf(),
    {
        VulkanContext { width, height, validation, internal: None, resources: None, pass: None }
    }
}

/// Refuses a window without native handles.
pub fn check_window_handles(window: &Window) -> (r: Result<(), VulkanError>)
    ensures
        r is Err <==> window.internal.hwnd == 0 || window.internal.hinstance == 0,
        r matches Err(e) ==> e == VulkanError::WindowNotInitialized,
{
    if window.hwnd() == 0 || window.hinstance() == 0 {
        Err(VulkanError::WindowNotInitialized)
    } else {
        Ok(())
    }
}

/// The teardown steps in order: a wait for the device to go idle, then
/// dependents before what they depend on, in reverse order of creation.
pub fn teardown_steps(has_resources: bool, has_pass: bool) -> (r: Vec<Teardown>)
    ensures
        r@ == teardown_order(has_resources, has_pass),
{
    let mut steps: Vec<Teardown> = Vec::new();
    steps.push(Teardown::WaitIdle);
    if has_resources {
        steps.push(Teardown::Pipelines);
    }
    if has_pass {
        steps.push(Teardown::Framebuffers);
        steps.push(Teardown::RenderPass);
    }
    steps.push(Teardown::FrameSync);
    steps.push(Teardown::ImageViews);
    steps.push(Teardown::CommandPool);
    steps.push(Teardown::DebugMessenger);
    steps.push(Teardown::Swapchain);
    steps.push(Teardown::Device);
    steps.push(Teardown::Surface);
    steps.push(Teardown::Instance);
    assert(steps@ =~= teardown_order(has_resources, has_pass));
    steps
}

/// Releases the live context, its resources and its pass, and returns the
/// steps that tear them down on the device, in order.
pub fn release(context: &mut VulkanContext) -> (r: Vec<Teardown>)
    ensures
        old(context).internal is Some ==> r@ == teardown_order(
            old(context).resources is Some,
            old(context).pass is Some,
        ),
        old(context).internal is None ==> r@.len() == 0,
        final(context).internal is None,
        final(context).resources is None,
        final(context).pass is None,
        final(context).width == old(context).width,
        final(context).height == old(context).height,
        final(context).validation == old(context).validation,
        final(context).wf(),
{
    let steps = if context.internal.is_some() {
        teardown_steps(context.resources.is_some(), context.pass.is_some())
    } else {
        Vec::new()
    };
    context.internal = None;
    context.resources = None;
    context.pass = None;
    steps
}

/// Reacts to the window's state at the start of a tick: tears down after
/// the window is destroyed, asks for recreation after a resize event or a
/// stale swapchain, and asks for creation once the window is up.
pub fn update_context(context: &mut VulkanContext, window: &Window) -> (r: ContextAction)
    requires
        old(context).wf(),
    ensures
        final(context).wf(),
        old(context).internal is Some && window.internal.destroyed ==> {
            &&& r matches ContextAction::Destroy(steps) && steps@ == teardown_order(
                old(context).resources is Some,
                old(context).pass is Some,
            )
            &&& final(context).internal is None
            &&& final(context).resources is None
            &&& final(context).pass is None
            &&& final(context).width == old(context).width
            &&& final(context).height == old(context).height
            &&& final(context).validation == old(context).validation
        },
        old(context).internal is Some && !window.internal.destroyed ==> {
            &&& *final(context) == *old(context)
            &&& (has_resize(window.events@) || old(context).internal->Some_0.out_of_date) ==> r
                == (ContextAction::Resize {
                width: window.inner_size.x,
                height: window.inner_size.y,
            })
            &&& !(has_resize(window.events@) || old(context).internal->Some_0.out_of_date) ==> r
                is Nothing
        },
        old(context).internal is None ==> {
            &&& *final(context) == *old(context)
            &&& window.internal.initialized ==> r is Create
            &&& !window.internal.initialized ==> r is Nothing
        },
{
    let stale = match &context.internal {
        Some(internal) => Some(internal.out_of_date),
        None => None,
    };
    match stale {
        Some(out_of_date) => {
            if window.internal.destroyed {
                ContextAction::Destroy(release(context))
            } else if contains_resize(&window.events) || out_of_date {
                ContextAction::Resize { width: window.inner_size.x, height: window.inner_size.y }
            } else {
                ContextAction::Nothing
            }
        },
        None => {
            if window.internal.initialized {
                ContextAction::Create
            } else {
                ContextAction::Nothing
            }
        },
    }
}

/// Installs a context whose first swapchain was built from `plan` with
/// `image_count` images, with empty resources and no pass yet.
pub fn context_created(context: &mut VulkanContext, plan: &SwapchainPlan, image_count: u32) -> (r:
    Result<(), VulkanError>)
    requires
        old(context).wf(),
    ensures
        final(context).wf(),
        r is Err <==> image_count == 0,
        r matches Err(e) ==> e == VulkanError::ResourceCreationFailed && *final(context) == *old(
            context,
        ),
        r is Ok ==> {
            &&& final(context).internal == Some(InternalContext::fresh(*plan, image_count))
            &&& final(context).resources matches Some(res) && res.pipelines@.len() == 0
            &&& final(context).pass is None
            &&& final(context).width == old(context).width
            &&& final(context).height == old(context).height
            &&& final(context).validation == old(context).validation
        },
{
    if image_count == 0 {
        return Err(VulkanError::ResourceCreationFailed);
    }
    context.internal = Some(InternalContext::new(plan, image_count));
    context.resources = Some(create_resources());
    context.pass = None;
    Ok(())
}

/// Creates the render pass once a context is live: returns whether the
/// caller must now create it, with one framebuffer per swapchain image.
pub fn update_pass(context: &mut VulkanContext) -> (r: bool)
    requires
        old(context).wf(),
    ensures
        final(context).wf(),
        r == (old(context).internal is Some && old(context).pass is None),
        r ==> *final(context) == (VulkanContext {
            pass: Some(Pass { framebuffer_count: old(context).internal->Some_0.image_count }),
            ..*old(context)
        }),
        !r ==> *final(context) == *old(context),
{
    let count = match &context.internal {
        Some(internal) => Some(internal.image_count),
        None => None,
    };
    match count {
        Some(n) => {
            if context.pass.is_none() {
                context.pass = Some(Pass { framebuffer_count: n });
                true
            } else {
                false
            }
        },
        None => false,
    }
}

/// Decides on a request to recreate the swapchain at `width` by `height`,
/// given the surface's capabilities read just now. A zero dimension defers
/// the request; a size outside the surface's extent bounds is refused; else
/// the swapchain is rebuilt at exactly that size, with the previous image
/// count (moved into the surface's bounds), format and presentation mode.
pub fn resize_swapchain(
    context: &VulkanContext,
    caps: &vk::SurfaceCapabilitiesKHR,
    width: u32,
    height: u32,
) -> (r: ResizeDecision)
    ensures
        context.internal matches Some(i) ==> r == resize_decision(i, *caps, width, height),
        context.internal is None ==> r is Deferred,
        width == 0 || height == 0 ==> r is Deferred,
{
    match &context.internal {
        Some(internal) => {
            if width == 0 || height == 0 || internal.phase != FramePhase::Idle {
                ResizeDecision::Deferred
            } else if width < caps.min_image_extent.width || height < caps.min_image_extent.height
                || width > caps.max_image_extent.width || height > caps.max_image_extent.height {
                ResizeDecision::OutOfBounds
            } else {
                ResizeDecision::Rebuild(
                    SwapchainPlan {
                        surface_format: internal.surface_format,
                        extent: vk::Extent2D { width, height },
                        image_count: clamp_image_count(caps, internal.image_count),
                        present_mode: internal.present_mode,
                    },
                )
            }
        },
        None => ResizeDecision::Deferred,
    }
}

/// Records that the swapchain was rebuilt from `plan` with `image_count`
/// images, and the pass's framebuffers with it.
pub fn swapchain_rebuilt(context: &mut VulkanContext, plan: &SwapchainPlan, image_count: u32) -> (r:
    Result<(), VulkanError>)
    requires
        old(context).wf(),
    ensures
        final(context).wf(),
        r is Err <==> image_count == 0 || !(old(context).internal matches Some(i) && i.phase
            == FramePhase::Idle),
        r matches Err(e) ==> e == VulkanError::ResourceCreationFailed && *final(context) == *old(
            context,
        ),
        r is Ok ==> *final(context) == old(context).rebuilt_spec(*plan, image_count),
{
    if image_count == 0 {
        return Err(VulkanError::ResourceCreationFailed);
    }
    let taken = context.internal.take();
    match taken {
        Some(mut internal) => {
            if internal.phase != FramePhase::Idle {
                context.internal = Some(internal);
                return Err(VulkanError::ResourceCreationFailed);
            }
            internal.swapchain_rebuilt(plan, image_count);
            context.internal = Some(internal);
            if context.pass.is_some() {
                context.pass = Some(Pass { framebuffer_count: image_count });
            }
            Ok(())
        },
        None => Err(VulkanError::ResourceCreationFailed),
    }
}

/// Starts a frame; see `InternalContext::begin_frame`.
pub fn begin_frame(context: &mut VulkanContext) -> (r: Option<usize>)
    requires
        old(context).wf(),
    ensures
        final(context).wf(),
        (*final(context), r) == old(context).begin_frame_spec(),
{
    let taken = context.internal.take();
    match taken {
        Some(mut internal) => {
            let r = internal.begin_frame();
            context.internal = Some(internal);
            r
        },
        None => None,
    }
}

/// Takes the result of image acquisition; see `InternalContext::image_acquired`.
pub fn image_acquired(context: &mut VulkanContext, outcome: AcquireOutcome) -> (r: Result<
    bool,
    VulkanError,
>)
    requires
        old(context).wf(),
    ensures
        final(context).wf(),
        (*final(context), r) == old(context).image_acquired_spec(outcome),
{
    let taken = context.internal.take();
    match taken {
        Some(mut internal) => {
            let r = internal.image_acquired(outcome);
            context.internal = Some(internal);
            r
        },
        None => Ok(false),
    }
}

/// Brackets the pass of the pending frame: returns the framebuffer (the
/// acquired image's) on which to begin the pass and then end it.
pub fn draw_pass(context: &mut VulkanContext) -> (r: Option<u32>)
    requires
        old(context).wf(),
    ensures
        final(context).wf(),
        (*final(context), r) == old(context).draw_pass_spec(),
        r matches Some(fb) ==> final(context).pass matches Some(p) && fb < p.framebuffer_count,
{
    if context.pass.is_none() {
        return None;
    }
    let taken = context.internal.take();
    match taken {
        Some(mut internal) => {
            let r = internal.draw_pass();
            context.internal = Some(internal);
            r
        },
        None => None,
    }
}

/// Ends the pending frame; see `InternalContext::end_frame`.
pub fn end_frame(context: &mut VulkanContext) -> (r: Option<FrameSubmit>)
    requires
        old(context).wf(),
    ensures
        final(context).wf(),
        (*final(context), r) == old(context).end_frame_spec(),
{
    let taken = context.internal.take();
    match taken {
        Some(mut internal) => {
            let r = internal.end_frame();
            context.internal = Some(internal);
            r
        },
        None => None,
    }
}

/// Takes the result of presentation; see `InternalContext::frame_presented`.
pub fn frame_presented(context: &mut VulkanContext, outcome: PresentOutcome) -> (r: Result<
    (),
    VulkanError,
>)
    requires
        old(context).wf(),
    ensures
        final(context).wf(),
        (*final(context), r) == old(context).frame_presented_spec(outcome),
{
    let taken = context.internal.take();
    match taken {
        Some(mut internal) => {
            let r = internal.frame_presented(outcome);
            context.internal = Some(internal);
            r
        },
        None => Ok(()),
    }
}

/// No resources yet.
pub fn create_resources() -> (r: Resources)
    ensures
        r.pipelines@.len() == 0,
{
    Resources { pipelines: Vec::new() }
}

impl Resources {
    /// Registers a pipeline made from `config`. The shader stages are opaque
    /// blobs that must not be empty; pipelines are not built yet, so every
    /// accepted request gets the id 0.
    pub fn create_pipeline(&mut self, config: PipelineConfig) -> (r: Result<u32, VulkanError>)
        ensures
            r == (if config.vertext_shader_source@.len() > 0
                && config.fragment_shader_source@.len() > 0 {
                Ok::<u32, VulkanError>(0)
            } else {
                Err::<u32, VulkanError>(VulkanError::ResourceCreationFailed)
            }),
            final(self).pipelines@ == old(self).pipelines@,
    {
        if config.vertext_shader_source.len() == 0 || config.fragment_shader_source.len() == 0 {
            Err(VulkanError::ResourceCreationFailed)
        } else {
            Ok(0)
        }
    }
}

/// Asks for a pipeline from two non-empty shader stages; fails unless the
/// context and its resources are live.
pub fn create_pipeline(context: &mut VulkanContext, config: PipelineConfig) -> (r: Result<
    u32,
    VulkanError,
>)
    ensures
        r == (if old(context).internal is Some && old(context).resources is Some
            && config.vertext_shader_source@.len() > 0 && config.fragment_shader_source@.len()
            > 0 {
            Ok::<u32, VulkanError>(0)
        } else {
            Err::<u32, VulkanError>(VulkanError::ResourceCreationFailed)
        }),
        final(context).internal == old(context).internal,
        final(context).pass == old(context).pass,
        final(context).resources is Some == old(context).resources is Some,
{
    if context.internal.is_none() {
        return Err(VulkanError::ResourceCreationFailed);
    }
    match &mut context.resources {
        Some(resources) => resources.create_pipeline(config),
        None => Err(VulkanError::ResourceCreationFailed),
    }
}

/// Recreating the swapchain at any non-zero size within the surface's
/// bounds and then running one frame, on which the device acquires an image
/// and presents it, never takes the fatal path: every step succeeds, the
/// pass (where there is one) is drawn into the acquired image, and the cycle
/// ends idle at the new size.
pub proof fn lemma_recreate_then_frame(
    c: VulkanContext,
    caps: vk::SurfaceCapabilitiesKHR,
    width: u32,
    height: u32,
    image_count: u32,
    image: u32,
)
    requires
        c.wf(),
        c.internal matches Some(i) && i.phase == FramePhase::Idle,
        width > 0,
        height > 0,
        extent_in_bounds(caps, width, height),
        image_count >= 1,
        image < image_count,
    ensures
        resize_decision(c.internal->Some_0, caps, width, height) matches ResizeDecision::Rebuild(
            plan,
        ) && {
            let c1 = c.rebuilt_spec(plan, image_count);
            let (c2, slot) = c1.begin_frame_spec();
            let (c3, acquired) = c2.image_acquired_spec(AcquireOutcome::Acquired(image));
            let (c4, framebuffer) = c3.draw_pass_spec();
            let (c5, submit) = c4.end_frame_spec();
            let (c6, presented) = c5.frame_presented_spec(PresentOutcome::Presented);
            &&& c1.wf() && c2.wf() && c3.wf() && c4.wf() && c5.wf() && c6.wf()
            &&& slot is Some
            &&& acquired == Ok::<bool, VulkanError>(true)
            &&& c.pass is Some ==> framebuffer == Some(image)
            &&& submit matches Some(sub) && sub.image_index == image
            &&& presented == Ok::<(), VulkanError>(())
            &&& c6.internal matches Some(i6) && i6.phase == FramePhase::Idle && !i6.out_of_date
                && i6.surface_resolution == (vk::Extent2D { width, height })
        },
{
    let i = c.internal->Some_0;
    let plan = resize_decision(i, caps, width, height)->Rebuild_0;
    rebuilt_keeps_wf(c, plan, image_count);
    frame_steps_keep_wf(c.rebuilt_spec(plan, image_count), image);
}

/// Rebuilding the swapchain of an idle context keeps it well formed.
proof fn rebuilt_keeps_wf(c: VulkanContext, plan: SwapchainPlan, image_count: u32)
    requires
        c.wf(),
        c.internal matches Some(i) && i.phase == FramePhase::Idle,
        image_count >= 1,
    ensures
        c.rebuilt_spec(plan, image_count).wf(),
{
    let i = c.internal->Some_0;
    lemma_record(i.log@, i.fences@, GpuOp::WaitIdle, crate::frame::all_signaled());
    let i2 = i.rebuilt_spec(plan, image_count);
    assert forall|s: int| 0 <= s < FRAMES_IN_FLIGHT implies (#[trigger] i2.fences@[s]
        == FenceState::Reset <==> (i2.phase is Recording && s == i2.current_frame)) by {}
}

/// Each step of a frame keeps the context well formed.
proof fn frame_steps_keep_wf(c1: VulkanContext, image: u32)
    requires
        c1.wf(),
    ensures
        ({
            let (c2, _) = c1.begin_frame_spec();
            let (c3, _) = c2.image_acquired_spec(AcquireOutcome::Acquired(image));
            let (c4, _) = c3.draw_pass_spec();
            let (c5, _) = c4.end_frame_spec();
            let (c6, _) = c5.frame_presented_spec(PresentOutcome::Presented);
            c2.wf() && c3.wf() && c4.wf() && c5.wf() && c6.wf()
        }),
{
    let (c2, _) = c1.begin_frame_spec();
    let (c3, _) = c2.image_acquired_spec(AcquireOutcome::Acquired(image));
    let (c4, _) = c3.draw_pass_spec();
    let (c5, _) = c4.end_frame_spec();
    step_keeps_wf(c1, 0, image);
    step_keeps_wf(c2, 1, image);
    step_keeps_wf(c3, 2, image);
    step_keeps_wf(c4, 3, image);
    step_keeps_wf(c5, 4, image);
}

/// One step of the frame cycle (begin, acquire, draw, end, present, by
/// `step`) keeps the context well formed.
proof fn step_keeps_wf(c: VulkanContext, step: int, image: u32)
    requires
        c.wf(),
    ensures
        step == 0 ==> c.begin_frame_spec().0.wf(),
        step == 1 ==> c.image_acquired_spec(AcquireOutcome::Acquired(image)).0.wf(),
        step == 2 ==> c.draw_pass_spec().0.wf(),
        step == 3 ==> c.end_frame_spec().0.wf(),
        step == 4 ==> c.frame_presented_spec(PresentOutcome::Presented).0.wf(),
{
    if let Some(i) = c.internal {
        if step == 3 {
            crate::frame::lemma_slot_reuse(i);
        } else if step == 0 && !(i.out_of_date || i.phase != FramePhase::Idle) {
            let s = i.current_frame;
            let f1 = i.fences@.update(s as int, FenceState::Signaled);
            lemma_record(i.log@, i.fences@, GpuOp::WaitFence(s), f1);
            lemma_record(i.log@.push(GpuOp::WaitFence(s)), f1, GpuOp::AcquireImage(s), f1);
        } else if step == 1 && i.phase == FramePhase::Acquiring && image < i.image_count {
            let s = i.current_frame;
            let f0 = i.fences@;
            let f1 = f0.update(s as int, FenceState::Reset);
            let l1 = i.log@.push(GpuOp::ResetFence(s));
            let l2 = l1.push(GpuOp::ResetCommands(s));
            lemma_record(i.log@, f0, GpuOp::ResetFence(s), f0);
            lemma_record(l1, f0, GpuOp::ResetCommands(s), f0);
            lemma_record(l2, f0, GpuOp::BeginCommands(s), f1);
        } else if step == 2 && i.phase is Recording {
            let f0 = i.fences@;
            let im = i.phase->Recording_0;
            lemma_record(i.log@, f0, GpuOp::BeginPass(im), f0);
            lemma_record(i.log@.push(GpuOp::BeginPass(im)), f0, GpuOp::EndPass, f0);
        }
    }
}

/// At most one frame is pending: a second start without an end in between
/// leaves the renderer as the first start left it, and reports no slot.
pub proof fn lemma_single_pending(c: VulkanContext)
    requires
        c.wf(),
    ensures
        c.begin_frame_spec().0.begin_frame_spec() == (c.begin_frame_spec().0, None::<usize>),
{
}

/// A stale swapchain, whether acquisition or presentation reported it,
/// followed by a recreation at a non-zero size within the surface's bounds,
/// yields a swapchain of exactly that extent, no longer stale, with as many
/// framebuffers as images.
pub proof fn lemma_stale_then_recreate(
    c: VulkanContext,
    stale_on_acquire: bool,
    caps: vk::SurfaceCapabilitiesKHR,
    width: u32,
    height: u32,
    image_count: u32,
)
    requires
        c.wf(),
        c.internal is Some,
        stale_on_acquire ==> c.internal->Some_0.phase == FramePhase::Acquiring,
        !stale_on_acquire ==> c.internal->Some_0.phase == FramePhase::Presenting,
        width > 0,
        height > 0,
        extent_in_bounds(caps, width, height),
        image_count >= 1,
    ensures
        ({
            let c1 = if stale_on_acquire {
                c.image_acquired_spec(AcquireOutcome::OutOfDate).0
            } else {
                c.frame_presented_spec(PresentOutcome::OutOfDate).0
            };
            &&& c1.wf()
            &&& c1.internal matches Some(i1) && i1.out_of_date
            &&& resize_decision(c1.internal->Some_0, caps, width, height) matches ResizeDecision::Rebuild(plan)
                && plan.extent == (vk::Extent2D { width, height }) && {
                let c2 = c1.rebuilt_spec(plan, image_count);
                &&& c2.wf()
                &&& c2.internal matches Some(i2) && i2.image_count == image_count
                    && i2.surface_resolution == (vk::Extent2D { width, height }) && !i2.out_of_date
                &&& c2.pass matches Some(p) ==> p.framebuffer_count == image_count
            }
        }),
{
    let c1 = if stale_on_acquire {
        c.image_acquired_spec(AcquireOutcome::OutOfDate).0
    } else {
        c.frame_presented_spec(PresentOutcome::OutOfDate).0
    };
    let i = c.internal->Some_0;
    let i1 = c1.internal->Some_0;
    assert forall|s: int| 0 <= s < FRAMES_IN_FLIGHT implies (#[trigger] i1.fences@[s]
        == FenceState::Reset <==> (i1.phase is Recording && s == i1.current_frame)) by {
        assert(i.fences@[s] == FenceState::Reset <==> (i.phase is Recording && s == i.current_frame));
    }
    assert(c1.wf());
    let plan = resize_decision(i1, caps, width, height)->Rebuild_0;
    rebuilt_keeps_wf(c1, plan, image_count);
}

} // verus!
