//! The live device context's model and its frame ring: a fixed number of
//! frame slots, each with a completion fence, driven through the cycle
//! idle → acquiring → recording → presenting → idle.
//!
//! Each operation decides what the caller must do on the device and records
//! it in a ghost log of device operations, over which the slot reuse rule is
//! stated: a slot's command buffer is never reset while its previous
//! submission may still be running.
use vstd::prelude::*;
use ash::vk;

use crate::error::VulkanError;
use crate::surface::{PresentMode, SwapchainPlan};

verus! {

/// The number of frame slots, and so of frames that may be in flight.
pub const FRAMES_IN_FLIGHT: usize = 2;

/// What the host knows of a frame slot's completion fence.
#[derive(Clone, Copy, PartialEq, Eq, Structural, Debug)]
pub enum FenceState {
    /// Signaled: the slot's last submission, if any, has completed.
    Signaled,
    /// Submitted with work that has not been waited on yet; it will signal.
    InFlight,
    /// Reset, with the slot's next submission still to come.
    Reset,
}

/// Where the frame cycle stands.
#[derive(Clone, Copy, PartialEq, Eq, Structural, Debug)]
pub enum FramePhase {
    Idle,
    /// The slot's fence was waited on and an image is being acquired.
    Acquiring,
    /// The slot's commands are being recorded for the given swapchain image.
    Recording(u32),
    /// The frame was submitted and its presentation is under way.
    Presenting,
}

/// One operation issued on the device, as recorded in the ghost log.
#[derive(Clone, Copy, PartialEq, Eq, Structural, Debug)]
pub enum GpuOp {
    WaitFence(usize),
    ResetFence(usize),
    AcquireImage(usize),
    ResetCommands(usize),
    BeginCommands(usize),
    BeginPass(u32),
    EndPass,
    EndCommands(usize),
    Submit(usize),
    Present(u32),
    WaitIdle,
}

/// What image acquisition reported.
#[derive(Clone, Copy, PartialEq, Eq, Structural, Debug)]
pub enum AcquireOutcome {
    Acquired(u32),
    /// The swapchain no longer matches the surface.
    OutOfDate,
    /// Any other failure.
    Failed,
}

/// What presentation reported.
#[derive(Clone, Copy, PartialEq, Eq, Structural, Debug)]
pub enum PresentOutcome {
    Presented,
    /// The swapchain no longer matches the surface.
    OutOfDate,
    /// Any other failure.
    Failed,
}

/// The work that ends a frame: finish recording the slot's command buffer,
/// submit it (waiting on the slot's image-acquired semaphore, signaling its
/// render-complete semaphore and its fence), then present the image.
#[derive(Clone, Copy, PartialEq, Eq, Structural, Debug)]
pub struct FrameSubmit {
    pub slot: usize,
    pub image_index: u32,
}

/// The model of a live device context: the negotiated surface settings, the
/// swapchain's size, and the state of the frame ring.
pub struct InternalContext {
    /// Set when the presentation engine reported the swapchain stale.
    pub out_of_date: bool,
    pub surface_format: vk::SurfaceFormatKHR,
    pub surface_resolution: vk::Extent2D,
    pub present_mode: PresentMode,
    /// The number of swapchain images, and of their views.
    pub image_count: u32,
    /// The frame slot that the next frame uses.
    pub current_frame: usize,
    pub phase: FramePhase,
    pub fences: Ghost<Seq<FenceState>>,
    pub log: Ghost<Seq<GpuOp>>,
    pub frames_submitted: Ghost<nat>,
}

pub open spec fn waits_on(op: GpuOp, s: usize) -> bool {
    op == GpuOp::WaitFence(s) || op == GpuOp::WaitIdle
}

/// Every submission on slot `s` in `log` has been waited on since.
pub open spec fn submits_waited(log: Seq<GpuOp>, s: usize) -> bool {
    forall|i: int|
        0 <= i < log.len() && #[trigger] log[i] == GpuOp::Submit(s) ==> exists|k: int|
            i < k < log.len() && waits_on(#[trigger] log[k], s)
}

/// Between a submission on a slot and any later reset of that slot's command
/// buffer, the slot's fence (or the whole device) was waited on.
pub open spec fn slot_reuse_safe(log: Seq<GpuOp>) -> bool {
    forall|i: int, j: int|
        0 <= i < j < log.len() && (#[trigger] log[i]) is Submit && (#[trigger] log[j]) is ResetCommands
            && log[i]->Submit_0 == log[j]->ResetCommands_0 ==> exists|k: int|
            i < k < j && waits_on(#[trigger] log[k], log[i]->Submit_0)
}

pub open spec fn log_consistent(log: Seq<GpuOp>, fences: Seq<FenceState>) -> bool {
    &&& slot_reuse_safe(log)
    &&& forall|s: int|
        0 <= s < fences.len() && #[trigger] fences[s] != FenceState::InFlight ==> submits_waited(
            log,
            s as usize,
        )
}

pub open spec fn all_signaled() -> Seq<FenceState> {
    seq![FenceState::Signaled, FenceState::Signaled]
}

/// Appending `op` to the log, with the fences moving to `fences2`, keeps the
/// log consistent when every fence that is not in flight afterwards was
/// either not in flight before and not submitted now, or is waited on now,
/// and a command buffer is reset only on a slot that is not in flight.
pub proof fn lemma_record(log: Seq<GpuOp>, fences: Seq<FenceState>, op: GpuOp, fences2: Seq<FenceState>)
    requires
        log_consistent(log, fences),
        fences2.len() == fences.len(),
        op is ResetCommands ==> {
            let s = op->ResetCommands_0;
            s < fences.len() && fences[s as int] != FenceState::InFlight
        },
        forall|s: int|
            0 <= s < fences2.len() && #[trigger] fences2[s] != FenceState::InFlight ==> (
            fences[s] != FenceState::InFlight && op != GpuOp::Submit(s as usize)) || waits_on(
                op,
                s as usize,
            ),
    ensures
        log_consistent(log.push(op), fences2),
{
    let log2 = log.push(op);
    assert forall|i: int, j: int|
        0 <= i < j < log2.len() && (#[trigger] log2[i]) is Submit && (
        #[trigger] log2[j]) is ResetCommands && log2[i]->Submit_0
            == log2[j]->ResetCommands_0 implies exists|k: int|
        i < k < j && waits_on(#[trigger] log2[k], log2[i]->Submit_0) by {
        let s = log2[i]->Submit_0;
        if j < log.len() {
            assert(log[i] == log2[i] && log[j] == log2[j]);
            let k = choose|k: int| i < k < j && waits_on(#[trigger] log[k], log[i]->Submit_0);
            assert(log2[k] == log[k]);
        } else {
            assert(log2[j] == op);
            assert(fences[s as int] != FenceState::InFlight);
            assert(submits_waited(log, s));
            assert(log[i] == GpuOp::Submit(s));
            let k = choose|k: int| i < k < log.len() && waits_on(#[trigger] log[k], s);
            assert(log2[k] == log[k]);
        }
    }
    assert forall|s: int|
        0 <= s < fences2.len() && #[trigger] fences2[s] != FenceState::InFlight implies submits_waited(
        log2,
        s as usize,
    ) by {
        assert forall|i: int|
            0 <= i < log2.len() && #[trigger] log2[i] == GpuOp::Submit(s as usize) implies exists|k: int|
            i < k < log2.len() && waits_on(#[trigger] log2[k], s as usize) by {
            if waits_on(op, s as usize) {
                assert(log2[log.len() as int] == op);
            } else {
                assert(i < log.len());
                assert(log[i] == log2[i]);
                assert(submits_waited(log, s as usize));
                let k = choose|k: int| i < k < log.len() && waits_on(#[trigger] log[k], s as usize);
                assert(log2[k] == log[k]);
            }
        }
    }
}

/// Frame slots are reused only after their previous work completed: in the
/// log of device operations, between a submission on a slot and any later
/// reset of that slot's command buffer, that slot's fence (or the whole
/// device) was waited on. Frames take the slots in turn: the frame submitted
/// `k`-th (from zero) uses slot `k mod FRAMES_IN_FLIGHT`.
pub proof fn lemma_slot_reuse(c: InternalContext)
    requires
        c.wf(),
    ensures
        slot_reuse_safe(c.log@),
        c.end_frame_spec().1 matches Some(sub) ==> {
            &&& sub.slot as nat == c.frames_submitted@ % (FRAMES_IN_FLIGHT as nat)
            &&& c.end_frame_spec().0.frames_submitted@ == c.frames_submitted@ + 1
            &&& c.end_frame_spec().0.wf()
        },
{
    let (c2, r) = c.end_frame_spec();
    if r is Some {
        let n = c.frames_submitted@;
        assert((n + 1) % 2 == ((n % 2) + 1) % 2) by (nonlinear_arith);
        let s = c.current_frame;
        let f0 = c.fences@;
        let f1 = f0.update(s as int, FenceState::InFlight);
        let l1 = c.log@.push(GpuOp::EndCommands(s));
        lemma_record(c.log@, f0, GpuOp::EndCommands(s), f0);
        lemma_record(l1, f0, GpuOp::Submit(s), f1);
        lemma_record(l1.push(GpuOp::Submit(s)), f1, GpuOp::Present(c.phase->Recording_0), f1);
    }
}

impl InternalContext {
    pub open spec fn wf(&self) -> bool {
        &&& self.fences@.len() == FRAMES_IN_FLIGHT
        &&& self.current_frame < FRAMES_IN_FLIGHT
        &&& self.current_frame as nat == self.frames_submitted@ % (FRAMES_IN_FLIGHT as nat)
        &&& self.image_count >= 1
        &&& self.phase matches FramePhase::Recording(i) ==> i < self.image_count
        &&& forall|s: int|
            0 <= s < FRAMES_IN_FLIGHT ==> (#[trigger] self.fences@[s] == FenceState::Reset <==> (
            self.phase is Recording && s == self.current_frame))
        &&& self.phase is Acquiring ==> self.fences@[self.current_frame as int]
            == FenceState::Signaled
        &&& log_consistent(self.log@, self.fences@)
    }

    /// The swapchain image that the pending frame renders into.
    pub open spec fn pending_image(&self) -> Option<u32> {
        match self.phase {
            FramePhase::Recording(i) => Some(i),
            _ => None,
        }
    }

    /// A fresh context over a just-built swapchain of `image_count` images.
    pub open spec fn fresh(plan: SwapchainPlan, image_count: u32) -> InternalContext {
        InternalContext {
            out_of_date: false,
            surface_format: plan.surface_format,
            surface_resolution: plan.extent,
            present_mode: plan.present_mode,
            image_count,
            current_frame: 0,
            phase: FramePhase::Idle,
            fences: Ghost(all_signaled()),
            log: Ghost(Seq::empty()),
            frames_submitted: Ghost(0),
        }
    }

    pub open spec fn begin_frame_spec(self) -> (InternalContext, Option<usize>) {
        if self.out_of_date || self.phase != FramePhase::Idle {
            (self, None)
        } else {
            let s = self.current_frame;
            (
                InternalContext {
                    phase: FramePhase::Acquiring,
                    fences: Ghost(self.fences@.update(s as int, FenceState::Signaled)),
                    log: Ghost(self.log@.push(GpuOp::WaitFence(s)).push(GpuOp::AcquireImage(s))),
                    ..self
                },
                Some(s),
            )
        }
    }

    pub open spec fn image_acquired_spec(self, outcome: AcquireOutcome) -> (
        InternalContext,
        Result<bool, VulkanError>,
    ) {
        if self.phase != FramePhase::Acquiring {
            (self, Ok(false))
        } else {
            let s = self.current_frame;
            match outcome {
                AcquireOutcome::Acquired(i) => if i < self.image_count {
                    (
                        InternalContext {
                            phase: FramePhase::Recording(i),
                            fences: Ghost(self.fences@.update(s as int, FenceState::Reset)),
                            log: Ghost(
                                self.log@.push(GpuOp::ResetFence(s)).push(
                                    GpuOp::ResetCommands(s),
                                ).push(GpuOp::BeginCommands(s)),
                            ),
                            ..self
                        },
                        Ok(true),
                    )
                } else {
                    (
                        InternalContext { phase: FramePhase::Idle, ..self },
                        Err(VulkanError::FatalDeviceError),
                    )
                },
                AcquireOutcome::OutOfDate => (
                    InternalContext { phase: FramePhase::Idle, out_of_date: true, ..self },
                    Ok(false),
                ),
                AcquireOutcome::Failed => (
                    InternalContext { phase: FramePhase::Idle, ..self },
                    Err(VulkanError::FatalDeviceError),
                ),
            }
        }
    }

    pub open spec fn draw_pass_spec(self) -> (InternalContext, Option<u32>) {
        match self.phase {
            FramePhase::Recording(i) => (
                InternalContext {
                    log: Ghost(self.log@.push(GpuOp::BeginPass(i)).push(GpuOp::EndPass)),
                    ..self
                },
                Some(i),
            ),
            _ => (self, None),
        }
    }

    pub open spec fn end_frame_spec(self) -> (InternalContext, Option<FrameSubmit>) {
        match self.phase {
            FramePhase::Recording(i) => {
                let s = self.current_frame;
                (
                    InternalContext {
                        phase: FramePhase::Presenting,
                        current_frame: ((s + 1) % (FRAMES_IN_FLIGHT as int)) as usize,
                        fences: Ghost(self.fences@.update(s as int, FenceState::InFlight)),
                        log: Ghost(
                            self.log@.push(GpuOp::EndCommands(s)).push(GpuOp::Submit(s)).push(
                                GpuOp::Present(i),
                            ),
                        ),
                        frames_submitted: Ghost(self.frames_submitted@ + 1),
                        ..self
                    },
                    Some(FrameSubmit { slot: s, image_index: i }),
                )
            },
            _ => (self, None),
        }
    }

    pub open spec fn frame_presented_spec(self, outcome: PresentOutcome) -> (
        InternalContext,
        Result<(), VulkanError>,
    ) {
        if self.phase != FramePhase::Presenting {
            (self, Ok(()))
        } else {
            match outcome {
                PresentOutcome::Presented => (
                    InternalContext { phase: FramePhase::Idle, ..self },
                    Ok(()),
                ),
                PresentOutcome::OutOfDate => (
                    InternalContext { phase: FramePhase::Idle, out_of_date: true, ..self },
                    Ok(()),
                ),
                PresentOutcome::Failed => (
                    InternalContext { phase: FramePhase::Idle, ..self },
                    Err(VulkanError::FatalDeviceError),
                ),
            }
        }
    }

    /// The context after its swapchain was rebuilt from `plan` with
    /// `image_count` images, behind a wait for the device to go idle.
    pub open spec fn rebuilt_spec(self, plan: SwapchainPlan, image_count: u32) -> InternalContext {
        InternalContext {
            out_of_date: false,
            surface_resolution: plan.extent,
            present_mode: plan.present_mode,
            image_count,
            fences: Ghost(all_signaled()),
            log: Ghost(self.log@.push(GpuOp::WaitIdle)),
            ..self
        }
    }

    /// A context over a swapchain just built from `plan`, which holds
    /// `image_count` images.
    pub(crate) fn new(plan: &SwapchainPlan, image_count: u32) -> (r: InternalContext)
        requires
            image_count >= 1,
        ensures
            r == InternalContext::fresh(*plan, image_count),
            r.wf(),
    {
        let r = InternalContext {
            out_of_date: false,
            surface_format: plan.surface_format,
            surface_resolution: plan.extent,
            present_mode: plan.present_mode,
            image_count,
            current_frame: 0,
            phase: FramePhase::Idle,
            fences: Ghost(all_signaled()),
            log: Ghost(Seq::empty()),
            frames_submitted: Ghost(0),
        };
        assert(0nat % (FRAMES_IN_FLIGHT as nat) == 0);
        r
    }

    /// The swapchain image of the pending frame, if one is being recorded.
    pub fn present_index(&self) -> (r: Option<u32>)
        ensures
            r == self.pending_image(),
    {
        match self.phase {
            FramePhase::Recording(i) => Some(i),
            _ => None,
        }
    }

    /// Starts a frame: returns the slot whose fence the caller must wait on
    /// and with whose image-acquired semaphore it must acquire the next
    /// image. Does nothing while the swapchain is stale or a frame is pending.
    /// The fence waited on is never one that was reset without a submission
    /// to follow, so the wait ends once the slot's previous work completes.
    pub fn begin_frame(&mut self) -> (r: Option<usize>)
        requires
            old(self).wf(),
        ensures
            (*final(self), r) == old(self).begin_frame_spec(),
            final(self).wf(),
            r matches Some(s) ==> old(self).fences@[s as int] != FenceState::Reset,
    {
        if self.out_of_date || self.phase != FramePhase::Idle {
            return None;
        }
        let s = self.current_frame;
        proof {
            let f1 = self.fences@.update(s as int, FenceState::Signaled);
            lemma_record(self.log@, self.fences@, GpuOp::WaitFence(s), f1);
            lemma_record(self.log@.push(GpuOp::WaitFence(s)), f1, GpuOp::AcquireImage(s), f1);
        }
        self.phase = FramePhase::Acquiring;
        self.fences = Ghost(self.fences@.update(s as int, FenceState::Signaled));
        self.log = Ghost(self.log@.push(GpuOp::WaitFence(s)).push(GpuOp::AcquireImage(s)));
        Some(s)
    }

    /// Takes the result of image acquisition. On success the caller resets
    /// the slot's fence and command buffer and begins recording (`Ok(true)`);
    /// a stale swapchain is marked for recreation and the frame is dropped
    /// (`Ok(false)`); any other failure is fatal. The fence is reset only
    /// here, after an image was acquired: a dropped frame leaves it signaled,
    /// so the next wait on it does not block forever.
    pub fn image_acquired(&mut self, outcome: AcquireOutcome) -> (r: Result<bool, VulkanError>)
        requires
            old(self).wf(),
        ensures
            (*final(self), r) == old(self).image_acquired_spec(outcome),
            final(self).wf(),
    {
        if self.phase != FramePhase::Acquiring {
            return Ok(false);
        }
        let s = self.current_frame;
        match outcome {
            AcquireOutcome::Acquired(i) => {
                if i < self.image_count {
                    proof {
                        let f0 = self.fences@;
                        let f1 = f0.update(s as int, FenceState::Reset);
                        let l1 = self.log@.push(GpuOp::ResetFence(s));
                        let l2 = l1.push(GpuOp::ResetCommands(s));
                        lemma_record(self.log@, f0, GpuOp::ResetFence(s), f0);
                        lemma_record(l1, f0, GpuOp::ResetCommands(s), f0);
                        lemma_record(l2, f0, GpuOp::BeginCommands(s), f1);
                    }
                    self.phase = FramePhase::Recording(i);
                    self.fences = Ghost(self.fences@.update(s as int, FenceState::Reset));
                    self.log = Ghost(
                        self.log@.push(GpuOp::ResetFence(s)).push(GpuOp::ResetCommands(s)).push(
                            GpuOp::BeginCommands(s),
                        ),
                    );
                    Ok(true)
                } else {
                    self.phase = FramePhase::Idle;
                    Err(VulkanError::FatalDeviceError)
                }
            },
            AcquireOutcome::OutOfDate => {
                self.phase = FramePhase::Idle;
                self.out_of_date = true;
                Ok(false)
            },
            AcquireOutcome::Failed => {
                self.phase = FramePhase::Idle;
                Err(VulkanError::FatalDeviceError)
            },
        }
    }

    /// Brackets the pass for the pending frame: returns the swapchain image
    /// (and framebuffer) to begin the pass on, then end it.
    pub fn draw_pass(&mut self) -> (r: Option<u32>)
        requires
            old(self).wf(),
        ensures
            (*final(self), r) == old(self).draw_pass_spec(),
            final(self).wf(),
    {
        match self.phase {
            FramePhase::Recording(i) => {
                proof {
                    let f0 = self.fences@;
                    lemma_record(self.log@, f0, GpuOp::BeginPass(i), f0);
                    lemma_record(self.log@.push(GpuOp::BeginPass(i)), f0, GpuOp::EndPass, f0);
                }
                self.log = Ghost(self.log@.push(GpuOp::BeginPass(i)).push(GpuOp::EndPass));
                Some(i)
            },
            _ => None,
        }
    }

    /// Ends the pending frame: returns the slot to submit and the image to
    /// present, and moves on to the next slot. Does nothing without a
    /// pending frame.
    pub fn end_frame(&mut self) -> (r: Option<FrameSubmit>)
        requires
            old(self).wf(),
        ensures
            (*final(self), r) == old(self).end_frame_spec(),
            final(self).wf(),
    {
        match self.phase {
            FramePhase::Recording(i) => {
                let s = self.current_frame;
                proof {
                    let f0 = self.fences@;
                    let f1 = f0.update(s as int, FenceState::InFlight);
                    let l1 = self.log@.push(GpuOp::EndCommands(s));
                    lemma_record(self.log@, f0, GpuOp::EndCommands(s), f0);
                    lemma_record(l1, f0, GpuOp::Submit(s), f1);
                    lemma_record(l1.push(GpuOp::Submit(s)), f1, GpuOp::Present(i), f1);
                    let n = self.frames_submitted@;
                    assert((n + 1) % 2 == ((n % 2) + 1) % 2) by (nonlinear_arith);
                }
                self.phase = FramePhase::Presenting;
                self.current_frame = (s + 1) % FRAMES_IN_FLIGHT;
                self.fences = Ghost(self.fences@.update(s as int, FenceState::InFlight));
                self.log = Ghost(
                    self.log@.push(GpuOp::EndCommands(s)).push(GpuOp::Submit(s)).push(
                        GpuOp::Present(i),
                    ),
                );
                self.frames_submitted = Ghost(self.frames_submitted@ + 1);
                Some(FrameSubmit { slot: s, image_index: i })
            },
            _ => None,
        }
    }

    /// Takes the result of presentation: a stale swapchain is marked for
    /// recreation, not treated as an error; any other failure is fatal.
    pub fn frame_presented(&mut self, outcome: PresentOutcome) -> (r: Result<(), VulkanError>)
        requires
            old(self).wf(),
        ensures
            (*final(self), r) == old(self).frame_presented_spec(outcome),
            final(self).wf(),
    {
        if self.phase != FramePhase::Presenting {
            return Ok(());
        }
        self.phase = FramePhase::Idle;
        match outcome {
            PresentOutcome::Presented => Ok(()),
            PresentOutcome::OutOfDate => {
                self.out_of_date = true;
                Ok(())
            },
            PresentOutcome::Failed => Err(VulkanError::FatalDeviceError),
        }
    }

    /// Records that the swapchain was rebuilt from `plan` with `image_count`
    /// images, after the device went idle.
    pub(crate) fn swapchain_rebuilt(&mut self, plan: &SwapchainPlan, image_count: u32)
        requires
            old(self).wf(),
            old(self).phase == FramePhase::Idle,
            image_count >= 1,
        ensures
            *final(self) == old(self).rebuilt_spec(*plan, image_count),
            final(self).wf(),
    {
        proof {
            lemma_record(self.log@, self.fences@, GpuOp::WaitIdle, all_signaled());
        }
        self.out_of_date = false;
        self.surface_resolution = plan.extent;
        self.present_mode = plan.present_mode;
        self.image_count = image_count;
        self.fences = Ghost(all_signaled());
        self.log = Ghost(self.log@.push(GpuOp::WaitIdle));
    }
}

} // verus!
