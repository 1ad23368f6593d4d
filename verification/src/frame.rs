//! The render thread's command loop.
//!
//! The renderer runs on a dedicated worker thread and consumes a serial
//! stream of commands from the window thread. This module holds the
//! loop's state and every decision it makes; the driver calls — acquiring
//! an image, submitting work, presenting, building a swapchain — are
//! performed outside and their outcomes fed back in. Each handler's
//! contract is a step relation, so ordering properties across several
//! commands can be stated and proved of the relations themselves.

use vstd::prelude::*;

use crate::canvas::CanvasBuffersManager;
use crate::error::RendererError;
use crate::swapchain::RenderTargets;
use crate::swapchain::SwapchainParams;
use crate::swapchain::SwapchainPlan;
use crate::swapchain::SwapchainState;
use crate::swapchain::plan_swapchain_change;

verus! {

/// A command that can be sent to the main render thread.
#[derive(Debug, Clone, Copy, PartialEq, Eq, Structural)]
pub enum RenderCommand {
    Redraw,
    /// The window was resized to this width and height in physical pixels.
    WindowResized(u32, u32),
    /// The renderer should shut down gracefully.
    Shutdown,
    CanvasSettingsChanged,
    CanvasIndicesChanged,
}

/// What one blocking receive on the command channel produced.
#[derive(Debug, Clone, Copy, PartialEq, Eq, Structural)]
pub enum ChannelEvent {
    Received(RenderCommand),
    /// The sending side is gone; the loop must exit with an error.
    Disconnected,
}

/// What the loop asks its driver to do after a command.
#[derive(Debug, Clone, Copy, PartialEq, Eq)]
pub enum FrameDirective {
    /// Nothing to do; wait for the next command.
    Idle,
    /// Acquire the next swapchain image and report the outcome.
    Acquire,
    /// Change the swapchain as planned and report what was built.
    ReshapeSwapchain(SwapchainPlan),
    /// Submit the canvas transfer command buffer on the transfer queue,
    /// signalling the transfer semaphore.
    SubmitTransfer,
    /// Canvas data changed while no swapchain exists; log and carry on.
    WarnNoSwapchain,
    /// Leave the loop with this result.
    Exit(Result<(), RendererError>),
}

/// How an attempt to acquire the next swapchain image ended.
#[derive(Debug, Clone, Copy, PartialEq, Eq, Structural)]
pub enum AcquireOutcome {
    Success { image_index: usize, suboptimal: bool },
    /// The swapchain no longer matches the surface; the frame is skipped
    /// and retried on the next redraw.
    OutOfDate,
    /// Any other acquire failure is fatal.
    Fatal(RendererError),
}

/// What the loop asks its driver to do after an acquire.
#[derive(Debug, Clone, Copy, PartialEq, Eq, Structural)]
pub enum AcquireDirective {
    /// Skip this frame; a later redraw will retry.
    SkipFrame,
    /// Execute the image's draw command buffer after the acquire
    /// semaphore — and after the transfer semaphore when a canvas
    /// transfer is pending — then present the image.
    Submit { image_index: usize, wait_for_transfer: bool },
    /// Propagate this error out of the loop.
    Abort(RendererError),
}

/// The render loop's state: the swapchain-dependent resources, if any,
/// the canvas buffers, and whether a canvas transfer was submitted that
/// the next draw submission must wait for.
pub struct FrameLoop {
    pub targets: Option<RenderTargets>,
    pub canvas: CanvasBuffersManager,
    pub pending_transfer: bool,
}

/// The step relation of a `Redraw` command: a frame is attempted exactly
/// when a swapchain exists, and the state does not change.
pub open spec fn redraw_step(s: FrameLoop, d: FrameDirective) -> bool {
    &&& (d is Acquire <==> s.targets is Some)
    &&& (d is Idle <==> s.targets is None)
}

/// The step relation of a canvas-change command: with a swapchain
/// present, the transfer is submitted, the device copies take the host
/// snapshot, and the transfer semaphore is left pending for the next
/// draw; without one, the command is only logged. Host data never
/// changes.
pub open spec fn canvas_changed_step(pre: FrameLoop, post: FrameLoop, d: FrameDirective) -> bool {
    &&& post.targets == pre.targets
    &&& post.canvas.host_settings == pre.canvas.host_settings
    &&& post.canvas.host_indices@ == pre.canvas.host_indices@
    &&& if pre.targets is Some {
        &&& d is SubmitTransfer
        &&& post.pending_transfer
        &&& post.canvas.device_settings == pre.canvas.host_settings
        &&& post.canvas.device_indices@ == pre.canvas.host_indices@
    } else {
        &&& d is WarnNoSwapchain
        &&& post == pre
    }
}

/// The step relation of an acquire outcome: out-of-date skips the frame,
/// any other failure aborts with its error, and success submits the
/// matching draw command buffer, consuming the pending transfer
/// semaphore. The canvas and the targets never change here.
pub open spec fn acquire_step(
    pre: FrameLoop,
    outcome: AcquireOutcome,
    post: FrameLoop,
    d: AcquireDirective,
) -> bool {
    &&& post.targets == pre.targets
    &&& post.canvas == pre.canvas
    &&& match outcome {
        AcquireOutcome::OutOfDate => post == pre && d is SkipFrame,
        AcquireOutcome::Fatal(e) => post == pre && d == AcquireDirective::Abort(e),
        AcquireOutcome::Success { image_index, suboptimal } => d == (AcquireDirective::Submit {
            image_index,
            wait_for_transfer: pre.pending_transfer,
        }) && !post.pending_transfer,
    }
}

/// The step relation of a resize plan: a zero-area window tears the
/// swapchain down, a first nonzero size creates one from scratch, and a
/// live swapchain is recreated keeping its format as a parent.
pub open spec fn resize_plan_step(
    s: FrameLoop,
    width: u32,
    height: u32,
    p: SwapchainPlan,
) -> bool {
    &&& (p is Destroy <==> width == 0 || height == 0)
    &&& (s.targets is None && width > 0 && height > 0 ==> p == (SwapchainPlan::CreateFresh {
        width,
        height,
    }))
    &&& (s.targets matches Some(t) ==> width > 0 && height > 0 ==> p == (SwapchainPlan::Recreate {
        width,
        height,
        old_format: t.swapchain.format,
    }))
}

/// The step relation of adopting what the driver built: nothing besides
/// the targets moves, a torn-down swapchain leaves none, and a built one
/// installs well-formed targets whose render pass is rebuilt exactly when
/// the image format changed.
pub open spec fn swapchain_built_step(
    pre: FrameLoop,
    built: Option<SwapchainParams>,
    post: FrameLoop,
) -> bool {
    &&& post.canvas == pre.canvas
    &&& post.pending_transfer == pre.pending_transfer
    &&& match built {
        None => post.targets is None,
        Some(p) => {
            &&& post.targets matches Some(t)
            &&& (post.targets matches Some(t) ==> {
                &&& t.wf()
                &&& t.swapchain == p
                &&& match pre.targets {
                    None => t.render_pass_generation == 0,
                    Some(ot) => if p.format == ot.swapchain.format {
                        t.render_pass_generation == ot.render_pass_generation
                    } else {
                        t.render_pass_generation == ot.render_pass_generation + 1
                    },
                }
            })
        },
    }
}

impl FrameLoop {
    /// The canvas buffers are consistent and any installed targets are
    /// well formed.
    pub open spec fn wf(&self) -> bool {
        &&& self.canvas.wf()
        &&& (self.targets matches Some(t) ==> t.wf())
    }

    /// Starts the loop before any swapchain exists.
    pub fn new(canvas: CanvasBuffersManager) -> (s: FrameLoop)
        requires
            canvas.wf(),
        ensures
            s.wf(),
            s.targets is None,
            !s.pending_transfer,
            s.canvas == canvas,
    {
        FrameLoop { targets: None, canvas, pending_transfer: false }
    }

    /// Handles `Redraw`: attempt a frame only when a swapchain exists.
    pub fn on_redraw(&self) -> (d: FrameDirective)
        ensures
            redraw_step(*self, d),
    {
        match &self.targets {
            Some(_) => FrameDirective::Acquire,
            None => FrameDirective::Idle,
        }
    }

    /// Handles the outcome of acquiring the next image.
    pub fn on_acquire_outcome(&mut self, outcome: AcquireOutcome) -> (d: AcquireDirective)
        requires
            old(self).wf(),
            old(self).targets is Some,
            outcome matches AcquireOutcome::Success { image_index, .. } ==> (old(
                self,
            ).targets matches Some(t) && image_index < t.framebuffer_count),
        ensures
            final(self).wf(),
            acquire_step(*old(self), outcome, *final(self), d),
    {
        match outcome {
            AcquireOutcome::OutOfDate => AcquireDirective::SkipFrame,
            AcquireOutcome::Fatal(e) => AcquireDirective::Abort(e),
            AcquireOutcome::Success { image_index, suboptimal: _ } => {
                let wait_for_transfer = self.pending_transfer;
                self.pending_transfer = false;
                AcquireDirective::Submit { image_index, wait_for_transfer }
            },
        }
    }

    /// Handles the result of the submit-and-present: a failure there
    /// means the swapchain went stale under the submission, which is
    /// logged and retried on the next redraw rather than fatal.
    pub fn on_present_result(&self, presented: bool) -> (retry: bool)
        ensures
            retry == !presented,
    {
        !presented
    }

    /// Handles `WindowResized`: plans the swapchain's fate for the new
    /// size; the driver performs the plan and reports through
    /// `apply_swapchain_result`.
    pub fn on_window_resized(&self, width: u32, height: u32) -> (p: SwapchainPlan)
        ensures
            resize_plan_step(*self, width, height, p),
    {
        let state = match &self.targets {
            None => SwapchainState::Absent,
            Some(t) => SwapchainState::Active(t.swapchain),
        };
        plan_swapchain_change(&state, width, height)
    }

    /// Adopts the driver's answer to a swapchain plan: `None` after a
    /// teardown or zero-area creation, or the parameters actually built.
    /// Dependent resources follow `RenderTargets::adopt`: the render pass
    /// is reused whenever the format is unchanged.
    pub fn apply_swapchain_result(&mut self, built: Option<SwapchainParams>)
        requires
            old(self).wf(),
            old(self).targets matches Some(t) ==> t.render_pass_generation < u64::MAX,
        ensures
            final(self).wf(),
            swapchain_built_step(*old(self), built, *final(self)),
    {
        match built {
            None => {
                self.targets = None;
            },
            Some(p) => {
                let new_targets = match &self.targets {
                    None => RenderTargets::create(p),
                    Some(ot) => ot.adopt(p),
                };
                self.targets = Some(new_targets);
            },
        }
    }

    /// Handles `CanvasSettingsChanged` and `CanvasIndicesChanged`: with a
    /// swapchain present, submits the transfer — the device buffers take
    /// the host snapshot and the transfer semaphore is chained into the
    /// next draw submission; with none, only warns.
    pub fn on_canvas_changed(&mut self) -> (d: FrameDirective)
        requires
            old(self).wf(),
        ensures
            final(self).wf(),
            canvas_changed_step(*old(self), *final(self), d),
    {
        match &self.targets {
            Some(_) => {
                self.canvas.apply_transfer();
                self.pending_transfer = true;
                FrameDirective::SubmitTransfer
            },
            None => FrameDirective::WarnNoSwapchain,
        }
    }

    /// One turn of the loop: dispatches whatever the command channel
    /// produced to the handler above, exiting cleanly on `Shutdown` and
    /// fatally when the channel died.
    pub fn on_channel_event(&mut self, ev: ChannelEvent) -> (d: FrameDirective)
        requires
            old(self).wf(),
        ensures
            final(self).wf(),
            ev == ChannelEvent::Disconnected ==> d == FrameDirective::Exit(
                Err::<(), RendererError>(RendererError::RecvErr),
            ) && *final(self) == *old(self),
            ev matches ChannelEvent::Received(cmd) ==> match cmd {
                RenderCommand::Redraw => redraw_step(*old(self), d) && *final(self) == *old(self),
                RenderCommand::WindowResized(w, h) => *final(self) == *old(self) && (
                d matches FrameDirective::ReshapeSwapchain(p) && resize_plan_step(
                    *old(self),
                    w,
                    h,
                    p,
                )),
                RenderCommand::Shutdown => d == FrameDirective::Exit(
                    Ok::<(), RendererError>(()),
                ) && *final(self) == *old(self),
                RenderCommand::CanvasSettingsChanged => canvas_changed_step(
                    *old(self),
                    *final(self),
                    d,
                ),
                RenderCommand::CanvasIndicesChanged => canvas_changed_step(
                    *old(self),
                    *final(self),
                    d,
                ),
            },
    {
        match ev {
            ChannelEvent::Disconnected => FrameDirective::Exit(Err(RendererError::RecvErr)),
            ChannelEvent::Received(cmd) => match cmd {
                RenderCommand::Redraw => self.on_redraw(),
                RenderCommand::WindowResized(w, h) => FrameDirective::ReshapeSwapchain(
                    self.on_window_resized(w, h),
                ),
                RenderCommand::Shutdown => FrameDirective::Exit(Ok(())),
                RenderCommand::CanvasSettingsChanged => self.on_canvas_changed(),
                RenderCommand::CanvasIndicesChanged => self.on_canvas_changed(),
            },
        }
    }
}

/// A window that regains a nonzero area and then redraws always gets a
/// frame attempt: the resize plans a creation or recreation rather than a
/// teardown, adopting the driver's successful build installs a swapchain,
/// and the following redraw acquires an image. Every way the attempt can
/// then end is a presented frame, a structured error, or an out-of-date
/// skip retried on the next redraw.
pub proof fn lemma_resize_then_redraw_attempts_frame(
    s0: FrameLoop,
    width: u32,
    height: u32,
    plan: SwapchainPlan,
    built: SwapchainParams,
    s1: FrameLoop,
    d: FrameDirective,
)
    requires
        width > 0,
        height > 0,
        resize_plan_step(s0, width, height, plan),
        swapchain_built_step(s0, Some(built), s1),
        redraw_step(s1, d),
    ensures
        !(plan is Destroy),
        d is Acquire,
{
}

/// A canvas change signalled before a redraw is visible to that redraw's
/// draw call: the submission for the acquired image waits on the transfer
/// semaphore, and the device buffers it draws from hold exactly the host
/// canvas as it stood when the change was signalled.
pub proof fn lemma_canvas_change_visible_to_redraw(
    s0: FrameLoop,
    s1: FrameLoop,
    d1: FrameDirective,
    d2: FrameDirective,
    outcome_index: usize,
    outcome_suboptimal: bool,
    s2: FrameLoop,
    d3: AcquireDirective,
)
    requires
        s0.targets is Some,
        canvas_changed_step(s0, s1, d1),
        redraw_step(s1, d2),
        acquire_step(
            s1,
            AcquireOutcome::Success { image_index: outcome_index, suboptimal: outcome_suboptimal },
            s2,
            d3,
        ),
    ensures
        d2 is Acquire,
        d3 == (AcquireDirective::Submit { image_index: outcome_index, wait_for_transfer: true }),
        s2.canvas.device_settings == s0.canvas.host_settings,
        s2.canvas.device_indices@ == s0.canvas.host_indices@,
{
}

} // verus!
