//! The video session: the decode bridge and the consumer entry point.
//!
//! A session ties the three components together: the surface ring, the
//! context ownership monitor, and the render target manager. The decoder
//! thread drives the `on_*` methods from its lifecycle callbacks; the
//! display thread calls [`VideoSession::get_video_frame`] once per tick.
//! The caller wraps the session in one exclusive critical section (a plain
//! mutex), held only across these O(1) bookkeeping calls and never across
//! GPU work; within that discipline the ring's rotation guarantees the two
//! threads never touch the same surface, and the monitor guarantees only
//! one thread issues GPU calls on the shared context at a time.

use vstd::prelude::*;

use crate::context::ContextFault;
use crate::context::ContextMonitor;
use crate::context::ContextState;
use crate::ring::RingView;
use crate::ring::SurfaceRing;
use crate::ring::acquire_step;
use crate::ring::commit_step;
use crate::ring::ring_wf;
use crate::targets::OutputConfig;
use crate::targets::RenderTargetManager;
use crate::targets::ResizeDirective;
use crate::targets::SurfaceHandles;
use crate::targets::TargetPhase;
use crate::targets::TargetsView;
use crate::targets::fixed_config;
use crate::targets::fixed_output_config;
use crate::targets::install_step;
use crate::targets::resize_is_noop;
use crate::targets::resize_step;
use crate::targets::targets_wf;
use crate::targets::zero_handles;

verus! {

/// Why opening a media locator failed. Unlike the context faults, these are
/// recoverable: the session stays usable for another attempt.
#[derive(Clone, Copy, PartialEq, Eq, Structural, Debug)]
pub enum MediaError {
    /// The locator was rejected; no media object was created.
    MediaCreationFailed,
    /// The media object existed but no player could be built from it.
    PlayerCreationFailed,
}

/// The outcome a media-open attempt reports to the caller, from whether the
/// two underlying objects — the media and the player built from it — came
/// into being. Success is owed exactly when both did.
pub fn media_open_outcome(media_created: bool, player_created: bool) -> (r: Result<
    (),
    MediaError,
>)
    ensures
        r is Ok <==> media_created && player_created,
        !media_created ==> r == Err::<(), MediaError>(MediaError::MediaCreationFailed),
        media_created && !player_created ==> r == Err::<(), MediaError>(
            MediaError::PlayerCreationFailed,
        ),
{
    if !media_created {
        Err(MediaError::MediaCreationFailed)
    } else if !player_created {
        Err(MediaError::PlayerCreationFailed)
    } else {
        Ok(())
    }
}

/// One video session's shared state.
pub struct VideoSession {
    ring: SurfaceRing,
    monitor: ContextMonitor,
    targets: RenderTargetManager,
}

impl VideoSession {
    /// The ring's abstract state.
    pub closed spec fn ring_view(self) -> RingView {
        self.ring@
    }

    /// The context monitor's abstract state.
    pub closed spec fn ctx_state(self) -> ContextState {
        self.monitor@
    }

    /// The render target manager's abstract state.
    pub closed spec fn targets_view(self) -> TargetsView {
        self.targets@
    }

    /// Every session invariant at once: the ring is a permutation and the
    /// manager holds GPU names only while surfaces are live.
    pub open spec fn wf(self) -> bool {
        ring_wf(self.ring_view()) && targets_wf(self.targets_view())
    }

    /// A fresh session: ring at its initial assignment, context unbound,
    /// nothing allocated.
    pub fn new() -> (s: VideoSession)
        ensures
            s.wf(),
            s.ring_view() == (RingView { render: 0, pending: 1, display: 2, handoff: false }),
            s.ctx_state() is NotCurrent,
            s.targets_view() == (TargetsView {
                phase: TargetPhase::Empty,
                width: 0,
                height: 0,
                handles: zero_handles(),
            }),
    {
        VideoSession {
            ring: SurfaceRing::new(),
            monitor: ContextMonitor::new(),
            targets: RenderTargetManager::new(),
        }
    }

    /// Whether the shared context is currently bound. Teardown may drop the
    /// context only while it is not.
    pub fn is_context_current(&self) -> (b: bool)
        ensures
            b == (self.ctx_state() is Current),
    {
        self.monitor.is_current()
    }

    /// Whether three surfaces are live.
    pub fn surfaces_ready(&self) -> (b: bool)
        ensures
            b == (self.targets_view().phase is Ready),
    {
        self.targets.is_ready()
    }

    /// Whether a resize decision is waiting for its surfaces; only
    /// [`VideoSession::install_surfaces`] is legal then.
    pub fn awaiting_install(&self) -> (b: bool)
        ensures
            b == (self.targets_view().phase is Awaiting),
    {
        self.targets.is_awaiting()
    }

    /// The framebuffer of the surface currently in the `render` role — the
    /// one to bind before the producer draws. The zero name while no
    /// surfaces are live.
    pub fn render_framebuffer(&self) -> (fbo: u32)
        requires
            self.wf(),
        ensures
            fbo == self.targets_view().handles.spec_fbo(self.ring_view().render),
    {
        let idx = self.ring.render_index();
        self.targets.framebuffer_at(idx)
    }

    /// Decoder `setup` callback: a new stream begins. The negotiated
    /// dimensions are forgotten — so the stream's first resize always
    /// reallocates — and nothing else is recorded.
    pub fn on_setup(&mut self)
        requires
            old(self).wf(),
        ensures
            final(self).wf(),
            final(self).targets_view() == (TargetsView {
                width: 0,
                height: 0,
                ..old(self).targets_view()
            }),
            final(self).ring_view() == old(self).ring_view(),
            final(self).ctx_state() == old(self).ctx_state(),
    {
        self.targets.reset_dimensions();
    }

    /// Decoder context bind/unbind callback: `current` asks to bind the
    /// shared context to the decoder thread, `!current` to unbind it. An
    /// `Err` is a fatal contract violation — the transitions must strictly
    /// alternate — and leaves the session untouched.
    pub fn on_make_current(&mut self, current: bool) -> (r: Result<(), ContextFault>)
        requires
            old(self).wf(),
        ensures
            final(self).wf(),
            final(self).ring_view() == old(self).ring_view(),
            final(self).targets_view() == old(self).targets_view(),
            current ==> {
                &&& r is Ok <==> old(self).ctx_state() is NotCurrent
                &&& (r is Ok ==> final(self).ctx_state() is Current)
                &&& (r is Err ==> *final(self) == *old(self) && r == Err::<(), ContextFault>(
                    ContextFault::AlreadyCurrent,
                ))
            },
            !current ==> {
                &&& r is Ok <==> old(self).ctx_state() is Current
                &&& (r is Ok ==> final(self).ctx_state() is NotCurrent)
                &&& (r is Err ==> *final(self) == *old(self) && r == Err::<(), ContextFault>(
                    ContextFault::AlreadyNotCurrent,
                ))
            },
    {
        if current {
            self.monitor.acquire()
        } else {
            self.monitor.release()
        }
    }

    /// Decoder proc-address callback: grant the lookup — performed by the
    /// glue holding the real context — exactly while the context is bound
    /// to the decoder thread. An `Err` is a fatal contract violation.
    pub fn get_proc_address(&self) -> (r: Result<(), ContextFault>)
        ensures
            r is Ok <==> self.ctx_state() is Current,
            r is Err ==> r == Err::<(), ContextFault>(ContextFault::ResolveWhileNotCurrent),
    {
        self.monitor.resolve_proc_address()
    }

    /// Decoder resize callback. The context must already be bound — a
    /// resize while it is not is a fatal contract violation that changes
    /// nothing. Otherwise the render target manager takes the decision
    /// (release-then-reallocate on a dimension change, no-op on a repeat),
    /// and the fixed color metadata is reported back alongside it.
    pub fn on_resize(&mut self, width: u32, height: u32) -> (r: Result<
        (ResizeDirective, OutputConfig),
        ContextFault,
    >)
        requires
            old(self).wf(),
            old(self).targets_view().phase !is Awaiting,
            width >= 1,
            height >= 1,
        ensures
            final(self).wf(),
            final(self).ring_view() == old(self).ring_view(),
            final(self).ctx_state() == old(self).ctx_state(),
            r is Ok <==> old(self).ctx_state() is Current,
            r is Err ==> *final(self) == *old(self) && r == Err::<
                (ResizeDirective, OutputConfig),
                ContextFault,
            >(ContextFault::ResizeWhileNotCurrent),
            (r matches Ok((d, c)) ==> {
                &&& final(self).targets_view() == resize_step(
                    old(self).targets_view(),
                    width,
                    height,
                )
                &&& (d is AlreadySized <==> resize_is_noop(old(self).targets_view(), width, height))
                &&& (d matches ResizeDirective::Allocate { release } ==> {
                    &&& release is Some <==> old(self).targets_view().phase is Ready
                    &&& (release matches Some(h) ==> h == old(self).targets_view().handles)
                })
                &&& c == fixed_config()
            }),
    {
        if !self.monitor.is_current() {
            return Err(ContextFault::ResizeWhileNotCurrent);
        }
        let directive = self.targets.on_resize(width, height);
        Ok((directive, fixed_output_config()))
    }

    /// The caller allocated and validated the fresh surfaces a resize asked
    /// for; record their names. Returns the framebuffer of the surface in
    /// the `render` role, which the caller must bind so the producer can
    /// continue immediately.
    pub fn install_surfaces(&mut self, handles: SurfaceHandles) -> (bind_fbo: u32)
        requires
            old(self).wf(),
            old(self).targets_view().phase is Awaiting,
        ensures
            final(self).wf(),
            final(self).ring_view() == old(self).ring_view(),
            final(self).ctx_state() == old(self).ctx_state(),
            final(self).targets_view() == install_step(old(self).targets_view(), handles),
            bind_fbo == handles.spec_fbo(old(self).ring_view().render),
    {
        self.targets.install_surfaces(handles);
        let idx = self.ring.render_index();
        self.targets.framebuffer_at(idx)
    }

    /// Decoder frame-complete callback: the producer finished a frame.
    /// Hands the surface over through the ring and returns the framebuffer
    /// of the next render surface, which the caller must bind for the
    /// producer's next frame. While no surfaces are live the returned name
    /// is zero — "unbind".
    pub fn on_swap(&mut self) -> (bind_fbo: u32)
        requires
            old(self).wf(),
        ensures
            final(self).wf(),
            final(self).ring_view() == commit_step(old(self).ring_view()),
            final(self).targets_view() == old(self).targets_view(),
            final(self).ctx_state() == old(self).ctx_state(),
            bind_fbo == old(self).targets_view().handles.spec_fbo(final(self).ring_view().render),
    {
        self.ring.producer_commit();
        let idx = self.ring.render_index();
        self.targets.framebuffer_at(idx)
    }

    /// Decoder cleanup callback, also run at session teardown: hand the
    /// live surfaces back for deletion, or `None` when nothing is allocated
    /// — teardown proceeds either way.
    pub fn on_cleanup(&mut self) -> (freed: Option<SurfaceHandles>)
        requires
            old(self).wf(),
        ensures
            final(self).wf(),
            final(self).ring_view() == old(self).ring_view(),
            final(self).ctx_state() == old(self).ctx_state(),
            freed is Some <==> old(self).targets_view().phase is Ready,
            (freed matches Some(h) ==> h == old(self).targets_view().handles),
            final(self).targets_view() == (TargetsView {
                phase: TargetPhase::Empty,
                handles: zero_handles(),
                ..old(self).targets_view()
            }),
    {
        self.targets.on_cleanup()
    }

    /// Consumer entry point, called once per display tick: claim the newest
    /// completed frame if one is waiting, report through `update` whether
    /// the displayed surface changed, and return the texture of the surface
    /// now in the `display` role. When no frame has ever been committed the
    /// texture is the zero name — "no frame yet", a normal steady state.
    pub fn get_video_frame(&mut self, update: &mut bool) -> (tex: u32)
        requires
            old(self).wf(),
        ensures
            final(self).wf(),
            *final(update) == old(self).ring_view().handoff,
            final(self).ring_view() == acquire_step(old(self).ring_view()),
            final(self).targets_view() == old(self).targets_view(),
            final(self).ctx_state() == old(self).ctx_state(),
            tex == final(self).targets_view().handles.spec_tex(final(self).ring_view().display),
    {
        let changed = self.ring.consumer_acquire();
        *update = changed;
        let idx = self.ring.display_index();
        self.targets.texture_at(idx)
    }
}

} // verus!
