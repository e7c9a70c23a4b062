//! The render target manager: keeps the three GPU surfaces sized to the
//! incoming frames.
//!
//! A surface is a texture handle plus the off-screen framebuffer bound to
//! it; the two are always allocated and freed together, three pairs at a
//! time. The allocation calls themselves are GPU work done by the caller's
//! glue; the manager decides when they happen. A resize to new dimensions
//! first releases the live surfaces, then asks the caller to allocate three
//! fresh pairs at the new size (32-bit RGBA, linear filtering,
//! clamp-to-edge) and hand their names back; a resize to the dimensions
//! already live is a no-op. Color metadata is not negotiated: the manager
//! reports one fixed supported configuration on every resize.

use vstd::prelude::*;

verus! {

/// The GPU names of the three texture/framebuffer pairs. All zero while no
/// surfaces are live, mirroring the GPU convention that zero is "no
/// object".
#[derive(Clone, Copy, PartialEq, Eq, Structural, Debug)]
pub struct SurfaceHandles {
    pub tex0: u32,
    pub tex1: u32,
    pub tex2: u32,
    pub fbo0: u32,
    pub fbo1: u32,
    pub fbo2: u32,
}

/// The all-zero handle set: no surfaces live.
pub open spec fn zero_handles() -> SurfaceHandles {
    SurfaceHandles { tex0: 0, tex1: 0, tex2: 0, fbo0: 0, fbo1: 0, fbo2: 0 }
}

impl SurfaceHandles {
    /// The texture name of surface `i`.
    pub open spec fn spec_tex(self, i: int) -> u32 {
        if i == 0 {
            self.tex0
        } else if i == 1 {
            self.tex1
        } else {
            self.tex2
        }
    }

    /// The framebuffer name of surface `i`.
    pub open spec fn spec_fbo(self, i: int) -> u32 {
        if i == 0 {
            self.fbo0
        } else if i == 1 {
            self.fbo1
        } else {
            self.fbo2
        }
    }

    /// All six names zero: nothing allocated.
    pub fn zeroed() -> (h: SurfaceHandles)
        ensures
            h == zero_handles(),
    {
        SurfaceHandles { tex0: 0, tex1: 0, tex2: 0, fbo0: 0, fbo1: 0, fbo2: 0 }
    }

    /// The texture name of surface `i`.
    pub fn tex(&self, i: usize) -> (t: u32)
        requires
            i < 3,
        ensures
            t == self.spec_tex(i as int),
    {
        if i == 0 {
            self.tex0
        } else if i == 1 {
            self.tex1
        } else {
            self.tex2
        }
    }

    /// The framebuffer name of surface `i`.
    pub fn fbo(&self, i: usize) -> (f: u32)
        requires
            i < 3,
        ensures
            f == self.spec_fbo(i as int),
    {
        if i == 0 {
            self.fbo0
        } else if i == 1 {
            self.fbo1
        } else {
            self.fbo2
        }
    }
}

/// Where the manager stands in the allocation cycle.
#[derive(Clone, Copy, PartialEq, Eq, Structural, Debug)]
pub enum TargetPhase {
    /// No surfaces live.
    Empty,
    /// A resize decided to reallocate; the old surfaces are gone and the
    /// caller has been asked to allocate fresh ones and install them.
    Awaiting,
    /// Three surfaces are live at the recorded dimensions.
    Ready,
}

/// The abstract state of the manager.
pub struct TargetsView {
    pub phase: TargetPhase,
    pub width: u32,
    pub height: u32,
    pub handles: SurfaceHandles,
}

/// While no surfaces are live, the manager holds no GPU names.
pub open spec fn targets_wf(v: TargetsView) -> bool {
    v.phase !is Ready ==> v.handles == zero_handles()
}

/// A resize changes nothing exactly when three surfaces are already live at
/// the requested dimensions.
pub open spec fn resize_is_noop(v: TargetsView, width: u32, height: u32) -> bool {
    v.phase is Ready && v.width == width && v.height == height
}

/// The manager state after a resize decision: either untouched, or awaiting
/// fresh surfaces at the new dimensions.
pub open spec fn resize_step(v: TargetsView, width: u32, height: u32) -> TargetsView {
    if resize_is_noop(v, width, height) {
        v
    } else {
        TargetsView { phase: TargetPhase::Awaiting, width, height, handles: zero_handles() }
    }
}

/// The manager state after the caller installs freshly allocated surfaces.
pub open spec fn install_step(v: TargetsView, handles: SurfaceHandles) -> TargetsView {
    TargetsView { phase: TargetPhase::Ready, handles, ..v }
}

/// Law: resizing is idempotent. Whatever state the manager was in, once a
/// resize to `(width, height)` has run and its surfaces are installed,
/// every further resize to the same `(width, height)` is a no-op — it
/// triggers no release and no new allocation and leaves the state exactly
/// as it was.
pub proof fn lemma_resize_idempotent(
    v: TargetsView,
    width: u32,
    height: u32,
    handles: SurfaceHandles,
)
    ensures
        ({
            let ready = install_step(resize_step(v, width, height), handles);
            &&& resize_is_noop(ready, width, height)
            &&& resize_step(ready, width, height) == ready
        }),
{
}

/// What a resize asks its caller to do on the GPU.
#[derive(Clone, Copy, PartialEq, Eq, Debug)]
pub enum ResizeDirective {
    /// The live surfaces already match the requested dimensions: do
    /// nothing.
    AlreadySized,
    /// Delete the `release`d handles if any, allocate three fresh
    /// texture/framebuffer pairs at the recorded dimensions, validate
    /// target completeness (a failure there is fatal, not retried), and
    /// install the new handles.
    Allocate { release: Option<SurfaceHandles> },
}

/// A color space the decoder may be told to produce.
#[derive(Clone, Copy, PartialEq, Eq, Structural, Debug)]
pub enum ColorSpace {
    Bt601,
    Bt709,
    Bt2020,
}

/// Color primaries the decoder may be told to produce.
#[derive(Clone, Copy, PartialEq, Eq, Structural, Debug)]
pub enum ColorPrimaries {
    Bt601,
    Bt709,
    Bt2020,
}

/// A transfer function the decoder may be told to produce.
#[derive(Clone, Copy, PartialEq, Eq, Structural, Debug)]
pub enum TransferFunction {
    Linear,
    Srgb,
    Bt709,
}

/// A frame orientation the decoder may be told to produce.
#[derive(Clone, Copy, PartialEq, Eq, Structural, Debug)]
pub enum Orientation {
    TopLeft,
    TopRight,
    BottomLeft,
    BottomRight,
}

/// A pixel layout for the decoded frames.
#[derive(Clone, Copy, PartialEq, Eq, Structural, Debug)]
pub enum PixelFormat {
    Rgba8,
    Bgra8,
}

/// The format and color metadata reported back to the decoder on a resize.
#[derive(Clone, Copy, PartialEq, Eq, Structural, Debug)]
pub struct OutputConfig {
    pub format: PixelFormat,
    pub colorspace: ColorSpace,
    pub primaries: ColorPrimaries,
    pub transfer: TransferFunction,
    pub orientation: Orientation,
}

/// The one configuration this pipeline supports: 32-bit RGBA frames, BT.709
/// color space and primaries, sRGB transfer, top-left orientation.
pub open spec fn fixed_config() -> OutputConfig {
    OutputConfig {
        format: PixelFormat::Rgba8,
        colorspace: ColorSpace::Bt709,
        primaries: ColorPrimaries::Bt709,
        transfer: TransferFunction::Srgb,
        orientation: Orientation::TopLeft,
    }
}

/// The fixed supported configuration, reported back to the decoder on
/// every resize; nothing is negotiated.
pub fn fixed_output_config() -> (c: OutputConfig)
    ensures
        c == fixed_config(),
{
    OutputConfig {
        format: PixelFormat::Rgba8,
        colorspace: ColorSpace::Bt709,
        primaries: ColorPrimaries::Bt709,
        transfer: TransferFunction::Srgb,
        orientation: Orientation::TopLeft,
    }
}

/// The manager itself: the last negotiated dimensions, the allocation
/// phase, and the GPU names of the live surfaces.
pub struct RenderTargetManager {
    width: u32,
    height: u32,
    phase: TargetPhase,
    handles: SurfaceHandles,
}

impl View for RenderTargetManager {
    type V = TargetsView;

    closed spec fn view(&self) -> TargetsView {
        TargetsView {
            phase: self.phase,
            width: self.width,
            height: self.height,
            handles: self.handles,
        }
    }
}

impl RenderTargetManager {
    /// A fresh manager: nothing allocated, dimensions zero.
    pub fn new() -> (m: RenderTargetManager)
        ensures
            targets_wf(m@),
            m@ == (TargetsView {
                phase: TargetPhase::Empty,
                width: 0,
                height: 0,
                handles: zero_handles(),
            }),
    {
        RenderTargetManager {
            width: 0,
            height: 0,
            phase: TargetPhase::Empty,
            handles: SurfaceHandles::zeroed(),
        }
    }

    /// Whether three surfaces are live.
    pub fn is_ready(&self) -> (b: bool)
        ensures
            b == (self@.phase is Ready),
    {
        matches!(self.phase, TargetPhase::Ready)
    }

    /// Whether a resize decision is waiting for fresh surfaces.
    pub fn is_awaiting(&self) -> (b: bool)
        ensures
            b == (self@.phase is Awaiting),
    {
        matches!(self.phase, TargetPhase::Awaiting)
    }

    /// The last negotiated frame dimensions, width then height.
    pub fn dimensions(&self) -> (d: (u32, u32))
        ensures
            d.0 == self@.width,
            d.1 == self@.height,
    {
        (self.width, self.height)
    }

    /// The texture name of surface `i`.
    pub fn texture_at(&self, i: usize) -> (t: u32)
        requires
            i < 3,
        ensures
            t == self@.handles.spec_tex(i as int),
    {
        self.handles.tex(i)
    }

    /// The framebuffer name of surface `i`.
    pub fn framebuffer_at(&self, i: usize) -> (f: u32)
        requires
            i < 3,
        ensures
            f == self@.handles.spec_fbo(i as int),
    {
        self.handles.fbo(i)
    }

    /// Decoder setup: forget the negotiated dimensions and nothing else, so
    /// that the first resize of the new stream always reallocates.
    pub fn reset_dimensions(&mut self)
        requires
            targets_wf(old(self)@),
        ensures
            targets_wf(final(self)@),
            final(self)@ == (TargetsView { width: 0, height: 0, ..old(self)@ }),
    {
        self.width = 0;
        self.height = 0;
    }

    /// A new frame size arrived. If three surfaces are already live at
    /// exactly these dimensions this is a no-op; otherwise the live
    /// surfaces (if any) are handed back for release, the new dimensions
    /// are recorded, and the caller must allocate fresh surfaces and
    /// install them before anything else. A frame has at least one pixel,
    /// so zero dimensions — which mean "nothing allocated" — are never
    /// requested.
    pub fn on_resize(&mut self, width: u32, height: u32) -> (d: ResizeDirective)
        requires
            targets_wf(old(self)@),
            old(self)@.phase !is Awaiting,
            width >= 1,
            height >= 1,
        ensures
            targets_wf(final(self)@),
            final(self)@ == resize_step(old(self)@, width, height),
            d is AlreadySized <==> resize_is_noop(old(self)@, width, height),
            (d matches ResizeDirective::Allocate { release } ==> {
                &&& release is Some <==> old(self)@.phase is Ready
                &&& (release matches Some(h) ==> h == old(self)@.handles)
            }),
    {
        if matches!(self.phase, TargetPhase::Ready) && self.width == width && self.height
            == height {
            ResizeDirective::AlreadySized
        } else {
            let release = if matches!(self.phase, TargetPhase::Ready) {
                Some(self.handles)
            } else {
                None
            };
            self.width = width;
            self.height = height;
            self.phase = TargetPhase::Awaiting;
            self.handles = SurfaceHandles::zeroed();
            ResizeDirective::Allocate { release }
        }
    }

    /// The caller allocated three fresh texture/framebuffer pairs at the
    /// recorded dimensions and validated them; record their names. Legal
    /// only directly after a resize that asked for an allocation.
    pub fn install_surfaces(&mut self, handles: SurfaceHandles)
        requires
            targets_wf(old(self)@),
            old(self)@.phase is Awaiting,
        ensures
            targets_wf(final(self)@),
            final(self)@ == install_step(old(self)@, handles),
    {
        self.phase = TargetPhase::Ready;
        self.handles = handles;
    }

    /// Session teardown or pre-resize release: hand the live surfaces back
    /// for deletion. A no-op — `None` — when nothing is allocated; the
    /// negotiated dimensions are kept, as only a resize or a setup changes
    /// them.
    pub fn on_cleanup(&mut self) -> (freed: Option<SurfaceHandles>)
        requires
            targets_wf(old(self)@),
        ensures
            targets_wf(final(self)@),
            freed is Some <==> old(self)@.phase is Ready,
            (freed matches Some(h) ==> h == old(self)@.handles),
            final(self)@ == (TargetsView {
                phase: TargetPhase::Empty,
                handles: zero_handles(),
                ..old(self)@
            }),
    {
        let freed = if matches!(self.phase, TargetPhase::Ready) {
            Some(self.handles)
        } else {
            None
        };
        self.phase = TargetPhase::Empty;
        self.handles = SurfaceHandles::zeroed();
        freed
    }
}

} // verus!
