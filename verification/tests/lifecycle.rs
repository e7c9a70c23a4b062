//! Whole-session scenarios: context ownership, resize and reallocation,
//! frame delivery, media-open outcomes, and the UI flow decisions.

use neovideo::context::ContextFault;
use neovideo::session::MediaError;
use neovideo::session::VideoSession;
use neovideo::session::media_open_outcome;
use neovideo::targets::ColorPrimaries;
use neovideo::targets::ColorSpace;
use neovideo::targets::Orientation;
use neovideo::targets::PixelFormat;
use neovideo::targets::ResizeDirective;
use neovideo::targets::SurfaceHandles;
use neovideo::targets::TransferFunction;
use neovideo::targets::fixed_output_config;
use neovideo::ui::AppState;
use neovideo::ui::FlowDirective;
use neovideo::ui::NeovideoApp;
use neovideo::ui::next_control_flow;

fn handles(base: u32) -> SurfaceHandles {
    SurfaceHandles {
        tex0: base,
        tex1: base + 1,
        tex2: base + 2,
        fbo0: base + 10,
        fbo1: base + 11,
        fbo2: base + 12,
    }
}

/// Binds the context and brings three surfaces up at the given size,
/// counting how many allocations the directives asked for.
fn session_with_surfaces(w: u32, h: u32, base: u32) -> (VideoSession, u32) {
    let mut s = VideoSession::new();
    assert!(s.on_make_current(true).is_ok());
    let mut allocations = 0u32;
    let (directive, _) = s.on_resize(w, h).unwrap();
    match directive {
        ResizeDirective::AlreadySized => {}
        ResizeDirective::Allocate { release } => {
            assert!(release.is_none());
            allocations += 1;
            s.install_surfaces(handles(base));
        }
    }
    (s, allocations)
}

#[test]
fn fresh_session_three_commits_one_acquire() {
    let (mut s, _) = session_with_surfaces(1920, 1080, 100);
    // The producer starts on surface 0 (fbo 110).
    // Commit 1 publishes surface 0, commit 2 surface 1, commit 3 surface 0.
    let b1 = s.on_swap();
    let b2 = s.on_swap();
    let b3 = s.on_swap();
    assert_eq!(b1, 111);
    assert_eq!(b2, 110);
    assert_eq!(b3, 111);
    let mut update = false;
    let tex = s.get_video_frame(&mut update);
    assert!(update);
    // The displayed surface is the one the third commit filled — surface 0;
    // the first two frames were discarded, not queued.
    assert_eq!(tex, 100);
    // No second frame is waiting.
    let tex_again = s.get_video_frame(&mut update);
    assert!(!update);
    assert_eq!(tex_again, 100);
}

#[test]
fn no_frame_yet_is_a_steady_state() {
    let mut s = VideoSession::new();
    let mut update = true;
    let tex = s.get_video_frame(&mut update);
    assert!(!update);
    // Nothing allocated: the display surface's name is the zero object.
    assert_eq!(tex, 0);
}

#[test]
fn swap_with_no_surfaces_binds_the_zero_name() {
    let mut s = VideoSession::new();
    assert_eq!(s.on_swap(), 0);
}

#[test]
fn double_acquire_is_a_fatal_violation() {
    let mut s = VideoSession::new();
    assert_eq!(s.on_make_current(true), Ok(()));
    assert_eq!(s.on_make_current(true), Err(ContextFault::AlreadyCurrent));
    // The monitor was left untouched: a release still works.
    assert_eq!(s.on_make_current(false), Ok(()));
}

#[test]
fn release_out_of_turn_is_a_fatal_violation() {
    let mut s = VideoSession::new();
    assert_eq!(s.on_make_current(false), Err(ContextFault::AlreadyNotCurrent));
}

#[test]
fn proc_address_needs_a_current_context() {
    let mut s = VideoSession::new();
    assert_eq!(s.get_proc_address(), Err(ContextFault::ResolveWhileNotCurrent));
    assert!(s.on_make_current(true).is_ok());
    assert_eq!(s.get_proc_address(), Ok(()));
}

#[test]
fn resize_needs_a_current_context() {
    let mut s = VideoSession::new();
    assert_eq!(s.on_resize(640, 480), Err(ContextFault::ResizeWhileNotCurrent));
    assert!(!s.surfaces_ready());
}

#[test]
fn teardown_waits_for_release() {
    let mut s = VideoSession::new();
    assert!(s.on_make_current(true).is_ok());
    assert!(s.is_context_current());
    assert!(s.on_make_current(false).is_ok());
    assert!(!s.is_context_current());
}

#[test]
fn repeated_resize_to_same_size_allocates_once() {
    let (mut s, mut allocations) = session_with_surfaces(1280, 720, 100);
    for _ in 0..3 {
        let (directive, _) = s.on_resize(1280, 720).unwrap();
        match directive {
            ResizeDirective::AlreadySized => {}
            ResizeDirective::Allocate { .. } => {
                allocations += 1;
            }
        }
    }
    assert_eq!(allocations, 1);
    assert!(s.surfaces_ready());
}

#[test]
fn resize_to_new_size_releases_once_and_reallocates() {
    let (mut s, _) = session_with_surfaces(640, 480, 100);
    let (directive, _) = s.on_resize(1280, 720).unwrap();
    match directive {
        ResizeDirective::AlreadySized => panic!("a dimension change must reallocate"),
        ResizeDirective::Allocate { release } => {
            // Exactly the first three surfaces come back for release,
            // exactly once, between the two allocations.
            assert_eq!(release, Some(handles(100)));
            s.install_surfaces(handles(200));
        }
    }
    assert!(s.surfaces_ready());
    // The three live surfaces are the newly installed ones.
    let mut update = false;
    s.on_swap();
    let tex = s.get_video_frame(&mut update);
    assert!(update);
    assert_eq!(tex, 200);
}

#[test]
fn setup_forgets_the_negotiated_size() {
    let (mut s, _) = session_with_surfaces(640, 480, 100);
    s.on_setup();
    // Same size as before, but after setup the first resize of the new
    // stream must reallocate, releasing the old surfaces.
    let (directive, _) = s.on_resize(640, 480).unwrap();
    match directive {
        ResizeDirective::AlreadySized => panic!("setup must force reallocation"),
        ResizeDirective::Allocate { release } => {
            assert_eq!(release, Some(handles(100)));
        }
    }
}

#[test]
fn cleanup_is_a_noop_only_when_nothing_is_live() {
    let mut s = VideoSession::new();
    assert_eq!(s.on_cleanup(), None);
    let (mut s, _) = session_with_surfaces(320, 240, 300);
    assert_eq!(s.on_cleanup(), Some(handles(300)));
    // Teardown proceeds even when the earlier step already emptied it.
    assert_eq!(s.on_cleanup(), None);
    assert!(!s.surfaces_ready());
}

#[test]
fn resize_reports_the_fixed_color_metadata() {
    let mut s = VideoSession::new();
    assert!(s.on_make_current(true).is_ok());
    let (_, config) = s.on_resize(1920, 1080).unwrap();
    assert_eq!(config, fixed_output_config());
    assert_eq!(config.format, PixelFormat::Rgba8);
    assert_eq!(config.colorspace, ColorSpace::Bt709);
    assert_eq!(config.primaries, ColorPrimaries::Bt709);
    assert_eq!(config.transfer, TransferFunction::Srgb);
    assert_eq!(config.orientation, Orientation::TopLeft);
}

#[test]
fn media_open_outcomes() {
    assert_eq!(media_open_outcome(true, true), Ok(()));
    assert_eq!(media_open_outcome(false, false), Err(MediaError::MediaCreationFailed));
    assert_eq!(media_open_outcome(false, true), Err(MediaError::MediaCreationFailed));
    assert_eq!(media_open_outcome(true, false), Err(MediaError::PlayerCreationFailed));
}

#[test]
fn control_flow_after_redraw() {
    assert_eq!(next_control_flow(AppState::Exit, true), FlowDirective::Exit);
    assert_eq!(next_control_flow(AppState::Exit, false), FlowDirective::Exit);
    assert_eq!(next_control_flow(AppState::Running, true), FlowDirective::Poll);
    assert_eq!(next_control_flow(AppState::Running, false), FlowDirective::Wait);
}

#[test]
fn quit_click_ends_the_app() {
    let mut app = NeovideoApp::new();
    let mut state = AppState::Running;
    app.update_state(false, &mut state);
    assert_eq!(state, AppState::Running);
    app.update_state(true, &mut state);
    assert_eq!(state, AppState::Exit);
    app.update_state(false, &mut state);
    assert_eq!(state, AppState::Exit);
}
