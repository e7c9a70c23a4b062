//! The little state the UI shell decides with: whether the application
//! keeps running, and what the event loop should do after a redraw. The
//! widget tree itself is drawn by the windowing glue; the decisions it
//! feeds on are taken here.

use vstd::prelude::*;

verus! {

/// Whether the application should keep running.
#[derive(Clone, Copy, PartialEq, Eq, Structural, Debug)]
pub enum AppState {
    Running,
    Exit,
}

/// What the event loop should do after a redraw.
#[derive(Clone, Copy, PartialEq, Eq, Structural, Debug)]
pub enum FlowDirective {
    /// Stop the event loop.
    Exit,
    /// The UI asked for another repaint: run again without waiting, and
    /// request a redraw.
    Poll,
    /// Nothing to repaint: sleep until the next event.
    Wait,
}

/// After a redraw: exit when the app asked to; otherwise poll exactly when
/// the UI still needs a repaint, and wait when it does not.
pub fn next_control_flow(app_state: AppState, needs_repaint: bool) -> (f: FlowDirective)
    ensures
        f is Exit <==> app_state is Exit,
        f is Poll <==> app_state is Running && needs_repaint,
        f is Wait <==> app_state is Running && !needs_repaint,
{
    match app_state {
        AppState::Exit => FlowDirective::Exit,
        AppState::Running => if needs_repaint {
            FlowDirective::Poll
        } else {
            FlowDirective::Wait
        },
    }
}

/// The demo application behind the UI: it owns no state of its own and
/// exits when its Quit button is pressed.
pub struct NeovideoApp {}

impl NeovideoApp {
    pub fn new() -> (a: NeovideoApp)
        ensures
            a == (NeovideoApp {  }),
    {
        NeovideoApp {  }
    }

    /// The per-frame UI decision: pressing Quit ends the application,
    /// anything else keeps the state as it was.
    pub fn update_state(&mut self, quit_clicked: bool, app_state: &mut AppState)
        ensures
            *final(self) == *old(self),
            *final(app_state) == if quit_clicked {
                AppState::Exit
            } else {
                *old(app_state)
            },
    {
        if quit_clicked {
            *app_state = AppState::Exit;
        }
    }
}

} // verus!
