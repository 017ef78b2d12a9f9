//! How the client's window reacts to what the windowing system reports.
use vstd::prelude::*;
use crate::keys::Key;

verus! {

/// A window event, reduced to what the client's reaction depends on.
#[derive(Clone, Copy, Debug, PartialEq, Eq, Structural)]
pub enum WindowInput {
    CloseRequested,
    Resized { width: u32, height: u32 },
    RedrawRequested,
    /// A key with a known physical code was pressed or released.
    KeyboardInput { key: Key, pressed: bool },
    /// Any other event, including keys without a known physical code.
    Other,
}

/// What the client does in answer to a window event.
#[derive(Clone, Copy, Debug, PartialEq, Eq, Structural)]
pub enum WindowReaction {
    Ignore,
    Exit,
    Resize { width: u32, height: u32 },
    /// Take a freshly built chunk mesh if one arrived, advance the scene and draw a frame.
    Redraw,
    /// Hand the key to the camera controller.
    ForwardKey { pressed: bool },
}

/// The reaction to `input`: nothing until the renderer and the window exist
/// (`ready`); then closing exits, a resize resizes, a redraw request draws,
/// a press of Escape exits, and every other key event goes to the camera
/// controller.
pub open spec fn reaction_to(ready: bool, input: WindowInput) -> WindowReaction {
    if !ready {
        WindowReaction::Ignore
    } else {
        match input {
            WindowInput::CloseRequested => WindowReaction::Exit,
            WindowInput::Resized { width, height } => WindowReaction::Resize { width, height },
            WindowInput::RedrawRequested => WindowReaction::Redraw,
            WindowInput::KeyboardInput { key, pressed } => {
                if key == Key::Escape && pressed {
                    WindowReaction::Exit
                } else {
                    WindowReaction::ForwardKey { pressed }
                }
            },
            WindowInput::Other => WindowReaction::Ignore,
        }
    }
}

/// Decides the reaction to a window event.
pub fn window_reaction(ready: bool, input: WindowInput) -> (r: WindowReaction)
    ensures
        r == reaction_to(ready, input),
{
    if !ready {
        return WindowReaction::Ignore;
    }
    match input {
        WindowInput::CloseRequested => WindowReaction::Exit,
        WindowInput::Resized { width, height } => WindowReaction::Resize { width, height },
        WindowInput::RedrawRequested => WindowReaction::Redraw,
        WindowInput::KeyboardInput { key, pressed } => match (key, pressed) {
            (Key::Escape, true) => WindowReaction::Exit,
            _ => WindowReaction::ForwardKey { pressed },
        },
        WindowInput::Other => WindowReaction::Ignore,
    }
}

/// How drawing a frame ended.
#[derive(Clone, Copy, Debug, PartialEq, Eq, Structural)]
pub enum RenderOutcome {
    Presented,
    Timeout,
    Outdated,
    Lost,
    OutOfMemory,
    OtherError,
}

/// What follows a frame.
#[derive(Clone, Copy, Debug, PartialEq, Eq, Structural)]
pub enum AfterRender {
    Continue,
    /// Configure the surface again at the window's current size.
    Reconfigure,
    /// Report the error and go on.
    Report,
}

/// After a lost or outdated surface the surface is configured again; any
/// other error is reported; a presented frame needs nothing.
pub open spec fn after_render(outcome: RenderOutcome) -> AfterRender {
    match outcome {
        RenderOutcome::Presented => AfterRender::Continue,
        RenderOutcome::Lost => AfterRender::Reconfigure,
        RenderOutcome::Outdated => AfterRender::Reconfigure,
        _ => AfterRender::Report,
    }
}

/// Decides what follows a frame.
pub fn render_follow_up(outcome: RenderOutcome) -> (r: AfterRender)
    ensures
        r == after_render(outcome),
{
    match outcome {
        RenderOutcome::Presented => AfterRender::Continue,
        RenderOutcome::Lost | RenderOutcome::Outdated => AfterRender::Reconfigure,
        _ => AfterRender::Report,
    }
}

/// Only a press of Escape or a close request ends the client.
pub proof fn lemma_exit_only_on_close_or_escape(ready: bool, input: WindowInput)
    ensures
        reaction_to(ready, input) == WindowReaction::Exit <==> ready && (input
            == WindowInput::CloseRequested || input == (WindowInput::KeyboardInput {
            key: Key::Escape,
            pressed: true,
        })),
{
}

/// Once ready, every keyboard event other than a press of Escape reaches the
/// camera controller with its pressed state, whatever the key.
pub proof fn lemma_keys_are_forwarded(key: Key, pressed: bool)
    requires
        !(key == Key::Escape && pressed),
    ensures
        reaction_to(true, WindowInput::KeyboardInput { key, pressed }) == (WindowReaction::ForwardKey {
            pressed,
        }),
{
}

/// Once ready, a resize is passed on with the new size, a redraw request draws,
/// and events the client does not know are ignored; before that, every event is ignored.
pub proof fn lemma_other_events(ready: bool, width: u32, height: u32, input: WindowInput)
    ensures
        reaction_to(true, WindowInput::Resized { width, height }) == (WindowReaction::Resize {
            width,
            height,
        }),
        reaction_to(true, WindowInput::RedrawRequested) == WindowReaction::Redraw,
        reaction_to(true, WindowInput::Other) == WindowReaction::Ignore,
        reaction_to(false, input) == WindowReaction::Ignore,
{
}

/// A lost or outdated surface is configured again, every other failure is
/// reported, and only a presented frame needs nothing.
pub proof fn lemma_render_follow_up(outcome: RenderOutcome)
    ensures
        after_render(outcome) == AfterRender::Reconfigure <==> (outcome == RenderOutcome::Lost
            || outcome == RenderOutcome::Outdated),
        after_render(outcome) == AfterRender::Continue <==> outcome == RenderOutcome::Presented,
{
}

} // verus!
