use voxel_client::keys::Key;
use voxel_client::window::{
    render_follow_up, window_reaction, AfterRender, RenderOutcome, WindowInput, WindowReaction,
};

#[test]
fn nothing_happens_before_the_renderer_exists() {
    assert_eq!(window_reaction(false, WindowInput::CloseRequested), WindowReaction::Ignore);
    assert_eq!(window_reaction(false, WindowInput::RedrawRequested), WindowReaction::Ignore);
}

#[test]
fn reactions_when_ready() {
    assert_eq!(window_reaction(true, WindowInput::CloseRequested), WindowReaction::Exit);
    assert_eq!(
        window_reaction(true, WindowInput::Resized { width: 800, height: 600 }),
        WindowReaction::Resize { width: 800, height: 600 }
    );
    assert_eq!(window_reaction(true, WindowInput::RedrawRequested), WindowReaction::Redraw);
    assert_eq!(window_reaction(true, WindowInput::Other), WindowReaction::Ignore);
}

#[test]
fn escape_press_exits_other_keys_go_to_the_camera() {
    assert_eq!(
        window_reaction(true, WindowInput::KeyboardInput { key: Key::Escape, pressed: true }),
        WindowReaction::Exit
    );
    assert_eq!(
        window_reaction(true, WindowInput::KeyboardInput { key: Key::Escape, pressed: false }),
        WindowReaction::ForwardKey { pressed: false }
    );
    assert_eq!(
        window_reaction(true, WindowInput::KeyboardInput { key: Key::W, pressed: true }),
        WindowReaction::ForwardKey { pressed: true }
    );
    assert_eq!(
        window_reaction(true, WindowInput::KeyboardInput { key: Key::Other, pressed: false }),
        WindowReaction::ForwardKey { pressed: false }
    );
}

#[test]
fn lost_or_outdated_surface_is_reconfigured() {
    assert_eq!(render_follow_up(RenderOutcome::Presented), AfterRender::Continue);
    assert_eq!(render_follow_up(RenderOutcome::Lost), AfterRender::Reconfigure);
    assert_eq!(render_follow_up(RenderOutcome::Outdated), AfterRender::Reconfigure);
    assert_eq!(render_follow_up(RenderOutcome::Timeout), AfterRender::Report);
    assert_eq!(render_follow_up(RenderOutcome::OutOfMemory), AfterRender::Report);
    assert_eq!(render_follow_up(RenderOutcome::OtherError), AfterRender::Report);
}
