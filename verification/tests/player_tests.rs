use voxel_client::keys::{classify_key, Key};
use voxel_client::player::Player;
use winit::keyboard::KeyCode;

#[test]
fn new_player_holds_nothing() {
    assert_eq!(Player::new().get(), (false, false, false, false));
}

#[test]
fn wasd_drive_their_flags() {
    let mut p = Player::new();
    p.handle_key(KeyCode::KeyW, true);
    assert_eq!(p.get(), (true, false, false, false));
    p.handle_key(KeyCode::KeyA, true);
    assert_eq!(p.get(), (true, false, true, false));
    p.handle_key(KeyCode::KeyS, true);
    assert_eq!(p.get(), (true, true, true, false));
    p.handle_key(KeyCode::KeyD, true);
    assert_eq!(p.get(), (true, true, true, true));
    p.handle_key(KeyCode::KeyW, false);
    assert_eq!(p.get(), (false, true, true, true));
}

#[test]
fn f_drives_back_like_s() {
    let mut p = Player::new();
    p.handle_key(KeyCode::KeyF, true);
    assert_eq!(p.get(), (false, true, false, false));
    p.handle_key(KeyCode::KeyS, false);
    assert_eq!(p.get(), (false, false, false, false));
}

#[test]
fn other_keys_change_nothing() {
    let mut p = Player::new();
    p.handle_key(KeyCode::KeyW, true);
    p.handle_key(KeyCode::Escape, true);
    p.handle_key(KeyCode::KeyQ, true);
    p.handle_key(KeyCode::Space, false);
    assert_eq!(p.get(), (true, false, false, false));
}

#[test]
fn last_event_of_a_key_wins() {
    let mut p = Player::new();
    p.handle_key(KeyCode::KeyD, true);
    p.handle_key(KeyCode::KeyD, false);
    p.handle_key(KeyCode::KeyD, true);
    assert_eq!(p.get(), (false, false, false, true));
    let mut q = Player::new();
    q.apply_key(Key::D, true);
    assert_eq!(p.get(), q.get());
}

#[test]
fn independent_keys_commute() {
    let mut a = Player::new();
    a.handle_key(KeyCode::KeyW, true);
    a.handle_key(KeyCode::KeyA, true);
    let mut b = Player::new();
    b.handle_key(KeyCode::KeyA, true);
    b.handle_key(KeyCode::KeyW, true);
    assert_eq!(a.get(), b.get());
}

#[test]
fn key_codes_are_classified() {
    assert_eq!(classify_key(KeyCode::KeyW), Key::W);
    assert_eq!(classify_key(KeyCode::KeyA), Key::A);
    assert_eq!(classify_key(KeyCode::KeyS), Key::S);
    assert_eq!(classify_key(KeyCode::KeyD), Key::D);
    assert_eq!(classify_key(KeyCode::KeyF), Key::F);
    assert_eq!(classify_key(KeyCode::Escape), Key::Escape);
    assert_eq!(classify_key(KeyCode::Enter), Key::Other);
}
