//! The keys the client reacts to, and their recognition from winit's key codes.
use vstd::prelude::*;
use winit::keyboard::KeyCode;

verus! {

/// winit's physical key code; its variants carry no data.
#[verifier::external_type_specification]
pub struct ExKeyCode(winit::keyboard::KeyCode);

/// The keys that have a meaning for the client; every other key is `Other`.
#[derive(Clone, Copy, Debug, PartialEq, Eq, Structural)]
pub enum Key {
    W,
    A,
    S,
    D,
    F,
    Escape,
    Other,
}

/// Which of the client's keys a winit key code is: `KeyW`, `KeyA`, `KeyS`,
/// `KeyD`, `KeyF` and `Escape` are the key of the same name, every other
/// code is `Other`.
pub open spec fn key_kind(code: KeyCode) -> Key {
    match code {
        KeyCode::KeyW => Key::W,
        KeyCode::KeyA => Key::A,
        KeyCode::KeyS => Key::S,
        KeyCode::KeyD => Key::D,
        KeyCode::KeyF => Key::F,
        KeyCode::Escape => Key::Escape,
        _ => Key::Other,
    }
}

/// Recognises the client's keys among winit's key codes.
pub fn classify_key(code: KeyCode) -> (k: Key)
    ensures
        k == key_kind(code),
{
    match code {
        KeyCode::KeyW => Key::W,
        KeyCode::KeyA => Key::A,
        KeyCode::KeyS => Key::S,
        KeyCode::KeyD => Key::D,
        KeyCode::KeyF => Key::F,
        KeyCode::Escape => Key::Escape,
        _ => Key::Other,
    }
}

/// Each of the client's keys is recognised from exactly one key code, the
/// one of the same name; every other code is `Other`.
pub proof fn lemma_each_key_has_one_code(code: KeyCode)
    ensures
        key_kind(code) == Key::W <==> code == KeyCode::KeyW,
        key_kind(code) == Key::A <==> code == KeyCode::KeyA,
        key_kind(code) == Key::S <==> code == KeyCode::KeyS,
        key_kind(code) == Key::D <==> code == KeyCode::KeyD,
        key_kind(code) == Key::F <==> code == KeyCode::KeyF,
        key_kind(code) == Key::Escape <==> code == KeyCode::Escape,
        key_kind(code) == Key::Other <==> (code != KeyCode::KeyW && code != KeyCode::KeyA
            && code != KeyCode::KeyS && code != KeyCode::KeyD && code != KeyCode::KeyF && code
            != KeyCode::Escape),
{
}

} // verus!
