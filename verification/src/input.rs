use vstd::prelude::*;

verus! {

/// Identity of a physical key, independent of any windowing backend. The
/// host layer translates its platform's key identifiers into this enum;
/// keys the engine has no use for arrive as `None` in a `KeyEvent`.
#[derive(Debug, Clone, Copy, PartialEq, Eq, Hash, Structural)]
pub enum KeyCode {
    Digit0,
    Digit1,
    Digit2,
    Digit3,
    Digit4,
    Digit5,
    Digit6,
    Digit7,
    Digit8,
    Digit9,
    KeyA,
    KeyB,
    KeyC,
    KeyD,
    KeyE,
    KeyF,
    KeyG,
    KeyH,
    KeyI,
    KeyJ,
    KeyK,
    KeyL,
    KeyM,
    KeyN,
    KeyO,
    KeyP,
    KeyQ,
    KeyR,
    KeyS,
    KeyT,
    KeyU,
    KeyV,
    KeyW,
    KeyX,
    KeyY,
    KeyZ,
    Space,
    Enter,
    Escape,
    ArrowUp,
    ArrowDown,
    ArrowLeft,
    ArrowRight,
}

/// Whether a key or button went down or up.
#[derive(Debug, Clone, Copy, PartialEq, Eq, Hash, Structural)]
pub enum ElementState {
    Pressed,
    Released,
}

impl ElementState {
    pub fn is_pressed(&self) -> (r: bool)
        ensures
            r == (*self is Pressed),
    {
        match self {
            ElementState::Pressed => true,
            ElementState::Released => false,
        }
    }
}

/// A discrete keyboard event: the key's identity (when recognized) and
/// whether it was pressed or released.
#[derive(Debug, Clone, Copy, PartialEq, Eq, Hash, Structural)]
pub struct KeyEvent {
    pub state: ElementState,
    pub code: Option<KeyCode>,
}

/// Identity of a mouse button.
#[derive(Debug, Clone, Copy, PartialEq, Eq, Hash, Structural)]
pub enum MouseButton {
    Left,
    Right,
    Middle,
    Back,
    Forward,
    Other(u16),
}

/// A mouse button event, carrying the cursor's grid cell position at the
/// time of the event when the cursor was over a cell.
#[derive(Debug, Clone, Copy, PartialEq, Eq, Hash)]
pub struct MouseEvent {
    pub state: ElementState,
    pub button: MouseButton,
    pub pos: Option<(u32, u32)>,
}

/// Whether `event` is a press of exactly the key `key`.
pub open spec fn spec_is_pressed(event: &KeyEvent, key: KeyCode) -> bool {
    event.state is Pressed && event.code == Some(key)
}

/// Whether `event` is a press of exactly the key `key`.
#[verifier::when_used_as_spec(spec_is_pressed)]
pub fn is_pressed(event: &KeyEvent, key: KeyCode) -> (r: bool)
    ensures
        r == spec_is_pressed(event, key),
{
    event.state.is_pressed() && (match event.code {
        Some(c) => c == key,
        None => false,
    })
}

} // verus!
