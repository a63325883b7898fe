//! The closed set of typed input events and the decoding rules that turn raw
//! device codes into them.
//!
//! The host installs the actual input subscriptions and converts device
//! coordinates; the decisions — which button a code denotes, which buttons a
//! bitmask holds, whether a raw input yields an event at all — live here.
//!
//! Events are generic over the position payload `P`, so the host can carry
//! its own vector type through the queue untouched.

use vstd::prelude::*;

verus! {

/// A pointer button, decoded from a raw device code.
#[derive(Debug, Clone, PartialEq, Eq, Structural)]
pub enum MouseButton {
    Left,
    Middle,
    Right,
    Back,
    Forward,
}

/// The button denoted by a raw single-button code, if any: the fixed table
/// 0, 1, 2, 3, 4 to Left, Middle, Right, Back, Forward.
pub open spec fn spec_from_code(code: i16) -> Option<MouseButton> {
    if code == 0 {
        Some(MouseButton::Left)
    } else if code == 1 {
        Some(MouseButton::Middle)
    } else if code == 2 {
        Some(MouseButton::Right)
    } else if code == 3 {
        Some(MouseButton::Back)
    } else if code == 4 {
        Some(MouseButton::Forward)
    } else {
        None
    }
}

/// The buttons held according to a raw bitmask, in bit-scan order.  The bit
/// layout differs from the single-button code order on purpose: bit 0 is
/// Left, bit 1 Right, bit 2 Middle, bit 3 Back, bit 4 Forward.
pub open spec fn spec_from_bitmap(bits: u16) -> Seq<MouseButton> {
    (if bits & 1 != 0 { seq![MouseButton::Left] } else { seq![] })
        + (if bits & 2 != 0 { seq![MouseButton::Right] } else { seq![] })
        + (if bits & 4 != 0 { seq![MouseButton::Middle] } else { seq![] })
        + (if bits & 8 != 0 { seq![MouseButton::Back] } else { seq![] })
        + (if bits & 16 != 0 { seq![MouseButton::Forward] } else { seq![] })
}

impl MouseButton {
    /// Decodes a raw single-button code; an unknown code decodes to nothing.
    pub fn from_code(code: i16) -> (r: Option<MouseButton>)
        ensures
            r == spec_from_code(code),
    {
        match code {
            0 => Some(MouseButton::Left),
            1 => Some(MouseButton::Middle),
            2 => Some(MouseButton::Right),
            3 => Some(MouseButton::Back),
            4 => Some(MouseButton::Forward),
            _ => None,
        }
    }

    /// Decodes a held-buttons bitmask into the ordered list of held buttons.
    pub fn from_bitmap(bits: u16) -> (r: Vec<MouseButton>)
        ensures
            r@ == spec_from_bitmap(bits),
    {
        let mut buttons: Vec<MouseButton> = Vec::new();
        if bits & 1 != 0 {
            buttons.push(MouseButton::Left);
        }
        if bits & 2 != 0 {
            buttons.push(MouseButton::Right);
        }
        if bits & 4 != 0 {
            buttons.push(MouseButton::Middle);
        }
        if bits & 8 != 0 {
            buttons.push(MouseButton::Back);
        }
        if bits & 16 != 0 {
            buttons.push(MouseButton::Forward);
        }
        proof {
            assert(buttons@ =~= spec_from_bitmap(bits));
        }
        buttons
    }
}

/// The modifier flags carried by a key event.
#[derive(Debug, Clone, Copy, PartialEq, Eq, Structural)]
pub struct KeyMeta {
    pub repeat: bool,
    pub alt: bool,
    pub shift: bool,
    pub ctrl: bool,
    pub meta: bool,
}

/// A normalized input event.  `P` is the position payload the host chooses;
/// the machine never looks inside it.
#[derive(Debug, Clone)]
pub enum Event<P> {
    MouseDown { pos: P, button: MouseButton },
    MouseUp { pos: P, button: MouseButton },
    MouseMove { pos: P, buttons: Vec<MouseButton> },
    MouseWheel { pos: P, buttons: Vec<MouseButton>, delta: P },
    TouchStart { touches: Vec<P> },
    TouchMove { touches: Vec<P> },
    TouchEnd { touches: Vec<P> },
    KeyDown { code: u32, key: String, meta: KeyMeta },
    KeyUp { code: u32, key: String, meta: KeyMeta },
}

/// The event for a raw pointer-press, if the button code is known; a press
/// with an unknown code yields no event.
pub fn normalize_mouse_down<P>(pos: P, code: i16) -> (r: Option<Event<P>>)
    ensures
        r == (match spec_from_code(code) {
            Some(b) => Some(Event::MouseDown { pos, button: b }),
            None => None,
        }),
{
    match MouseButton::from_code(code) {
        Some(button) => Some(Event::MouseDown { pos, button }),
        None => None,
    }
}

/// The event for a raw pointer-release, if the button code is known; a
/// release with an unknown code yields no event.
pub fn normalize_mouse_up<P>(pos: P, code: i16) -> (r: Option<Event<P>>)
    ensures
        r == (match spec_from_code(code) {
            Some(b) => Some(Event::MouseUp { pos, button: b }),
            None => None,
        }),
{
    match MouseButton::from_code(code) {
        Some(button) => Some(Event::MouseUp { pos, button }),
        None => None,
    }
}

/// The event for a raw pointer-move, with the held buttons decoded from the
/// bitmask.
pub fn normalize_mouse_move<P>(pos: P, bits: u16) -> (r: Event<P>)
    ensures
        r matches Event::MouseMove { pos: p, buttons: b } && p == pos && b@ == spec_from_bitmap(
            bits,
        ),
{
    Event::MouseMove { pos, buttons: MouseButton::from_bitmap(bits) }
}

/// The event for a raw wheel turn, with the held buttons decoded from the
/// bitmask.
pub fn normalize_mouse_wheel<P>(pos: P, delta: P, bits: u16) -> (r: Event<P>)
    ensures
        r matches Event::MouseWheel { pos: p, buttons: b, delta: d } && p == pos && d == delta
            && b@ == spec_from_bitmap(bits),
{
    Event::MouseWheel { pos, buttons: MouseButton::from_bitmap(bits), delta }
}

} // verus!
