//! Wire protocol shared by server and client peers.
//!
//! Frame layout: `[u32 length BE][bincode-encoded Message]`. The framing is
//! in [`crate::codec`]; the encoding of a `Message` into its payload is done
//! by the program around the library.

use vstd::prelude::*;

verus! {

pub const PROTOCOL_VERSION: u16 = 1;

pub const DEFAULT_PORT: u16 = 24800;

/// A peer identity; the library only carries it.
#[verifier::external_type_specification]
#[verifier::external_body]
pub struct ExUuid(uuid::Uuid);

/// `<Uuid as Clone>::clone`: `Uuid` is `Copy`, and its derived `clone`
/// returns the same identifier.
pub assume_specification[ <uuid::Uuid as Clone>::clone ](u: &uuid::Uuid) -> (r: uuid::Uuid)
    ensures
        r == *u,
;

#[derive(Debug, Clone)]
pub struct Hello {
    pub protocol_version: u16,
    pub peer_id: uuid::Uuid,
    pub hostname: String,
    pub screen: ScreenInfo,
}

#[derive(Debug, Clone, Copy, PartialEq, Eq)]
pub struct ScreenInfo {
    pub width: u32,
    pub height: u32,
}

/// All messages exchanged between peers.
#[derive(Debug, Clone)]
pub enum Message {
    Hello(Hello),
    HelloAck { accepted: bool, reason: Option<String> },
    /// Server tells client: cursor entered your screen at this position.
    EnterScreen { x: i32, y: i32 },
    /// Server tells client: cursor left, stop forwarding input.
    LeaveScreen,
    /// Relative mouse motion while cursor is on the remote screen.
    MouseMove { dx: i32, dy: i32 },
    /// Absolute warp (used after EnterScreen).
    MouseWarp { x: i32, y: i32 },
    MouseButton { button: MouseButton, pressed: bool },
    MouseWheel { dx: i32, dy: i32 },
    /// Raw key event. `keycode` is an evdev key code (see [`crate::keycode`]).
    KeyEvent { keycode: u32, pressed: bool, modifiers: KeyModifiers },
    /// Clipboard sync. Payload is plain UTF-8 for now; binary formats land later.
    ClipboardUpdate { mime: String, data: Vec<u8> },
    /// Heartbeat for liveness detection.
    Ping { nonce: u64 },
    Pong { nonce: u64 },
}

#[derive(Debug, Clone, Copy, PartialEq, Eq)]
pub enum MouseButton {
    Left,
    Right,
    Middle,
    Back,
    Forward,
}

#[derive(Debug, Clone, Copy, PartialEq, Eq)]
pub struct KeyModifiers {
    pub shift: bool,
    pub ctrl: bool,
    pub alt: bool,
    pub meta: bool,
}

impl Default for KeyModifiers {
    fn default() -> (m: KeyModifiers)
        ensures
            !m.shift && !m.ctrl && !m.alt && !m.meta,
    {
        KeyModifiers { shift: false, ctrl: false, alt: false, meta: false }
    }
}

/// The errors of the wire protocol that the library itself raises.
#[derive(Debug, PartialEq, Eq)]
pub enum ProtocolError {
    /// A frame announced, or a payload needed, more than
    /// [`crate::codec::MAX_FRAME_BYTES`] bytes.
    FrameTooLarge(usize),
    /// The peer speaks another protocol version.
    VersionMismatch { peer: u16, ours: u16 },
}

} // verus!
