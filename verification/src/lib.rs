//! Verified core of dshare: KVM-style sharing of mouse, keyboard and
//! clipboard between machines.
//!
//! The library holds the wire framing, the key-code tables, the screen
//! layout and its edge-crossing rule, the configuration model, the clipboard
//! echo suppression and the decisions of the input backends. Everything that
//! touches the operating system, the network or a serialisation format lives
//! in the program around it.

pub mod buffer;
pub mod clipboard;
pub mod codec;
pub mod config;
pub mod keycode;
pub mod layout;
pub mod linux;
pub mod peer;
pub mod protocol;
pub mod win32;

pub use codec::{MessageCodec, MAX_FRAME_BYTES};
pub use config::{Config, Role, TlsConfig};
pub use keycode::vk_to_evdev;
pub use layout::{Edge, EdgeCross, Layout, PeerScreen, Screen};
pub use linux::LinuxCapture;
pub use protocol::{
    Hello, KeyModifiers, Message, MouseButton, ProtocolError, ScreenInfo, DEFAULT_PORT,
    PROTOCOL_VERSION,
};
pub use win32::WinInject;
