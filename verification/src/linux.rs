//! Linux backend decisions.
//!
//! Injection goes through a `uinput` virtual device with mouse and keyboard
//! capabilities. The wire `Message::KeyEvent.keycode` is written to it as an
//! evdev key code unchanged. This module says which codes the device declares
//! and which events a message turns into; creating the device and writing to
//! it is left to the program.

use vstd::prelude::*;
use crate::protocol::{Message, MouseButton};

verus! {

/// Event types and codes of `<linux/input-event-codes.h>`.
pub const EV_KEY: u16 = 0x01;

pub const EV_REL: u16 = 0x02;

pub const REL_X: u16 = 0x00;

pub const REL_Y: u16 = 0x01;

pub const REL_HWHEEL: u16 = 0x06;

pub const REL_WHEEL: u16 = 0x08;

pub const BTN_LEFT: u16 = 0x110;

pub const BTN_RIGHT: u16 = 0x111;

pub const BTN_MIDDLE: u16 = 0x112;

pub const BTN_SIDE: u16 = 0x113;

pub const BTN_EXTRA: u16 = 0x114;

/// One input event to write to the virtual device.
#[derive(Debug, Clone, Copy, PartialEq, Eq)]
pub struct InjectEvent {
    pub event_type: u16,
    pub code: u16,
    pub value: i32,
}

pub open spec fn rel_event(code: u16, value: i32) -> InjectEvent {
    InjectEvent { event_type: EV_REL, code, value }
}

pub open spec fn key_event(code: u16, pressed: bool) -> InjectEvent {
    InjectEvent { event_type: EV_KEY, code, value: if pressed { 1 } else { 0 } }
}

/// The evdev button code of a mouse button.
pub open spec fn button_code(button: MouseButton) -> u16 {
    match button {
        MouseButton::Left => BTN_LEFT,
        MouseButton::Right => BTN_RIGHT,
        MouseButton::Middle => BTN_MIDDLE,
        MouseButton::Back => BTN_SIDE,
        MouseButton::Forward => BTN_EXTRA,
    }
}

/// The relative event for a nonzero `value`, nothing for zero.
pub open spec fn rel_if_nonzero(code: u16, value: i32) -> Seq<InjectEvent> {
    if value != 0 {
        seq![rel_event(code, value)]
    } else {
        seq![]
    }
}

/// The events a message turns into on the virtual device: relative motion
/// and wheel for nonzero deltas, a key event for a button or a key (a key
/// code beyond `u16` is dropped), and nothing for any other message. A
/// `MouseWarp` is absolute and cannot be written as relative motion.
pub open spec fn inject_events_spec(msg: Message) -> Seq<InjectEvent> {
    match msg {
        Message::MouseMove { dx, dy } => rel_if_nonzero(REL_X, dx) + rel_if_nonzero(REL_Y, dy),
        Message::MouseButton { button, pressed } => seq![key_event(button_code(button), pressed)],
        Message::MouseWheel { dx, dy } => rel_if_nonzero(REL_WHEEL, dy) + rel_if_nonzero(
            REL_HWHEEL,
            dx,
        ),
        Message::KeyEvent { keycode, pressed, .. } => if keycode > u16::MAX {
            seq![]
        } else {
            seq![key_event(keycode as u16, pressed)]
        },
        _ => seq![],
    }
}

/// The key codes the virtual device declares: the keyboard range `KEY_ESC`
/// (1) .. `KEY_MICMUTE` (248), then the mouse buttons `BTN_MISC` (0x100) ..
/// `BTN_GEAR_UP` (0x150).
pub open spec fn inject_key_codes_spec() -> Seq<u16> {
    Seq::new(248, |i: int| (i + 1) as u16) + Seq::new(0x51, |i: int| (0x100 + i) as u16)
}

/// The relative axes the virtual device declares.
pub open spec fn inject_relative_axes_spec() -> Seq<u16> {
    seq![REL_X, REL_Y, REL_WHEEL, REL_HWHEEL]
}

fn push_rel_if_nonzero(events: &mut Vec<InjectEvent>, code: u16, value: i32)
    ensures
        final(events)@ == old(events)@ + rel_if_nonzero(code, value),
{
    if value != 0 {
        events.push(InjectEvent { event_type: EV_REL, code, value });
    }
    proof {
        assert(final(events)@ =~= old(events)@ + rel_if_nonzero(code, value));
    }
}

/// The events to write to the virtual device for `msg`, in order.
pub fn inject_events(msg: &Message) -> (events: Vec<InjectEvent>)
    ensures
        events@ == inject_events_spec(*msg),
{
    let mut events: Vec<InjectEvent> = Vec::new();
    match msg {
        Message::MouseMove { dx, dy } => {
            push_rel_if_nonzero(&mut events, REL_X, *dx);
            push_rel_if_nonzero(&mut events, REL_Y, *dy);
        },
        Message::MouseButton { button, pressed } => {
            let code = match button {
                MouseButton::Left => BTN_LEFT,
                MouseButton::Right => BTN_RIGHT,
                MouseButton::Middle => BTN_MIDDLE,
                MouseButton::Back => BTN_SIDE,
                MouseButton::Forward => BTN_EXTRA,
            };
            events.push(InjectEvent { event_type: EV_KEY, code, value: if *pressed { 1 } else { 0 } });
        },
        Message::MouseWheel { dx, dy } => {
            push_rel_if_nonzero(&mut events, REL_WHEEL, *dy);
            push_rel_if_nonzero(&mut events, REL_HWHEEL, *dx);
        },
        Message::KeyEvent { keycode, pressed, .. } => {
            if *keycode <= 0xffff {
                events.push(
                    InjectEvent {
                        event_type: EV_KEY,
                        code: *keycode as u16,
                        value: if *pressed { 1 } else { 0 },
                    },
                );
            }
        },
        _ => {},
    }
    proof {
        assert(events@ =~= inject_events_spec(*msg));
    }
    events
}

/// The key codes to declare on the virtual device.
pub fn inject_key_codes() -> (codes: Vec<u16>)
    ensures
        codes@ == inject_key_codes_spec(),
{
    let mut codes: Vec<u16> = Vec::new();
    let mut code: u16 = 1;
    while code <= 248
        invariant
            1 <= code <= 249,
            codes@ == Seq::new((code - 1) as nat, |i: int| (i + 1) as u16),
        decreases 249 - code,
    {
        codes.push(code);
        code += 1;
        proof {
            assert(codes@ =~= Seq::new((code - 1) as nat, |i: int| (i + 1) as u16));
        }
    }
    let mut button: u16 = 0x100;
    while button <= 0x150
        invariant
            0x100 <= button <= 0x151,
            codes@ == Seq::new(248, |i: int| (i + 1) as u16) + Seq::new(
                (button - 0x100) as nat,
                |i: int| (0x100 + i) as u16,
            ),
        decreases 0x151 - button,
    {
        codes.push(button);
        button += 1;
        proof {
            assert(codes@ =~= Seq::new(248, |i: int| (i + 1) as u16) + Seq::new(
                (button - 0x100) as nat,
                |i: int| (0x100 + i) as u16,
            ));
        }
    }
    codes
}

/// The relative axes to declare on the virtual device.
pub fn inject_relative_axes() -> (axes: Vec<u16>)
    ensures
        axes@ == inject_relative_axes_spec(),
{
    let axes = vec![REL_X, REL_Y, REL_WHEEL, REL_HWHEEL];
    proof {
        assert(axes@ =~= inject_relative_axes_spec());
    }
    axes
}

/// Capture of local input on Linux; it records whether local input is to be
/// withheld from local applications.
pub struct LinuxCapture {
    grabbed: bool,
}

impl LinuxCapture {
    pub closed spec fn is_grabbed_spec(&self) -> bool {
        self.grabbed
    }

    pub fn new() -> (c: LinuxCapture)
        ensures
            !c.is_grabbed_spec(),
    {
        LinuxCapture { grabbed: false }
    }

    /// Toggle whether captured events are blocked from reaching local apps.
    pub fn set_grabbed(&mut self, grabbed: bool)
        ensures
            final(self).is_grabbed_spec() == grabbed,
    {
        self.grabbed = grabbed;
    }

    pub fn is_grabbed(&self) -> (g: bool)
        ensures
            g == self.is_grabbed_spec(),
    {
        self.grabbed
    }
}

/// Every key code the key table produces is declared on the virtual device:
/// key events that a Windows peer captures can be injected on Linux.
pub proof fn lemma_mapped_keys_declared(vk: u32)
    ensures
        crate::keycode::spec_vk_to_evdev(vk) matches Some(code) ==> inject_key_codes_spec().contains(
            code,
        ),
{
    crate::keycode::lemma_vk_to_evdev_keyboard_range(vk);
    if let Some(code) = crate::keycode::spec_vk_to_evdev(vk) {
        let s = inject_key_codes_spec();
        assert(s[code - 1int] == code);
    }
}

/// Pointer messages turn only into events the virtual device declares.
pub proof fn lemma_pointer_events_declared(msg: Message)
    requires
        msg is MouseMove || msg is MouseButton || msg is MouseWheel,
    ensures
        forall|k: int|
            0 <= k < inject_events_spec(msg).len() ==> {
                let e = #[trigger] inject_events_spec(msg)[k];
                ||| e.event_type == EV_REL && inject_relative_axes_spec().contains(e.code)
                ||| e.event_type == EV_KEY && inject_key_codes_spec().contains(e.code)
            },
{
    let s = inject_key_codes_spec();
    let r = inject_relative_axes_spec();
    assert(r[0] == REL_X && r[1] == REL_Y && r[2] == REL_WHEEL && r[3] == REL_HWHEEL);
    assert(s[264int + 0] == BTN_LEFT);
    assert(s[264int + 1] == BTN_RIGHT);
    assert(s[264int + 2] == BTN_MIDDLE);
    assert(s[264int + 3] == BTN_SIDE);
    assert(s[264int + 4] == BTN_EXTRA);
}

/// A button message turns into exactly one key event (type 1) for that
/// button's evdev code — left 0x110, right 0x111, middle 0x112, back (side)
/// 0x113, forward (extra) 0x114 — with value 1 when it went down and 0 when
/// it went up.
pub proof fn lemma_button_event(button: MouseButton, pressed: bool)
    ensures
        inject_events_spec(Message::MouseButton { button, pressed }) == seq![
            InjectEvent {
                event_type: 1u16,
                code: match button {
                    MouseButton::Left => 0x110u16,
                    MouseButton::Right => 0x111u16,
                    MouseButton::Middle => 0x112u16,
                    MouseButton::Back => 0x113u16,
                    MouseButton::Forward => 0x114u16,
                },
                value: if pressed { 1i32 } else { 0i32 },
            },
        ],
{
}

/// Motion turns into relative events (type 2) on `REL_X` (0) for the
/// horizontal delta, then `REL_Y` (1) for the vertical one; the wheel into
/// `REL_WHEEL` (8) for the vertical delta, then `REL_HWHEEL` (6) for the
/// horizontal one; each with the delta as its value and left out when the
/// delta is zero. A key turns into one key event (type 1) with the key code
/// itself, when the code fits in 16 bits, and into nothing otherwise.
pub proof fn lemma_motion_wheel_and_key_events(dx: i32, dy: i32, keycode: u32, pressed: bool, m: crate::protocol::KeyModifiers)
    ensures
        inject_events_spec(Message::MouseMove { dx, dy }) == (if dx != 0 {
            seq![InjectEvent { event_type: 2u16, code: 0u16, value: dx }]
        } else {
            seq![]
        }) + (if dy != 0 {
            seq![InjectEvent { event_type: 2u16, code: 1u16, value: dy }]
        } else {
            seq![]
        }),
        inject_events_spec(Message::MouseWheel { dx, dy }) == (if dy != 0 {
            seq![InjectEvent { event_type: 2u16, code: 8u16, value: dy }]
        } else {
            seq![]
        }) + (if dx != 0 {
            seq![InjectEvent { event_type: 2u16, code: 6u16, value: dx }]
        } else {
            seq![]
        }),
        keycode <= 0xffff ==> inject_events_spec(Message::KeyEvent { keycode, pressed, modifiers: m })
            == seq![InjectEvent { event_type: 1u16, code: keycode as u16, value: if pressed { 1i32 } else { 0i32 } }],
        keycode > 0xffff ==> inject_events_spec(Message::KeyEvent { keycode, pressed, modifiers: m }).len() == 0,
{
}

/// The virtual device declares exactly the key codes 1..=248 and the button
/// codes 0x100..=0x150, each once and in increasing order, and the relative
/// axes X (0), Y (1), wheel (8) and horizontal wheel (6).
pub proof fn lemma_declared_capabilities(c: u16)
    ensures
        inject_key_codes_spec().contains(c) <==> (1 <= c <= 248 || 0x100 <= c <= 0x150),
        inject_key_codes_spec().len() == 248 + 0x51,
        forall|i: int, j: int|
            0 <= i < j < inject_key_codes_spec().len() ==> inject_key_codes_spec()[i] < inject_key_codes_spec()[j],
        inject_relative_axes_spec() == seq![0u16, 1u16, 8u16, 6u16],
{
    let s = inject_key_codes_spec();
    if 1 <= c <= 248 {
        assert(s[c - 1int] == c);
    } else if 0x100 <= c <= 0x150 {
        assert(s[248 + (c - 0x100int)] == c);
    }
}

} // verus!
