use dshare::linux::{
    inject_events, inject_key_codes, inject_relative_axes, InjectEvent, LinuxCapture, BTN_EXTRA,
    BTN_LEFT, BTN_RIGHT, EV_KEY, EV_REL, REL_HWHEEL, REL_WHEEL, REL_X, REL_Y,
};
use dshare::win32::{
    modifiers_from_keys, on_key_event, MouseHook, WinInject, WinInput, HC_ACTION,
    KEYEVENTF_EXTENDEDKEY, KEYEVENTF_KEYUP, KEYEVENTF_SCANCODE, MOUSEEVENTF_LEFTDOWN,
    MOUSEEVENTF_MOVE, MOUSEEVENTF_WHEEL, WM_KEYDOWN, WM_KEYUP, WM_LBUTTONDOWN, WM_MOUSEMOVE,
    WM_MOUSEWHEEL, WM_SYSKEYDOWN,
};
use dshare::{KeyModifiers, Message, MouseButton};

fn ev(event_type: u16, code: u16, value: i32) -> InjectEvent {
    InjectEvent { event_type, code, value }
}

#[test]
fn linux_mouse_move_skips_zero_axes() {
    assert_eq!(inject_events(&Message::MouseMove { dx: 4, dy: 0 }), vec![ev(EV_REL, REL_X, 4)]);
    assert_eq!(
        inject_events(&Message::MouseMove { dx: -2, dy: 3 }),
        vec![ev(EV_REL, REL_X, -2), ev(EV_REL, REL_Y, 3)]
    );
    assert!(inject_events(&Message::MouseMove { dx: 0, dy: 0 }).is_empty());
}

#[test]
fn linux_buttons_wheel_and_keys() {
    assert_eq!(
        inject_events(&Message::MouseButton { button: MouseButton::Left, pressed: true }),
        vec![ev(EV_KEY, BTN_LEFT, 1)]
    );
    assert_eq!(
        inject_events(&Message::MouseButton { button: MouseButton::Forward, pressed: false }),
        vec![ev(EV_KEY, BTN_EXTRA, 0)]
    );
    assert_eq!(
        inject_events(&Message::MouseWheel { dx: 1, dy: -1 }),
        vec![ev(EV_REL, REL_WHEEL, -1), ev(EV_REL, REL_HWHEEL, 1)]
    );
    let k = Message::KeyEvent { keycode: 35, pressed: true, modifiers: KeyModifiers::default() };
    assert_eq!(inject_events(&k), vec![ev(EV_KEY, 35, 1)]);
    let too_big = Message::KeyEvent { keycode: 70_000, pressed: true, modifiers: KeyModifiers::default() };
    assert!(inject_events(&too_big).is_empty());
    assert!(inject_events(&Message::MouseWarp { x: 1, y: 1 }).is_empty());
    assert!(inject_events(&Message::LeaveScreen).is_empty());
}

#[test]
fn linux_device_capabilities() {
    let keys = inject_key_codes();
    assert_eq!(keys.len(), 248 + 0x51);
    assert_eq!(keys[0], 1);
    assert_eq!(keys[247], 248);
    assert_eq!(keys[248], 0x100);
    assert_eq!(*keys.last().unwrap(), 0x150);
    assert!(keys.contains(&BTN_RIGHT));
    assert_eq!(inject_relative_axes(), vec![REL_X, REL_Y, REL_WHEEL, REL_HWHEEL]);
}

#[test]
fn linux_capture_grab_flag() {
    let mut c = LinuxCapture::new();
    assert!(!c.is_grabbed());
    c.set_grabbed(true);
    assert!(c.is_grabbed());
    c.set_grabbed(false);
    assert!(!c.is_grabbed());
}

#[test]
fn windows_inject_inputs() {
    let inj = WinInject::new();
    assert_eq!(
        inj.input_for(&Message::MouseMove { dx: 2, dy: -1 }),
        Some(WinInput::Mouse { flags: MOUSEEVENTF_MOVE, dx: 2, dy: -1, data: 0 })
    );
    assert_eq!(
        inj.input_for(&Message::MouseButton { button: MouseButton::Left, pressed: true }),
        Some(WinInput::Mouse { flags: MOUSEEVENTF_LEFTDOWN, dx: 0, dy: 0, data: 0 })
    );
    assert_eq!(inj.input_for(&Message::MouseButton { button: MouseButton::Back, pressed: true }), None);
    assert_eq!(
        inj.input_for(&Message::MouseWheel { dx: 5, dy: -2 }),
        Some(WinInput::Mouse { flags: MOUSEEVENTF_WHEEL, dx: 0, dy: 0, data: -240 })
    );
    let up = Message::KeyEvent { keycode: 105, pressed: false, modifiers: KeyModifiers::default() };
    assert_eq!(
        inj.input_for(&up),
        Some(WinInput::Key { vk: 0x25, flags: KEYEVENTF_SCANCODE | KEYEVENTF_KEYUP | KEYEVENTF_EXTENDEDKEY })
    );
    let down = Message::KeyEvent { keycode: 35, pressed: true, modifiers: KeyModifiers::default() };
    assert_eq!(inj.input_for(&down), Some(WinInput::Key { vk: 0x48, flags: KEYEVENTF_SCANCODE }));
    let punct = Message::KeyEvent { keycode: 39, pressed: true, modifiers: KeyModifiers::default() };
    assert_eq!(inj.input_for(&punct), Some(WinInput::UnmappedKey { code: 39 }));
    let huge = Message::KeyEvent { keycode: 1 << 20, pressed: true, modifiers: KeyModifiers::default() };
    assert_eq!(inj.input_for(&huge), None);
    assert_eq!(inj.input_for(&Message::Ping { nonce: 3 }), None);
}

#[test]
fn windows_mouse_hook() {
    let mut hook = MouseHook::new();
    let v = hook.on_event(HC_ACTION, WM_MOUSEMOVE, 100, 100, 0, false);
    assert!(v.message.is_none());
    assert!(!v.swallow);
    let v = hook.on_event(HC_ACTION, WM_MOUSEMOVE, 103, 95, 0, true);
    assert!(matches!(v.message, Some(Message::MouseMove { dx: 3, dy: -5 })));
    assert!(v.swallow);
    let v = hook.on_event(HC_ACTION, WM_LBUTTONDOWN, 0, 0, 0, false);
    assert!(matches!(v.message, Some(Message::MouseButton { button: MouseButton::Left, pressed: true })));
    // A wheel delta of -240 sits in the high word as 0xFF10.
    let v = hook.on_event(HC_ACTION, WM_MOUSEWHEEL, 0, 0, 0xFF10_0000, false);
    assert!(matches!(v.message, Some(Message::MouseWheel { dx: 0, dy: -2 })));
    let v = hook.on_event(HC_ACTION, WM_MOUSEWHEEL, 0, 0, 120 << 16, false);
    assert!(matches!(v.message, Some(Message::MouseWheel { dx: 0, dy: 1 })));
    let v = hook.on_event(-1, WM_MOUSEMOVE, 500, 500, 0, true);
    assert!(v.message.is_none());
    assert!(!v.swallow);
    assert_eq!(hook.last_pos, Some((103, 95)));
}

#[test]
fn windows_keyboard_hook() {
    let mods = modifiers_from_keys(true, false, false, false, true);
    assert_eq!(mods, KeyModifiers { shift: true, ctrl: false, alt: false, meta: true });
    let v = on_key_event(HC_ACTION, WM_KEYDOWN, 0x48, mods, false);
    match v.message {
        Some(Message::KeyEvent { keycode: 35, pressed: true, modifiers }) => assert_eq!(modifiers, mods),
        other => panic!("got {other:?}"),
    }
    let v = on_key_event(HC_ACTION, WM_SYSKEYDOWN, 0xA4, mods, true);
    assert!(matches!(v.message, Some(Message::KeyEvent { keycode: 56, pressed: true, .. })));
    assert!(v.swallow);
    let v = on_key_event(HC_ACTION, WM_KEYUP, 0xAD, mods, false);
    assert!(v.message.is_none());
    assert_eq!(v.unmapped, Some(0xAD));
    let v = on_key_event(1, WM_KEYUP, 0x48, mods, true);
    assert!(v.message.is_none() && v.unmapped.is_none() && !v.toggle_grab && !v.swallow);
}

#[test]
fn windows_grab_hotkey() {
    let all = modifiers_from_keys(true, true, true, false, false);
    // The hotkey toggles the grab and is forwarded like any key; it is
    // swallowed only while input is grabbed.
    let v = on_key_event(HC_ACTION, WM_SYSKEYDOWN, 0x47, all, false);
    assert!(v.toggle_grab && !v.swallow);
    assert!(matches!(v.message, Some(Message::KeyEvent { keycode: 34, pressed: true, .. })));
    let v = on_key_event(HC_ACTION, WM_KEYDOWN, 0x47, all, true);
    assert!(v.toggle_grab && v.swallow);
    assert!(matches!(v.message, Some(Message::KeyEvent { keycode: 34, pressed: true, .. })));
    // Without all three modifiers, G does not toggle.
    let some = modifiers_from_keys(true, true, false, false, false);
    let v = on_key_event(HC_ACTION, WM_KEYDOWN, 0x47, some, false);
    assert!(!v.toggle_grab && !v.swallow);
    // The release of G does not toggle.
    let v = on_key_event(HC_ACTION, WM_KEYUP, 0x47, all, true);
    assert!(!v.toggle_grab && v.swallow);
    assert!(matches!(v.message, Some(Message::KeyEvent { keycode: 34, pressed: false, .. })));
}

#[test]
fn linux_declares_every_mapped_key_and_pointer_event() {
    let keys = inject_key_codes();
    let axes = inject_relative_axes();
    for vk in 0u32..=0xFF {
        if let Some(code) = dshare::vk_to_evdev(vk) {
            assert!(keys.contains(&code), "code {code} not declared");
        }
    }
    let pointer = [
        Message::MouseMove { dx: 3, dy: -3 },
        Message::MouseWheel { dx: -1, dy: 2 },
        Message::MouseButton { button: MouseButton::Left, pressed: true },
        Message::MouseButton { button: MouseButton::Right, pressed: false },
        Message::MouseButton { button: MouseButton::Middle, pressed: true },
        Message::MouseButton { button: MouseButton::Back, pressed: true },
        Message::MouseButton { button: MouseButton::Forward, pressed: true },
    ];
    for m in &pointer {
        for e in inject_events(m) {
            match e.event_type {
                EV_REL => assert!(axes.contains(&e.code)),
                EV_KEY => assert!(keys.contains(&e.code)),
                other => panic!("unexpected event type {other}"),
            }
        }
    }
}

#[test]
fn windows_key_capture_inject_roundtrip() {
    let inj = WinInject::new();
    let mods = KeyModifiers::default();
    for (vk, pressed) in [(0x48u32, true), (0x25, false), (0xA5, true), (0x7B, false)] {
        let wm = if pressed { WM_KEYDOWN } else { WM_KEYUP };
        let captured = on_key_event(HC_ACTION, wm, vk, mods, false).message.expect("key event");
        match inj.input_for(&captured) {
            Some(WinInput::Key { vk: back, flags }) => {
                assert_eq!(back as u32, vk);
                assert_eq!(flags & KEYEVENTF_KEYUP != 0, !pressed);
            }
            other => panic!("got {other:?}"),
        }
    }
}

#[test]
fn windows_motion_deltas_add_up() {
    let mut hook = MouseHook::new();
    hook.on_event(HC_ACTION, WM_MOUSEMOVE, 10, 20, 0, false);
    let mut sum = (0, 0);
    for (x, y) in [(12, 20), (15, 18), (10, 20)] {
        if let Some(Message::MouseMove { dx, dy }) = hook.on_event(HC_ACTION, WM_MOUSEMOVE, x, y, 0, false).message {
            sum.0 += dx;
            sum.1 += dy;
        }
    }
    assert_eq!(sum, (0, 0));
}
