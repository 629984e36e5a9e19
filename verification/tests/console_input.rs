use rawuefi::simple_text_input::EFI_INPUT_KEY;
use rawuefi::simple_text_input::EFI_SIMPLE_TEXT_INPUT_PROTOCOL;
use rawuefi::simple_text_input_ex::EFI_CAPS_LOCK_ACTIVE;
use rawuefi::simple_text_input_ex::EFI_KEY_DATA;
use rawuefi::simple_text_input_ex::EFI_KEY_STATE;
use rawuefi::simple_text_input_ex::EFI_SHIFT_STATE_VALID;
use rawuefi::simple_text_input_ex::EFI_SIMPLE_TEXT_INPUT_EX_PROTOCOL;
use rawuefi::simple_text_input_ex::EFI_TOGGLE_STATE_VALID;
use rawuefi::status::EFI_INVALID_PARAMETER;
use rawuefi::status::EFI_NOT_READY;
use rawuefi::status::EFI_SUCCESS;
use rawuefi::status::EFI_UNSUPPORTED;
use rawuefi::status::ERROR_BIT;

fn key(scan: u16, ch: u16) -> EFI_INPUT_KEY {
    EFI_INPUT_KEY { ScanCode: scan, UnicodeChar: ch }
}

fn key_data(scan: u16, ch: u16) -> EFI_KEY_DATA {
    EFI_KEY_DATA {
        Key: key(scan, ch),
        KeyState: EFI_KEY_STATE {
            KeyShiftState: EFI_SHIFT_STATE_VALID,
            KeyToggleState: EFI_TOGGLE_STATE_VALID,
        },
    }
}

#[test]
fn read_keystroke_on_empty_queue_is_not_ready() {
    let mut dev = EFI_SIMPLE_TEXT_INPUT_PROTOCOL::new(0x1000);
    let mut out = key(0xAB, 0xCD);
    let status = dev.ReadKeyStroke(&mut out);
    assert_eq!(status, EFI_NOT_READY);
    assert_ne!(status & ERROR_BIT, 0, "not-ready is an error status");
    assert_eq!(out, key(0xAB, 0xCD), "the key buffer is not populated");
}

#[test]
fn read_keystroke_returns_keys_oldest_first() {
    let mut dev = EFI_SIMPLE_TEXT_INPUT_PROTOCOL::new(0);
    dev.key_arrives(key(0x17, 0));
    dev.key_arrives(key(0, 0x41));
    let mut out = key(0, 0);
    assert_eq!(dev.ReadKeyStroke(&mut out), EFI_SUCCESS);
    assert_eq!(out, key(0x17, 0));
    assert_eq!(dev.ReadKeyStroke(&mut out), EFI_SUCCESS);
    assert_eq!(out, key(0, 0x41));
    assert_eq!(dev.ReadKeyStroke(&mut out), EFI_NOT_READY);
}

#[test]
fn reset_clears_the_input_queue() {
    let mut dev = EFI_SIMPLE_TEXT_INPUT_PROTOCOL::new(7);
    dev.key_arrives(key(1, 2));
    assert_eq!(dev.Reset(1), EFI_SUCCESS);
    let mut out = key(9, 9);
    assert_eq!(dev.ReadKeyStroke(&mut out), EFI_NOT_READY);
    assert_eq!(dev.wait_for_key(), 7);
}

#[test]
fn read_keystroke_ex_on_empty_queue_is_not_ready() {
    let mut dev = EFI_SIMPLE_TEXT_INPUT_EX_PROTOCOL::new();
    let mut out = key_data(0x55, 0x66);
    let status = dev.ReadKeyStrokeEx(&mut out);
    assert_eq!(status, EFI_NOT_READY);
    assert_eq!(out, key_data(0x55, 0x66), "the key data buffer is not populated");
}

#[test]
fn read_keystroke_ex_returns_queued_state() {
    let mut dev = EFI_SIMPLE_TEXT_INPUT_EX_PROTOCOL::new();
    dev.key_arrives(key_data(0, 0x46));
    let mut out = key_data(0, 0);
    assert_eq!(dev.ReadKeyStrokeEx(&mut out), EFI_SUCCESS);
    assert_eq!(out.Key.UnicodeChar, 0x46);
    assert_eq!(out.KeyState.KeyShiftState, EFI_SHIFT_STATE_VALID);
}

#[test]
fn set_state_accepts_defined_toggle_bits() {
    let mut dev = EFI_SIMPLE_TEXT_INPUT_EX_PROTOCOL::new();
    let status = dev.SetState(EFI_TOGGLE_STATE_VALID | EFI_CAPS_LOCK_ACTIVE);
    assert_eq!(status, EFI_SUCCESS);
}

#[test]
fn set_state_rejects_undefined_or_invalid_requests() {
    let mut dev = EFI_SIMPLE_TEXT_INPUT_EX_PROTOCOL::new();
    assert_eq!(dev.SetState(EFI_CAPS_LOCK_ACTIVE), EFI_UNSUPPORTED, "valid bit missing");
    assert_eq!(dev.SetState(EFI_TOGGLE_STATE_VALID | 0x10), EFI_UNSUPPORTED, "undefined bit set");
}

#[test]
fn register_key_notify_returns_distinct_handles() {
    let mut dev = EFI_SIMPLE_TEXT_INPUT_EX_PROTOCOL::new();
    let mut h1: usize = 0;
    let mut h2: usize = 0;
    assert_eq!(dev.RegisterKeyNotify(key_data(0, 0x61), &mut h1), EFI_SUCCESS);
    assert_eq!(dev.RegisterKeyNotify(key_data(0, 0x62), &mut h2), EFI_SUCCESS);
    assert_ne!(h1, h2);
}

#[test]
fn unregister_with_a_never_returned_handle_is_invalid_parameter() {
    let mut dev = EFI_SIMPLE_TEXT_INPUT_EX_PROTOCOL::new();
    let mut h: usize = 0;
    assert_eq!(dev.RegisterKeyNotify(key_data(0, 0x61), &mut h), EFI_SUCCESS);
    let status = dev.UnregisterKeyNotify(h.wrapping_add(0x5A5A));
    assert_eq!(status, EFI_INVALID_PARAMETER);
}

#[test]
fn unregister_on_a_fresh_device_is_invalid_parameter() {
    let mut dev = EFI_SIMPLE_TEXT_INPUT_EX_PROTOCOL::new();
    assert_eq!(dev.UnregisterKeyNotify(1), EFI_INVALID_PARAMETER);
}

#[test]
fn unregister_removes_exactly_the_named_registration() {
    let mut dev = EFI_SIMPLE_TEXT_INPUT_EX_PROTOCOL::new();
    let mut h1: usize = 0;
    let mut h2: usize = 0;
    assert_eq!(dev.RegisterKeyNotify(key_data(0, 0x61), &mut h1), EFI_SUCCESS);
    assert_eq!(dev.RegisterKeyNotify(key_data(0, 0x62), &mut h2), EFI_SUCCESS);
    assert_eq!(dev.UnregisterKeyNotify(h1), EFI_SUCCESS);
    assert_eq!(dev.UnregisterKeyNotify(h1), EFI_INVALID_PARAMETER, "already unregistered");
    assert_eq!(dev.UnregisterKeyNotify(h2), EFI_SUCCESS, "the other registration survives");
}
