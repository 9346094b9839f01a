use clip_relay::paste::PasteJob;
use clip_relay::relay::{
    decode_message, names_slot_a, Reaction, RelayState, WindowMessage, HOTKEY_ID, WM_CLIPBOARDUPDATE,
    WM_CUSTOM_UNPAUSE, WM_DESTROY, WM_EXITSIZEMOVE, WM_HOTKEY,
};

fn armed_state(a: Option<isize>, b: Option<isize>) -> RelayState {
    let mut s = RelayState::new();
    s.set_slot("A".to_string(), a, Some("Alpha".to_string()));
    s.set_slot("B".to_string(), b, Some("Beta".to_string()));
    s.set_main_window(900);
    s.set_active(true);
    s
}

#[test]
fn new_state_is_empty_and_inactive() {
    let s = RelayState::new();
    let snap = s.get_slots();
    assert_eq!(snap.hwnd_a, None);
    assert_eq!(snap.hwnd_b, None);
    assert_eq!(snap.title_a, "");
    assert_eq!(snap.title_b, "");
    assert!(!snap.is_active);
    assert!(!s.is_armed());
}

#[test]
fn set_slot_a_and_other_names() {
    let mut s = RelayState::new();
    s.set_slot("A".to_string(), Some(11), Some("Editor".to_string()));
    s.set_slot("B".to_string(), Some(22), None);
    s.set_slot("a".to_string(), Some(33), Some("lower".to_string()));
    let snap = s.get_slots();
    assert_eq!(snap.hwnd_a, Some(11));
    assert_eq!(snap.title_a, "Editor");
    // any name other than "A" fills slot B
    assert_eq!(snap.hwnd_b, Some(33));
    assert_eq!(snap.title_b, "lower");
    s.set_slot("A".to_string(), None, None);
    let snap = s.get_slots();
    assert_eq!(snap.hwnd_a, None);
    assert_eq!(snap.title_a, "");
    assert_eq!(snap.hwnd_b, Some(33));
}

#[test]
fn slot_names() {
    assert!(names_slot_a("A"));
    assert!(!names_slot_a("B"));
    assert!(!names_slot_a("AA"));
    assert!(!names_slot_a(""));
}

#[test]
fn decode_known_messages() {
    assert_eq!(decode_message(WM_CLIPBOARDUPDATE, 0), WindowMessage::ClipboardUpdate);
    assert_eq!(decode_message(WM_HOTKEY, 101), WindowMessage::Hotkey { id: 101 });
    assert_eq!(decode_message(WM_CUSTOM_UNPAUSE, 0), WindowMessage::Unpause);
    assert_eq!(WM_CUSTOM_UNPAUSE, 0x0464);
    assert_eq!(decode_message(WM_EXITSIZEMOVE, 0), WindowMessage::ExitSizeMove);
    assert_eq!(decode_message(WM_DESTROY, 0), WindowMessage::Destroy);
    assert_eq!(decode_message(0x000F, 0), WindowMessage::Other);
}

#[test]
fn hotkey_id_is_truncated_to_i32() {
    let wparam: usize = (1usize << 32) + 101;
    assert_eq!(decode_message(WM_HOTKEY, wparam), WindowMessage::Hotkey { id: HOTKEY_ID });
}

#[test]
fn clipboard_update_relays_from_a_to_b() {
    let mut s = armed_state(Some(10), Some(20));
    assert_eq!(
        s.on_message(WindowMessage::ClipboardUpdate),
        Reaction::LocatePasteSource { prepend_newline: false }
    );
    assert!(!s.paste_target_missing(10));
    let job = s.begin_paste(10, false);
    assert_eq!(job, Some(PasteJob { source: 10, target: 20, prepend_newline: false, main_hwnd: 900 }));
    assert!(s.is_paused);
}

#[test]
fn hotkey_relays_from_b_to_a_with_newline() {
    let mut s = armed_state(Some(10), Some(20));
    assert_eq!(
        s.on_message(WindowMessage::Hotkey { id: 101 }),
        Reaction::LocatePasteSource { prepend_newline: true }
    );
    let job = s.begin_paste(20, true);
    assert_eq!(job, Some(PasteJob { source: 20, target: 10, prepend_newline: true, main_hwnd: 900 }));
}

#[test]
fn other_hotkey_is_consumed() {
    let mut s = armed_state(Some(10), Some(20));
    assert_eq!(s.on_message(WindowMessage::Hotkey { id: 7 }), Reaction::Consume);
    assert!(!s.is_paused);
}

#[test]
fn copy_from_unbound_window_is_ignored() {
    let mut s = armed_state(Some(10), Some(20));
    assert_eq!(s.begin_paste(30, false), None);
    assert!(!s.is_paused);
}

#[test]
fn inactive_relay_consumes_clipboard_updates() {
    let mut s = armed_state(Some(10), Some(20));
    s.set_active(false);
    assert_eq!(s.on_message(WindowMessage::ClipboardUpdate), Reaction::Consume);
    assert_eq!(s.begin_paste(10, false), None);
}

#[test]
fn copies_ignored_while_pasting_until_unpause() {
    let mut s = armed_state(Some(10), Some(20));
    let first = s.begin_paste(10, false);
    assert!(first.is_some());
    assert_eq!(s.on_message(WindowMessage::ClipboardUpdate), Reaction::Consume);
    assert_eq!(s.begin_paste(20, false), None);
    assert_eq!(s.on_message(WindowMessage::Unpause), Reaction::Consume);
    assert!(!s.is_paused);
    assert_eq!(s.begin_paste(10, false), first);
}

#[test]
fn missing_partner_slot_is_detected() {
    let s = armed_state(Some(10), None);
    assert!(s.paste_target_missing(10));
    assert!(!s.paste_target_missing(30));
    let s = armed_state(None, Some(20));
    assert!(s.paste_target_missing(20));
    let mut s = armed_state(Some(10), None);
    s.set_active(false);
    assert!(!s.paste_target_missing(10));
}

#[test]
fn same_window_in_both_slots_pastes_into_itself() {
    let mut s = armed_state(Some(10), Some(10));
    assert_eq!(
        s.begin_paste(10, false),
        Some(PasteJob { source: 10, target: 10, prepend_newline: false, main_hwnd: 900 })
    );
}

#[test]
fn unknown_main_window_gives_zero() {
    let mut s = RelayState::new();
    s.set_slot("A".to_string(), Some(1), None);
    s.set_slot("B".to_string(), Some(2), None);
    s.set_active(true);
    assert_eq!(s.begin_paste(1, false).map(|j| j.main_hwnd), Some(0));
}

#[test]
fn drag_end_probes_once() {
    let mut s = armed_state(None, None);
    assert_eq!(s.on_message(WindowMessage::ExitSizeMove), Reaction::Forward);
    s.start_drag_detect();
    assert_eq!(s.on_message(WindowMessage::ExitSizeMove), Reaction::ProbeAndForward { main_hwnd: 900 });
    assert!(!s.is_dragging_detect);
    assert_eq!(s.on_message(WindowMessage::ExitSizeMove), Reaction::Forward);
}

#[test]
fn destroy_and_other_messages_are_forwarded() {
    let mut s = armed_state(Some(1), Some(2));
    assert_eq!(s.on_message(WindowMessage::Destroy), Reaction::DetachAndForward);
    assert_eq!(s.on_message(WindowMessage::Other), Reaction::Forward);
}

#[test]
fn binding_fills_a_then_b_then_replaces_a() {
    let mut s = RelayState::new();
    assert!(s.bind_target(900, 1, "one".to_string()));
    assert!(s.bind_target(900, 2, "two".to_string()));
    assert!(s.bind_target(900, 3, "three".to_string()));
    let snap = s.get_slots();
    assert_eq!(snap.hwnd_a, Some(3));
    assert_eq!(snap.title_a, "three");
    assert_eq!(snap.hwnd_b, Some(2));
    assert_eq!(snap.title_b, "two");
}

#[test]
fn binding_rejects_main_window_and_bound_windows() {
    let mut s = RelayState::new();
    assert!(!s.bind_target(900, 900, "relay".to_string()));
    assert!(s.bind_target(900, 1, "one".to_string()));
    assert!(!s.bind_target(900, 1, "again".to_string()));
    let snap = s.get_slots();
    assert_eq!(snap.hwnd_a, Some(1));
    assert_eq!(snap.title_a, "one");
    assert_eq!(snap.hwnd_b, None);
}

#[test]
fn binding_fills_b_when_only_a_is_empty() {
    let mut s = RelayState::new();
    s.set_slot("B".to_string(), Some(5), None);
    assert!(s.bind_target(900, 6, "six".to_string()));
    assert_eq!(s.get_slots().hwnd_a, Some(6));
}
