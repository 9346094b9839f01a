use clip_relay::focus::{
    force_foreground_fallback, force_foreground_start, force_foreground_switch, FocusStep, VK_MENU,
};
use clip_relay::keys::{
    send_copy, send_paste, shortcut_keys, KeyStep, VK_C, VK_CONTROL, VK_LSHIFT, VK_RSHIFT, VK_SHIFT, VK_V,
};

fn held_after(steps: &[KeyStep], vk: u8, down: bool) -> bool {
    let mut held = down;
    for s in steps {
        match s {
            KeyStep::Press { vk: k } if *k == vk => held = true,
            KeyStep::Release { vk: k } if *k == vk => held = false,
            _ => {}
        }
    }
    held
}

#[test]
fn copy_without_modifiers_wraps_in_ctrl() {
    assert_eq!(
        send_copy(false, false, false),
        vec![
            KeyStep::Press { vk: VK_CONTROL },
            KeyStep::Sleep { millis: 10 },
            KeyStep::Press { vk: 0x43 },
            KeyStep::Sleep { millis: 10 },
            KeyStep::Release { vk: 0x43 },
            KeyStep::Sleep { millis: 10 },
            KeyStep::Release { vk: VK_CONTROL },
        ]
    );
}

#[test]
fn paste_with_ctrl_and_left_shift_held() {
    assert_eq!(
        send_paste(true, true, false),
        vec![
            KeyStep::Release { vk: VK_LSHIFT },
            KeyStep::Release { vk: VK_SHIFT },
            KeyStep::Sleep { millis: 20 },
            KeyStep::Press { vk: 0x56 },
            KeyStep::Sleep { millis: 10 },
            KeyStep::Release { vk: 0x56 },
            KeyStep::Press { vk: VK_LSHIFT },
            KeyStep::Press { vk: VK_SHIFT },
        ]
    );
}

#[test]
fn modifiers_restored_in_every_case() {
    for bits in 0..8u8 {
        let (ctrl, l, r) = (bits & 1 != 0, bits & 2 != 0, bits & 4 != 0);
        for key in [VK_C, VK_V] {
            let steps = shortcut_keys(key, ctrl, l, r);
            assert_eq!(held_after(&steps, VK_CONTROL, ctrl), ctrl);
            assert_eq!(held_after(&steps, VK_LSHIFT, l), l);
            assert_eq!(held_after(&steps, VK_RSHIFT, r), r);
            assert_eq!(held_after(&steps, VK_SHIFT, l || r), l || r);
            assert!(!held_after(&steps, key, false));
            let i = steps.iter().position(|s| *s == KeyStep::Press { vk: key }).unwrap();
            assert!(held_after(&steps[..i], VK_CONTROL, ctrl));
            assert!(!held_after(&steps[..i], VK_SHIFT, l || r));
            assert!(!held_after(&steps[..i], VK_LSHIFT, l));
            assert!(!held_after(&steps[..i], VK_RSHIFT, r));
        }
    }
}

#[test]
fn focus_start_cases() {
    assert_eq!(force_foreground_start(false, true), None);
    assert_eq!(
        force_foreground_start(true, true),
        Some(vec![FocusStep::Restore, FocusStep::KeyDown { vk: VK_MENU }, FocusStep::KeyUp { vk: 0x12 }])
    );
    assert_eq!(
        force_foreground_start(true, false),
        Some(vec![FocusStep::KeyDown { vk: VK_MENU }, FocusStep::KeyUp { vk: VK_MENU }])
    );
}

#[test]
fn focus_switch_attaches_other_thread() {
    assert_eq!(
        force_foreground_switch(4, 9),
        vec![
            FocusStep::AttachInput { from: 4, to: 9 },
            FocusStep::SetForeground,
            FocusStep::SetFocus,
            FocusStep::DetachInput { from: 4, to: 9 },
        ]
    );
    assert_eq!(force_foreground_switch(9, 9), vec![FocusStep::SetForeground, FocusStep::SetFocus]);
}

#[test]
fn focus_fallback_only_when_needed() {
    assert_eq!(force_foreground_fallback(true, 1, 9), vec![]);
    assert_eq!(
        force_foreground_fallback(false, 1, 9),
        vec![
            FocusStep::AttachInput { from: 1, to: 9 },
            FocusStep::SetForeground,
            FocusStep::SetFocus,
            FocusStep::DetachInput { from: 1, to: 9 },
        ]
    );
}
