use clip_relay::clipboard::{
    clipboard_byte_size, clipboard_text, clipboard_units, read_clipboard_text, units_before_nul,
    with_leading_newline, write_clipboard_text, ReadAttempt, ReadStep, WriteAttempt, WriteStep,
};
use clip_relay::window::{get_window_under_cursor, layered_ex_style, window_title, WS_EX_LAYERED};

#[test]
fn encodes_bmp_and_astral_characters() {
    assert_eq!(clipboard_units("Ab"), vec![0x41, 0x62, 0]);
    assert_eq!(clipboard_units(""), vec![0]);
    assert_eq!(clipboard_units("é😀"), vec![0xE9, 0xD83D, 0xDE00, 0]);
    let s = "mixed ✓ text 𝄞";
    let mut expected: Vec<u16> = s.encode_utf16().collect();
    expected.push(0);
    assert_eq!(clipboard_units(s), expected);
}

#[test]
fn byte_size_is_twice_the_units() {
    assert_eq!(clipboard_byte_size(&clipboard_units("abc")), Some(8));
}

#[test]
fn nul_terminated_length() {
    assert_eq!(units_before_nul(&[0x41, 0x42, 0, 0x43]), 2);
    assert_eq!(units_before_nul(&[0x41, 0x42]), 2);
    assert_eq!(units_before_nul(&[0]), 0);
    assert_eq!(units_before_nul(&[]), 0);
}

#[test]
fn decodes_up_to_nul_and_replaces_lone_surrogates() {
    assert_eq!(clipboard_text(&[0x48, 0x69, 0, 0x58]), "Hi");
    assert_eq!(clipboard_text(&[0xD83D, 0xDE00, 0]), "😀");
    assert_eq!(clipboard_text(&[0xD83D, 0x41, 0]), "\u{FFFD}A");
    assert_eq!(clipboard_text(&[0xDE00, 0]), "\u{FFFD}");
    assert_eq!(clipboard_text(&[]), "");
}

#[test]
fn round_trip_through_clipboard_units() {
    let s = "Zeile 1\r\nline 2 — ✓ 😀";
    assert_eq!(clipboard_text(&clipboard_units(s)), s);
}

#[test]
fn leading_newline() {
    assert_eq!(with_leading_newline("abc"), "\nabc");
    assert_eq!(with_leading_newline(""), "\n");
}

#[test]
fn read_retries_only_busy_clipboard() {
    assert_eq!(read_clipboard_text(0, ReadAttempt::Busy), ReadStep::Retry { millis: 15 });
    assert_eq!(read_clipboard_text(3, ReadAttempt::Busy), ReadStep::Retry { millis: 15 });
    assert_eq!(read_clipboard_text(4, ReadAttempt::Busy), ReadStep::GiveUp { millis: 15 });
    assert_eq!(read_clipboard_text(0, ReadAttempt::NoText), ReadStep::Finish { text: None });
    assert_eq!(read_clipboard_text(2, ReadAttempt::LockFailed), ReadStep::Finish { text: None });
    assert_eq!(
        read_clipboard_text(1, ReadAttempt::Locked { units: vec![0x6F, 0x6B, 0, 0x21] }),
        ReadStep::Finish { text: Some("ok".to_string()) }
    );
}

#[test]
fn write_retries_and_stops() {
    for a in [WriteAttempt::Busy, WriteAttempt::EmptyFailed, WriteAttempt::SetFailed] {
        assert_eq!(write_clipboard_text(0, a), WriteStep::Retry { millis: 15 });
    }
    assert_eq!(write_clipboard_text(4, WriteAttempt::SetFailed), WriteStep::GiveUp { millis: 15 });
    assert_eq!(write_clipboard_text(0, WriteAttempt::AllocFailed), WriteStep::Finish { stored: false });
    assert_eq!(write_clipboard_text(1, WriteAttempt::LockFailed), WriteStep::Finish { stored: false });
    assert_eq!(write_clipboard_text(4, WriteAttempt::Stored), WriteStep::Finish { stored: true });
}

#[test]
fn at_most_five_attempts() {
    let mut tries = 0u32;
    loop {
        tries += 1;
        match read_clipboard_text(tries - 1, ReadAttempt::Busy) {
            ReadStep::Retry { .. } => continue,
            _ => break,
        }
    }
    assert_eq!(tries, 5);
}

#[test]
fn layered_style_bit() {
    assert_eq!(WS_EX_LAYERED, 0x80000);
    assert_eq!(layered_ex_style(0x100), Some(0x80100));
    assert_eq!(layered_ex_style(0x80100), None);
}

#[test]
fn titles() {
    let mut buf = [0u16; 512];
    for (i, u) in "Notepad".encode_utf16().enumerate() {
        buf[i] = u;
    }
    assert_eq!(window_title(&buf, 7), "Notepad");
    assert_eq!(window_title(&buf, 3), "Not");
    assert_eq!(window_title(&buf, 0), "Untitled Window");
    assert_eq!(window_title(&buf, -1), "Untitled Window");
}

#[test]
fn probe_results() {
    let buf = [0x41u16, 0x42];
    assert_eq!(get_window_under_cursor(0, 5, &buf, 2), None);
    assert_eq!(get_window_under_cursor(3, 0, &buf, 2), None);
    assert_eq!(get_window_under_cursor(3, 5, &buf, 2), Some((5, "AB".to_string())));
    assert_eq!(get_window_under_cursor(3, 5, &buf, 0), Some((5, "Untitled Window".to_string())));
}
