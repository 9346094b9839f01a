use clip_relay::paste::{PasteAction, PasteJob, PasteReply, PasteSession};

/// Drives a routine against a world whose clipboard holds `clipboard` and
/// whose writes report `write_ok`; returns the actions and what the
/// clipboard holds in the end.
fn drive(job: PasteJob, clipboard: Option<&str>, write_ok: bool) -> (Vec<PasteAction>, Option<String>) {
    let mut board: Option<String> = clipboard.map(|t| t.to_string());
    let (mut session, mut action) = PasteSession::start(job);
    let mut actions = Vec::new();
    for _ in 0..40 {
        let reply = match &action {
            PasteAction::ReadClipboard => PasteReply::ClipboardText { text: board.clone() },
            PasteAction::WriteClipboard { text } => {
                if write_ok {
                    board = Some(text.clone());
                }
                PasteReply::ClipboardWritten { stored: write_ok }
            }
            _ => PasteReply::Done,
        };
        let finished = action == PasteAction::Finished;
        actions.push(action);
        if finished {
            break;
        }
        action = session.advance(reply);
    }
    assert!(session.is_finished());
    (actions, board)
}

fn job(prepend: bool, main: isize) -> PasteJob {
    PasteJob { source: 10, target: 20, prepend_newline: prepend, main_hwnd: main }
}

#[test]
fn plain_relay_pastes_and_returns() {
    let (actions, board) = drive(job(false, 900), Some("hello"), true);
    assert_eq!(
        actions,
        vec![
            PasteAction::ReadClipboard,
            PasteAction::ForceForeground { hwnd: 20 },
            PasteAction::Sleep { millis: 45 },
            PasteAction::SendPaste,
            PasteAction::Sleep { millis: 35 },
            PasteAction::ForceForeground { hwnd: 10 },
            PasteAction::Sleep { millis: 45 },
            PasteAction::PostUnpause { hwnd: 900 },
            PasteAction::Finished,
        ]
    );
    assert_eq!(board.as_deref(), Some("hello"));
}

#[test]
fn newline_relay_copies_prepends_and_restores() {
    let (actions, board) = drive(job(true, 900), Some("line"), true);
    assert_eq!(
        actions,
        vec![
            PasteAction::SendCopy,
            PasteAction::Sleep { millis: 40 },
            PasteAction::ReadClipboard,
            PasteAction::WriteClipboard { text: "\nline".to_string() },
            PasteAction::ForceForeground { hwnd: 20 },
            PasteAction::Sleep { millis: 45 },
            PasteAction::SendPaste,
            PasteAction::Sleep { millis: 35 },
            PasteAction::WriteClipboard { text: "line".to_string() },
            PasteAction::ForceForeground { hwnd: 10 },
            PasteAction::Sleep { millis: 45 },
            PasteAction::PostUnpause { hwnd: 900 },
            PasteAction::Finished,
        ]
    );
    assert_eq!(board.as_deref(), Some("line"));
}

#[test]
fn failed_prepend_write_is_not_restored() {
    let (actions, board) = drive(job(true, 900), Some("line"), false);
    let writes: Vec<&PasteAction> =
        actions.iter().filter(|a| matches!(a, PasteAction::WriteClipboard { .. })).collect();
    assert_eq!(writes, vec![&PasteAction::WriteClipboard { text: "\nline".to_string() }]);
    assert_eq!(board.as_deref(), Some("line"));
}

#[test]
fn empty_clipboard_is_not_prepended() {
    let (actions, _) = drive(job(true, 900), Some(""), true);
    assert!(!actions.iter().any(|a| matches!(a, PasteAction::WriteClipboard { .. })));
    let (actions, board) = drive(job(true, 900), None, true);
    assert!(!actions.iter().any(|a| matches!(a, PasteAction::WriteClipboard { .. })));
    assert_eq!(board, None);
}

#[test]
fn unknown_main_window_posts_nothing() {
    let (actions, _) = drive(job(false, 0), Some("x"), true);
    assert!(!actions.iter().any(|a| matches!(a, PasteAction::PostUnpause { .. })));
    assert_eq!(actions.last(), Some(&PasteAction::Finished));
    assert_eq!(actions.len(), 8);
}

#[test]
fn unexpected_reply_counts_as_failed_read() {
    let (mut session, first) = PasteSession::start(job(true, 0));
    assert_eq!(first, PasteAction::SendCopy);
    assert_eq!(session.advance(PasteReply::Done), PasteAction::Sleep { millis: 40 });
    assert_eq!(session.advance(PasteReply::Done), PasteAction::ReadClipboard);
    assert_eq!(session.advance(PasteReply::Done), PasteAction::ForceForeground { hwnd: 20 });
    assert_eq!(session.job(), job(true, 0));
}

#[test]
fn finished_routine_stays_finished() {
    let (actions, _) = drive(job(false, 0), Some("x"), true);
    assert_eq!(actions.last(), Some(&PasteAction::Finished));
    let (mut session, _) = PasteSession::start(job(false, 0));
    let mut last = PasteAction::ReadClipboard;
    for _ in 0..20 {
        last = session.advance(PasteReply::Done);
    }
    assert_eq!(last, PasteAction::Finished);
    assert!(session.is_finished());
}
