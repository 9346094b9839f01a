use vstd::prelude::*;
use crate::clipboard::with_leading_newline;

verus! {

/// One relay of a copy: focus moves from `source` to `target`, the
/// clipboard is pasted there, and focus comes back.
#[derive(Clone, Copy, Debug, PartialEq, Eq, Structural)]
pub struct PasteJob {
    /// The window the copy came from.
    pub source: isize,
    /// The window the text is pasted into.
    pub target: isize,
    /// Whether the routine copies the selection itself and pastes it on
    /// a line of its own.
    pub prepend_newline: bool,
    /// The relay's own window, told when the routine is over (0: none).
    pub main_hwnd: isize,
}

/// Pause after the copy keystroke, for the clipboard to update.
pub const COPY_SETTLE_MILLIS: u64 = 40;
/// Pause after a change of focus.
pub const FOCUS_SETTLE_MILLIS: u64 = 45;
/// Pause after the paste keystroke.
pub const PASTE_SETTLE_MILLIS: u64 = 35;

/// One piece of outside work that the paste routine asks for.
#[derive(Debug, PartialEq, Eq)]
pub enum PasteAction {
    /// Inject Ctrl+C into the foreground window.
    SendCopy,
    /// Wait this long.
    Sleep { millis: u64 },
    /// Read the clipboard's Unicode text.
    ReadClipboard,
    /// Put this text on the clipboard.
    WriteClipboard { text: String },
    /// Bring this window to the foreground.
    ForceForeground { hwnd: isize },
    /// Inject Ctrl+V into the foreground window.
    SendPaste,
    /// Post the unpause message to this window.
    PostUnpause { hwnd: isize },
    /// The routine is over.
    Finished,
}

/// `PasteAction` with its text as a character sequence.
pub enum ActionView {
    SendCopy,
    Sleep { millis: u64 },
    ReadClipboard,
    WriteClipboard { text: Seq<char> },
    ForceForeground { hwnd: isize },
    SendPaste,
    PostUnpause { hwnd: isize },
    Finished,
}

impl View for PasteAction {
    type V = ActionView;

    open spec fn view(&self) -> ActionView {
        match self {
            PasteAction::SendCopy => ActionView::SendCopy,
            PasteAction::Sleep { millis } => ActionView::Sleep { millis: *millis },
            PasteAction::ReadClipboard => ActionView::ReadClipboard,
            PasteAction::WriteClipboard { text } => ActionView::WriteClipboard { text: text@ },
            PasteAction::ForceForeground { hwnd } => ActionView::ForceForeground { hwnd: *hwnd },
            PasteAction::SendPaste => ActionView::SendPaste,
            PasteAction::PostUnpause { hwnd } => ActionView::PostUnpause { hwnd: *hwnd },
            PasteAction::Finished => ActionView::Finished,
        }
    }
}

/// The outcome of the last action, handed back to the routine.
#[derive(Debug, PartialEq, Eq)]
pub enum PasteReply {
    /// The action was carried out (all actions but reads and writes).
    Done,
    /// The clipboard's text, if it could be read.
    ClipboardText { text: Option<String> },
    /// Whether the text was stored on the clipboard.
    ClipboardWritten { stored: bool },
}

/// `PasteReply` with its text as a character sequence.
pub enum ReplyView {
    Done,
    ClipboardText { text: Option<Seq<char>> },
    ClipboardWritten { stored: bool },
}

impl View for PasteReply {
    type V = ReplyView;

    open spec fn view(&self) -> ReplyView {
        match self {
            PasteReply::Done => ReplyView::Done,
            PasteReply::ClipboardText { text } => ReplyView::ClipboardText {
                text: match text {
                    Some(t) => Some(t@),
                    None => None,
                },
            },
            PasteReply::ClipboardWritten { stored } => ReplyView::ClipboardWritten { stored: *stored },
        }
    }
}

/// Which action the routine has asked for last, and so which reply it awaits.
#[derive(Clone, Copy, Debug, PartialEq, Eq, Structural)]
pub enum PastePhase {
    Copying,
    CopySettling,
    Reading,
    Prepending,
    FocusingTarget,
    TargetSettling,
    Pasting,
    PasteSettling,
    Restoring,
    FocusingSource,
    SourceSettling,
    Unpausing,
    Finished,
}

/// A paste routine under way.
pub struct PasteSession {
    job: PasteJob,
    phase: PastePhase,
    original_text: String,
    modified: bool,
}

/// `PasteSession` with its text as a character sequence.
pub struct SessionView {
    pub job: PasteJob,
    pub phase: PastePhase,
    /// The clipboard text as it was read (empty when it could not be read).
    pub original_text: Seq<char>,
    /// Whether the clipboard now holds the text with a leading newline.
    pub modified: bool,
}

impl View for PasteSession {
    type V = SessionView;

    closed spec fn view(&self) -> SessionView {
        SessionView {
            job: self.job,
            phase: self.phase,
            original_text: self.original_text@,
            modified: self.modified,
        }
    }
}

/// The routine's first state and action: Ctrl+C when it copies the
/// selection itself, else the clipboard read.
pub open spec fn start_spec(job: PasteJob) -> (SessionView, ActionView) {
    let s = SessionView {
        job,
        phase: if job.prepend_newline {
            PastePhase::Copying
        } else {
            PastePhase::Reading
        },
        original_text: Seq::empty(),
        modified: false,
    };
    (s, if job.prepend_newline {
        ActionView::SendCopy
    } else {
        ActionView::ReadClipboard
    })
}

/// The text a read reply carries; empty when the read failed.
pub open spec fn read_text(r: ReplyView) -> Seq<char> {
    match r {
        ReplyView::ClipboardText { text: Some(t) } => t,
        _ => Seq::empty(),
    }
}

/// Whether a write reply reports the text stored.
pub open spec fn write_stored(r: ReplyView) -> bool {
    match r {
        ReplyView::ClipboardWritten { stored } => stored,
        _ => false,
    }
}

/// One move of the routine: given the reply to the last action, the next
/// state and the next action.
pub open spec fn step(s: SessionView, r: ReplyView) -> (SessionView, ActionView) {
    match s.phase {
        PastePhase::Copying => (
            SessionView { phase: PastePhase::CopySettling, ..s },
            ActionView::Sleep { millis: COPY_SETTLE_MILLIS },
        ),
        PastePhase::CopySettling => (
            SessionView { phase: PastePhase::Reading, ..s },
            ActionView::ReadClipboard,
        ),
        PastePhase::Reading => {
            let text = read_text(r);
            if s.job.prepend_newline && text.len() > 0 {
                (
                    SessionView { phase: PastePhase::Prepending, original_text: text, ..s },
                    ActionView::WriteClipboard { text: seq!['\n'] + text },
                )
            } else {
                (
                    SessionView { phase: PastePhase::FocusingTarget, original_text: text, ..s },
                    ActionView::ForceForeground { hwnd: s.job.target },
                )
            }
        },
        PastePhase::Prepending => (
            SessionView { phase: PastePhase::FocusingTarget, modified: write_stored(r), ..s },
            ActionView::ForceForeground { hwnd: s.job.target },
        ),
        PastePhase::FocusingTarget => (
            SessionView { phase: PastePhase::TargetSettling, ..s },
            ActionView::Sleep { millis: FOCUS_SETTLE_MILLIS },
        ),
        PastePhase::TargetSettling => (
            SessionView { phase: PastePhase::Pasting, ..s },
            ActionView::SendPaste,
        ),
        PastePhase::Pasting => (
            SessionView { phase: PastePhase::PasteSettling, ..s },
            ActionView::Sleep { millis: PASTE_SETTLE_MILLIS },
        ),
        PastePhase::PasteSettling => if s.modified {
            (
                SessionView { phase: PastePhase::Restoring, ..s },
                ActionView::WriteClipboard { text: s.original_text },
            )
        } else {
            (
                SessionView { phase: PastePhase::FocusingSource, ..s },
                ActionView::ForceForeground { hwnd: s.job.source },
            )
        },
        PastePhase::Restoring => (
            SessionView { phase: PastePhase::FocusingSource, ..s },
            ActionView::ForceForeground { hwnd: s.job.source },
        ),
        PastePhase::FocusingSource => (
            SessionView { phase: PastePhase::SourceSettling, ..s },
            ActionView::Sleep { millis: FOCUS_SETTLE_MILLIS },
        ),
        PastePhase::SourceSettling => if s.job.main_hwnd != 0 {
            (
                SessionView { phase: PastePhase::Unpausing, ..s },
                ActionView::PostUnpause { hwnd: s.job.main_hwnd },
            )
        } else {
            (SessionView { phase: PastePhase::Finished, ..s }, ActionView::Finished)
        },
        PastePhase::Unpausing => (
            SessionView { phase: PastePhase::Finished, ..s },
            ActionView::Finished,
        ),
        PastePhase::Finished => (s, ActionView::Finished),
    }
}

impl PasteSession {
    /// Starts the paste routine for `job` and returns its first action.
    pub fn start(job: PasteJob) -> (res: (PasteSession, PasteAction))
        ensures
            (res.0@, res.1@) == start_spec(job),
    {
        if job.prepend_newline {
            (
                PasteSession {
                    job,
                    phase: PastePhase::Copying,
                    original_text: String::new(),
                    modified: false,
                },
                PasteAction::SendCopy,
            )
        } else {
            (
                PasteSession {
                    job,
                    phase: PastePhase::Reading,
                    original_text: String::new(),
                    modified: false,
                },
                PasteAction::ReadClipboard,
            )
        }
    }

    /// The relay this routine carries out.
    pub fn job(&self) -> (job: PasteJob)
        ensures
            job == self@.job,
    {
        self.job
    }

    /// Whether the routine is over.
    pub fn is_finished(&self) -> (b: bool)
        ensures
            b == (self@.phase == PastePhase::Finished),
    {
        self.phase == PastePhase::Finished
    }

    /// Takes the reply to the last action and returns the next action.
    pub fn advance(&mut self, reply: PasteReply) -> (action: PasteAction)
        ensures
            (final(self)@, action@) == step(old(self)@, reply@),
    {
        match self.phase {
            PastePhase::Copying => {
                self.phase = PastePhase::CopySettling;
                PasteAction::Sleep { millis: COPY_SETTLE_MILLIS }
            },
            PastePhase::CopySettling => {
                self.phase = PastePhase::Reading;
                PasteAction::ReadClipboard
            },
            PastePhase::Reading => {
                let text = match reply {
                    PasteReply::ClipboardText { text: Some(t) } => t,
                    _ => String::new(),
                };
                if self.job.prepend_newline && !text.as_str().is_empty() {
                    let modified_text = with_leading_newline(text.as_str());
                    self.original_text = text;
                    self.phase = PastePhase::Prepending;
                    PasteAction::WriteClipboard { text: modified_text }
                } else {
                    self.original_text = text;
                    self.phase = PastePhase::FocusingTarget;
                    PasteAction::ForceForeground { hwnd: self.job.target }
                }
            },
            PastePhase::Prepending => {
                self.modified = match reply {
                    PasteReply::ClipboardWritten { stored } => stored,
                    _ => false,
                };
                self.phase = PastePhase::FocusingTarget;
                PasteAction::ForceForeground { hwnd: self.job.target }
            },
            PastePhase::FocusingTarget => {
                self.phase = PastePhase::TargetSettling;
                PasteAction::Sleep { millis: FOCUS_SETTLE_MILLIS }
            },
            PastePhase::TargetSettling => {
                self.phase = PastePhase::Pasting;
                PasteAction::SendPaste
            },
            PastePhase::Pasting => {
                self.phase = PastePhase::PasteSettling;
                PasteAction::Sleep { millis: PASTE_SETTLE_MILLIS }
            },
            PastePhase::PasteSettling => {
                if self.modified {
                    self.phase = PastePhase::Restoring;
                    PasteAction::WriteClipboard { text: self.original_text.clone() }
                } else {
                    self.phase = PastePhase::FocusingSource;
                    PasteAction::ForceForeground { hwnd: self.job.source }
                }
            },
            PastePhase::Restoring => {
                self.phase = PastePhase::FocusingSource;
                PasteAction::ForceForeground { hwnd: self.job.source }
            },
            PastePhase::FocusingSource => {
                self.phase = PastePhase::SourceSettling;
                PasteAction::Sleep { millis: FOCUS_SETTLE_MILLIS }
            },
            PastePhase::SourceSettling => {
                if self.job.main_hwnd != 0 {
                    self.phase = PastePhase::Unpausing;
                    PasteAction::PostUnpause { hwnd: self.job.main_hwnd }
                } else {
                    self.phase = PastePhase::Finished;
                    PasteAction::Finished
                }
            },
            PastePhase::Unpausing => {
                self.phase = PastePhase::Finished;
                PasteAction::Finished
            },
            PastePhase::Finished => PasteAction::Finished,
        }
    }
}

/// Everything the routine asks for, in order, when the clipboard read
/// gives `read` and the write of the text with a leading newline reports
/// `write_ok`:
/// Ctrl+C and a pause when it copies the selection itself; the read; the
/// text with a leading newline when it copied itself and the text is not
/// empty; focus to the target, a pause, Ctrl+V, a pause; the text as it
/// was read, when the newline version was stored; focus back to the
/// source, a pause; the unpause message when the relay's window is known.
pub open spec fn paste_plan(job: PasteJob, read: Option<Seq<char>>, write_ok: bool) -> Seq<ActionView> {
    let text = match read {
        Some(t) => t,
        None => Seq::empty(),
    };
    let prepends = job.prepend_newline && text.len() > 0;
    let modified = prepends && write_ok;
    (if job.prepend_newline {
        seq![ActionView::SendCopy, ActionView::Sleep { millis: COPY_SETTLE_MILLIS }]
    } else {
        Seq::empty()
    }) + seq![ActionView::ReadClipboard] + (if prepends {
        seq![ActionView::WriteClipboard { text: seq!['\n'] + text }]
    } else {
        Seq::empty()
    }) + seq![
        ActionView::ForceForeground { hwnd: job.target },
        ActionView::Sleep { millis: FOCUS_SETTLE_MILLIS },
        ActionView::SendPaste,
        ActionView::Sleep { millis: PASTE_SETTLE_MILLIS },
    ] + (if modified {
        seq![ActionView::WriteClipboard { text }]
    } else {
        Seq::empty()
    }) + seq![
        ActionView::ForceForeground { hwnd: job.source },
        ActionView::Sleep { millis: FOCUS_SETTLE_MILLIS },
    ] + (if job.main_hwnd != 0 {
        seq![ActionView::PostUnpause { hwnd: job.main_hwnd }]
    } else {
        Seq::empty()
    })
}

/// The reply an outside world gives in `phase` when every clipboard read
/// gives `read` and every clipboard write reports `write_ok`.
pub open spec fn reply_for(phase: PastePhase, read: Option<Seq<char>>, write_ok: bool) -> ReplyView {
    match phase {
        PastePhase::Reading => ReplyView::ClipboardText { text: read },
        PastePhase::Prepending => ReplyView::ClipboardWritten { stored: write_ok },
        PastePhase::Restoring => ReplyView::ClipboardWritten { stored: write_ok },
        _ => ReplyView::Done,
    }
}

/// The actions that follow state `s` in such a world, up to and including
/// `Finished`, for at most `fuel` moves.
pub open spec fn run(s: SessionView, read: Option<Seq<char>>, write_ok: bool, fuel: nat) -> Seq<ActionView>
    decreases fuel,
{
    if fuel == 0 || s.phase == PastePhase::Finished {
        Seq::empty()
    } else {
        let (next, action) = step(s, reply_for(s.phase, read, write_ok));
        seq![action] + run(next, read, write_ok, (fuel - 1) as nat)
    }
}

/// Every action of a routine started for `job` in such a world.
pub open spec fn session_actions(job: PasteJob, read: Option<Seq<char>>, write_ok: bool) -> Seq<ActionView> {
    seq![start_spec(job).1] + run(start_spec(job).0, read, write_ok, 16)
}

/// The last actions of every routine: the unpause message when the relay's
/// window is known, then `Finished`.
pub open spec fn closing_actions(job: PasteJob) -> Seq<ActionView> {
    (if job.main_hwnd != 0 {
        seq![ActionView::PostUnpause { hwnd: job.main_hwnd }]
    } else {
        Seq::empty()
    }).push(ActionView::Finished)
}

/// The actions from the pause after Ctrl+V on: the restore write when the
/// clipboard was changed, focus back to the source, a pause, the closing.
pub open spec fn after_paste_actions(s: SessionView) -> Seq<ActionView> {
    (if s.modified {
        seq![ActionView::WriteClipboard { text: s.original_text }]
    } else {
        Seq::empty()
    }) + seq![
        ActionView::ForceForeground { hwnd: s.job.source },
        ActionView::Sleep { millis: FOCUS_SETTLE_MILLIS },
    ] + closing_actions(s.job)
}

/// The actions from focusing the target on.
pub open spec fn from_target_actions(s: SessionView) -> Seq<ActionView> {
    seq![
        ActionView::ForceForeground { hwnd: s.job.target },
        ActionView::Sleep { millis: FOCUS_SETTLE_MILLIS },
        ActionView::SendPaste,
        ActionView::Sleep { millis: PASTE_SETTLE_MILLIS },
    ] + after_paste_actions(s)
}

proof fn lemma_run_closing(s: SessionView, read: Option<Seq<char>>, write_ok: bool, fuel: nat)
    requires
        s.phase == PastePhase::SourceSettling || s.phase == PastePhase::Unpausing,
        fuel >= 2,
    ensures
        s.phase == PastePhase::SourceSettling ==> run(s, read, write_ok, fuel) == closing_actions(s.job),
        s.phase == PastePhase::Unpausing ==> run(s, read, write_ok, fuel) == seq![ActionView::Finished],
{
    let (n1, a1) = step(s, reply_for(s.phase, read, write_ok));
    if s.phase == PastePhase::SourceSettling && s.job.main_hwnd != 0 {
        let (n2, a2) = step(n1, reply_for(n1.phase, read, write_ok));
        assert(run(n2, read, write_ok, (fuel - 2) as nat) == Seq::<ActionView>::empty());
        assert(run(n1, read, write_ok, (fuel - 1) as nat) =~= seq![ActionView::Finished]);
        assert(run(s, read, write_ok, fuel) =~= closing_actions(s.job));
    } else if s.phase == PastePhase::SourceSettling {
        assert(run(n1, read, write_ok, (fuel - 1) as nat) == Seq::<ActionView>::empty());
        assert(run(s, read, write_ok, fuel) =~= closing_actions(s.job));
    } else {
        assert(run(n1, read, write_ok, (fuel - 1) as nat) == Seq::<ActionView>::empty());
        assert(run(s, read, write_ok, fuel) =~= seq![ActionView::Finished]);
    }
}

proof fn lemma_run_after_paste(s: SessionView, read: Option<Seq<char>>, write_ok: bool, fuel: nat)
    requires
        s.phase == PastePhase::PasteSettling,
        fuel >= 6,
    ensures
        run(s, read, write_ok, fuel) == after_paste_actions(s),
{
    let (n1, a1) = step(s, reply_for(s.phase, read, write_ok));
    if s.modified {
        let (n2, a2) = step(n1, reply_for(n1.phase, read, write_ok));
        let (n3, a3) = step(n2, reply_for(n2.phase, read, write_ok));
        lemma_run_closing(n3, read, write_ok, (fuel - 3) as nat);
        assert(run(n2, read, write_ok, (fuel - 2) as nat) == seq![a3] + closing_actions(s.job));
        assert(run(n1, read, write_ok, (fuel - 1) as nat) == seq![a2, a3] + closing_actions(s.job));
        assert(run(s, read, write_ok, fuel) =~= after_paste_actions(s));
    } else {
        let (n2, a2) = step(n1, reply_for(n1.phase, read, write_ok));
        lemma_run_closing(n2, read, write_ok, (fuel - 2) as nat);
        assert(run(n1, read, write_ok, (fuel - 1) as nat) == seq![a2] + closing_actions(s.job));
        assert(run(s, read, write_ok, fuel) =~= after_paste_actions(s));
    }
}

proof fn lemma_run_from_target(s: SessionView, read: Option<Seq<char>>, write_ok: bool, fuel: nat)
    requires
        s.phase == PastePhase::FocusingTarget,
        fuel >= 9,
    ensures
        run(s, read, write_ok, fuel) == seq![
            ActionView::Sleep { millis: FOCUS_SETTLE_MILLIS },
            ActionView::SendPaste,
            ActionView::Sleep { millis: PASTE_SETTLE_MILLIS },
        ] + after_paste_actions(s),
{
    let (n1, a1) = step(s, reply_for(s.phase, read, write_ok));
    let (n2, a2) = step(n1, reply_for(n1.phase, read, write_ok));
    let (n3, a3) = step(n2, reply_for(n2.phase, read, write_ok));
    lemma_run_after_paste(n3, read, write_ok, (fuel - 3) as nat);
    assert(n3 == SessionView { phase: PastePhase::PasteSettling, ..s });
    assert(run(n2, read, write_ok, (fuel - 2) as nat) == seq![a3] + after_paste_actions(s));
    assert(run(n1, read, write_ok, (fuel - 1) as nat) == seq![a2] + (seq![a3] + after_paste_actions(s)));
    assert(run(s, read, write_ok, fuel) =~= seq![a1] + (seq![a2] + (seq![a3] + after_paste_actions(s))));
}

proof fn lemma_run_from_read(s: SessionView, read: Option<Seq<char>>, write_ok: bool, fuel: nat)
    requires
        s.phase == PastePhase::Reading,
        !s.modified,
        fuel >= 12,
    ensures
        ({
            let text = match read {
                Some(t) => t,
                None => Seq::empty(),
            };
            let prepends = s.job.prepend_newline && text.len() > 0;
            let t = SessionView { original_text: text, modified: prepends && write_ok, ..s };
            run(s, read, write_ok, fuel) == (if prepends {
                seq![ActionView::WriteClipboard { text: seq!['\n'] + text }]
            } else {
                Seq::empty()
            }) + from_target_actions(t)
        }),
{
    let text = match read {
        Some(t) => t,
        None => Seq::empty(),
    };
    let prepends = s.job.prepend_newline && text.len() > 0;
    let t = SessionView { original_text: text, modified: prepends && write_ok, ..s };
    let (n1, a1) = step(s, reply_for(s.phase, read, write_ok));
    assert(read_text(reply_for(s.phase, read, write_ok)) == text);
    if prepends {
        let (n2, a2) = step(n1, reply_for(n1.phase, read, write_ok));
        assert(n2 == SessionView { phase: PastePhase::FocusingTarget, ..t });
        lemma_run_from_target(n2, read, write_ok, (fuel - 2) as nat);
        assert(after_paste_actions(n2) == after_paste_actions(t));
        assert(run(n1, read, write_ok, (fuel - 1) as nat) =~= from_target_actions(t));
        assert(run(s, read, write_ok, fuel) =~= seq![a1] + from_target_actions(t));
    } else {
        assert(n1 == SessionView { phase: PastePhase::FocusingTarget, ..t });
        lemma_run_from_target(n1, read, write_ok, (fuel - 1) as nat);
        assert(after_paste_actions(n1) == after_paste_actions(t));
        assert(run(s, read, write_ok, fuel) =~= from_target_actions(t));
    }
}

/// The routine asks for exactly the actions of `paste_plan`, then finishes.
pub proof fn lemma_session_follows_plan(job: PasteJob, read: Option<Seq<char>>, write_ok: bool)
    ensures
        session_actions(job, read, write_ok) == paste_plan(job, read, write_ok).push(ActionView::Finished),
{
    let (s0, a0) = start_spec(job);
    let text = match read {
        Some(t) => t,
        None => Seq::empty(),
    };
    let prepends = job.prepend_newline && text.len() > 0;
    let t = SessionView { original_text: text, modified: prepends && write_ok, ..s0 };
    let middle = (if prepends {
        seq![ActionView::WriteClipboard { text: seq!['\n'] + text }]
    } else {
        Seq::empty()
    }) + from_target_actions(t);
    if job.prepend_newline {
        let (s1, a1) = step(s0, reply_for(s0.phase, read, write_ok));
        let (s2, a2) = step(s1, reply_for(s1.phase, read, write_ok));
        lemma_run_from_read(s2, read, write_ok, 14);
        assert(s2 == SessionView { phase: PastePhase::Reading, ..s0 });
        assert(run(s1, read, write_ok, 15) == seq![a2] + middle);
        assert(run(s0, read, write_ok, 16) == seq![a1] + (seq![a2] + middle));
    } else {
        lemma_run_from_read(s0, read, write_ok, 16);
    }
    assert(session_actions(job, read, write_ok) =~= paste_plan(job, read, write_ok).push(ActionView::Finished));
}

/// What the clipboard holds after `actions`, starting from `c`, when every
/// write reports `write_ok`.
pub open spec fn clipboard_after(actions: Seq<ActionView>, c: Seq<char>, write_ok: bool) -> Seq<char>
    decreases actions.len(),
{
    if actions.len() == 0 {
        c
    } else {
        let before = clipboard_after(actions.drop_last(), c, write_ok);
        match actions.last() {
            ActionView::WriteClipboard { text } => if write_ok {
                text
            } else {
                before
            },
            _ => before,
        }
    }
}

/// The window last brought to the foreground by `actions`, `f` when none is.
pub open spec fn focus_after(actions: Seq<ActionView>, f: Option<isize>) -> Option<isize>
    decreases actions.len(),
{
    if actions.len() == 0 {
        f
    } else {
        match actions.last() {
            ActionView::ForceForeground { hwnd } => Some(hwnd),
            _ => focus_after(actions.drop_last(), f),
        }
    }
}

proof fn lemma_clipboard_after_concat(a: Seq<ActionView>, b: Seq<ActionView>, c: Seq<char>, write_ok: bool)
    ensures
        clipboard_after(a + b, c, write_ok) == clipboard_after(b, clipboard_after(a, c, write_ok), write_ok),
    decreases b.len(),
{
    if b.len() == 0 {
        assert(a + b =~= a);
    } else {
        assert((a + b).drop_last() =~= a + b.drop_last());
        assert((a + b).last() == b.last());
        lemma_clipboard_after_concat(a, b.drop_last(), c, write_ok);
    }
}

proof fn lemma_focus_after_concat(a: Seq<ActionView>, b: Seq<ActionView>, f: Option<isize>)
    ensures
        focus_after(a + b, f) == focus_after(b, focus_after(a, f)),
    decreases b.len(),
{
    if b.len() == 0 {
        assert(a + b =~= a);
    } else {
        assert((a + b).drop_last() =~= a + b.drop_last());
        assert((a + b).last() == b.last());
        lemma_focus_after_concat(a, b.drop_last(), f);
    }
}

/// The actions of `paste_plan` up to, not including, Ctrl+V.
pub open spec fn plan_before_paste(job: PasteJob, read: Option<Seq<char>>) -> Seq<ActionView> {
    let text = match read {
        Some(t) => t,
        None => Seq::empty(),
    };
    let prepends = job.prepend_newline && text.len() > 0;
    (if job.prepend_newline {
        seq![ActionView::SendCopy, ActionView::Sleep { millis: COPY_SETTLE_MILLIS }]
    } else {
        Seq::empty()
    }) + seq![ActionView::ReadClipboard] + (if prepends {
        seq![ActionView::WriteClipboard { text: seq!['\n'] + text }]
    } else {
        Seq::empty()
    }) + seq![
        ActionView::ForceForeground { hwnd: job.target },
        ActionView::Sleep { millis: FOCUS_SETTLE_MILLIS },
    ]
}

/// Ctrl+V goes to the target window, and what is pasted is the text with a
/// leading newline when the routine copied itself, the text was not empty
/// and the newline version was stored; otherwise the clipboard as it was.
pub proof fn lemma_paste_reaches_target(job: PasteJob, read: Option<Seq<char>>, write_ok: bool, c0: Seq<char>)
    requires
        read == Some(c0) || read is None,
    ensures
        ({
            let plan = paste_plan(job, read, write_ok);
            let k = plan_before_paste(job, read).len() as int;
            let prepends = job.prepend_newline && c0.len() > 0 && read is Some;
            &&& 0 <= k < plan.len()
            &&& plan[k] == ActionView::SendPaste
            &&& plan.take(k) == plan_before_paste(job, read)
            &&& focus_after(plan.take(k), None) == Some(job.target)
            &&& clipboard_after(plan.take(k), c0, write_ok) == (if prepends && write_ok {
                seq!['\n'] + c0
            } else {
                c0
            })
        }),
{
    let text = match read {
        Some(t) => t,
        None => Seq::empty(),
    };
    let prepends = job.prepend_newline && text.len() > 0;
    let plan = paste_plan(job, read, write_ok);
    let pre = plan_before_paste(job, read);
    let k = pre.len() as int;
    let s1 = if job.prepend_newline {
        seq![ActionView::SendCopy, ActionView::Sleep { millis: COPY_SETTLE_MILLIS }]
    } else {
        Seq::empty()
    };
    let s2 = seq![ActionView::ReadClipboard];
    let s3 = if prepends {
        seq![ActionView::WriteClipboard { text: seq!['\n'] + text }]
    } else {
        Seq::empty()
    };
    let s4 = seq![
        ActionView::ForceForeground { hwnd: job.target },
        ActionView::Sleep { millis: FOCUS_SETTLE_MILLIS },
    ];
    assert(pre == s1 + s2 + s3 + s4);
    assert(plan.take(k) =~= pre);
    assert(plan[k] == ActionView::SendPaste);
    lemma_focus_after_concat(s1 + s2 + s3, s4, None);
    reveal_with_fuel(focus_after, 3);
    assert(s4.drop_last() =~= seq![ActionView::ForceForeground { hwnd: job.target }]);
    assert(seq![ActionView::ForceForeground { hwnd: job.target }].drop_last() =~= Seq::<ActionView>::empty());
    lemma_clipboard_after_concat(s1 + s2, s3, c0, write_ok);
    lemma_clipboard_after_concat(s1, s2, c0, write_ok);
    lemma_clipboard_after_concat(s1 + s2 + s3, s4, clipboard_after(s1, c0, write_ok), write_ok);
    lemma_clipboard_after_concat(s1 + s2 + s3, s4, c0, write_ok);
    reveal_with_fuel(clipboard_after, 3);
    assert(s2.drop_last() =~= Seq::<ActionView>::empty());
    assert(s4.drop_last().drop_last() =~= Seq::<ActionView>::empty());
    if job.prepend_newline {
        assert(s1.drop_last().drop_last() =~= Seq::<ActionView>::empty());
    }
    if prepends {
        assert(s3.drop_last() =~= Seq::<ActionView>::empty());
    }
}

/// When the routine is over, the clipboard holds what it held before, and
/// the source window is in the foreground again.
pub proof fn lemma_paste_leaves_clipboard_and_focus(job: PasteJob, read: Option<Seq<char>>, write_ok: bool, c0: Seq<char>)
    requires
        read == Some(c0) || read is None,
    ensures
        clipboard_after(paste_plan(job, read, write_ok), c0, write_ok) == c0,
        focus_after(paste_plan(job, read, write_ok), None) == Some(job.source),
{
    let text = match read {
        Some(t) => t,
        None => Seq::empty(),
    };
    let prepends = job.prepend_newline && text.len() > 0;
    let modified = prepends && write_ok;
    let plan = paste_plan(job, read, write_ok);
    let pre = plan_before_paste(job, read);
    let s5 = seq![ActionView::SendPaste, ActionView::Sleep { millis: PASTE_SETTLE_MILLIS }];
    let s6 = if modified {
        seq![ActionView::WriteClipboard { text }]
    } else {
        Seq::empty()
    };
    let s7 = seq![
        ActionView::ForceForeground { hwnd: job.source },
        ActionView::Sleep { millis: FOCUS_SETTLE_MILLIS },
    ];
    let s8 = if job.main_hwnd != 0 {
        seq![ActionView::PostUnpause { hwnd: job.main_hwnd }]
    } else {
        Seq::empty()
    };
    assert(plan =~= pre + s5 + s6 + s7 + s8);
    lemma_paste_reaches_target(job, read, write_ok, c0);
    assert(plan.take(pre.len() as int) == pre);
    let c1 = clipboard_after(pre, c0, write_ok);
    lemma_clipboard_after_concat(pre, s5, c0, write_ok);
    lemma_clipboard_after_concat(pre + s5, s6, c0, write_ok);
    lemma_clipboard_after_concat(pre + s5 + s6, s7, c0, write_ok);
    lemma_clipboard_after_concat(pre + s5 + s6 + s7, s8, c0, write_ok);
    lemma_focus_after_concat(pre + s5 + s6, s7, None);
    lemma_focus_after_concat(pre + s5 + s6 + s7, s8, None);
    reveal_with_fuel(clipboard_after, 3);
    reveal_with_fuel(focus_after, 3);
    assert(s5.drop_last().drop_last() =~= Seq::<ActionView>::empty());
    assert(s7.drop_last().drop_last() =~= Seq::<ActionView>::empty());
    assert(s7.drop_last() =~= seq![ActionView::ForceForeground { hwnd: job.source }]);
    if modified {
        assert(s6.drop_last() =~= Seq::<ActionView>::empty());
    }
    if job.main_hwnd != 0 {
        assert(s8.drop_last() =~= Seq::<ActionView>::empty());
    }
}

/// The unpause message is posted exactly when the relay's window is known,
/// and it is the last action; without a leading newline the routine neither
/// copies nor touches the clipboard's contents.
pub proof fn lemma_paste_plan_shape(job: PasteJob, read: Option<Seq<char>>, write_ok: bool)
    ensures
        ({
            let plan = paste_plan(job, read, write_ok);
            &&& forall|i: int| 0 <= i < plan.len() && plan[i] is PostUnpause
                ==> i == plan.len() - 1 && plan[i] == (ActionView::PostUnpause { hwnd: job.main_hwnd })
            &&& (job.main_hwnd != 0 <==> plan.last() is PostUnpause)
            &&& !job.prepend_newline ==> forall|i: int| 0 <= i < plan.len()
                ==> !(plan[i] is SendCopy) && !(plan[i] is WriteClipboard)
        }),
{
}

} // verus!
