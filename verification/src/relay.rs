use vstd::prelude::*;
use vstd::string::StrSliceExecFns;
use crate::paste::PasteJob;

verus! {

/// Window message: the clipboard's contents changed.
pub const WM_CLIPBOARDUPDATE: u32 = 0x031D;
/// Window message: a registered hotkey was pressed.
pub const WM_HOTKEY: u32 = 0x0312;
/// Window message: the window is being destroyed.
pub const WM_DESTROY: u32 = 0x0002;
/// Window message: a move or resize of the window ended.
pub const WM_EXITSIZEMOVE: u32 = 0x0232;
/// Private window message (`WM_USER + 100`): a paste routine is over.
pub const WM_CUSTOM_UNPAUSE: u32 = 0x0400 + 100;
/// Id under which Ctrl+Shift+C is registered.
pub const HOTKEY_ID: i32 = 101;

/// The window messages the relay tells apart.
#[derive(Clone, Copy, Debug, PartialEq, Eq, Structural)]
pub enum WindowMessage {
    ClipboardUpdate,
    Hotkey { id: i32 },
    Unpause,
    ExitSizeMove,
    Destroy,
    Other,
}

/// Sorts a raw window message; a hotkey's id is `wparam` taken as `i32`.
pub fn decode_message(msg: u32, wparam: usize) -> (m: WindowMessage)
    ensures
        msg == WM_CLIPBOARDUPDATE ==> m == WindowMessage::ClipboardUpdate,
        msg == WM_HOTKEY ==> m == (WindowMessage::Hotkey { id: wparam as i32 }),
        msg == WM_CUSTOM_UNPAUSE ==> m == WindowMessage::Unpause,
        msg == WM_EXITSIZEMOVE ==> m == WindowMessage::ExitSizeMove,
        msg == WM_DESTROY ==> m == WindowMessage::Destroy,
        msg != WM_CLIPBOARDUPDATE && msg != WM_HOTKEY && msg != WM_CUSTOM_UNPAUSE
            && msg != WM_EXITSIZEMOVE && msg != WM_DESTROY ==> m == WindowMessage::Other,
{
    if msg == WM_CLIPBOARDUPDATE {
        WindowMessage::ClipboardUpdate
    } else if msg == WM_HOTKEY {
        WindowMessage::Hotkey { id: wparam as i32 }
    } else if msg == WM_CUSTOM_UNPAUSE {
        WindowMessage::Unpause
    } else if msg == WM_EXITSIZEMOVE {
        WindowMessage::ExitSizeMove
    } else if msg == WM_DESTROY {
        WindowMessage::Destroy
    } else {
        WindowMessage::Other
    }
}

/// What the window procedure does with a message.
#[derive(Clone, Copy, Debug, PartialEq, Eq, Structural)]
pub enum Reaction {
    /// Return 0 and do nothing more.
    Consume,
    /// Find the top-level window in the foreground, hand it to
    /// `begin_paste`, and return 0.
    LocatePasteSource { prepend_newline: bool },
    /// Probe the window under the cursor (the relay's window is `main_hwnd`,
    /// 0 when unknown), then pass the message on.
    ProbeAndForward { main_hwnd: isize },
    /// Stop listening to the clipboard, unregister the hotkey, then pass
    /// the message on.
    DetachAndForward,
    /// Pass the message on to the original window procedure.
    Forward,
}

/// The state shared by the window procedure and the user interface.
pub struct RelayState {
    pub hwnd_a: Option<isize>,
    pub hwnd_b: Option<isize>,
    pub title_a: String,
    pub title_b: String,
    /// Whether relaying is switched on.
    pub is_active: bool,
    /// Whether a paste routine is under way.
    pub is_paused: bool,
    pub main_window_hwnd: Option<isize>,
    /// Whether the end of the next window drag binds the window under the cursor.
    pub is_dragging_detect: bool,
}

/// `RelayState` with its titles as character sequences.
pub struct RelayView {
    pub hwnd_a: Option<isize>,
    pub hwnd_b: Option<isize>,
    pub title_a: Seq<char>,
    pub title_b: Seq<char>,
    pub is_active: bool,
    pub is_paused: bool,
    pub main_window_hwnd: Option<isize>,
    pub is_dragging_detect: bool,
}

impl View for RelayState {
    type V = RelayView;

    open spec fn view(&self) -> RelayView {
        RelayView {
            hwnd_a: self.hwnd_a,
            hwnd_b: self.hwnd_b,
            title_a: self.title_a@,
            title_b: self.title_b@,
            is_active: self.is_active,
            is_paused: self.is_paused,
            main_window_hwnd: self.main_window_hwnd,
            is_dragging_detect: self.is_dragging_detect,
        }
    }
}

/// A copy is relayed only while relaying is on and no paste is under way.
pub open spec fn armed(s: RelayView) -> bool {
    s.is_active && !s.is_paused
}

/// The relay's own window, 0 when unknown.
pub open spec fn main_or_zero(s: RelayView) -> isize {
    match s.main_window_hwnd {
        Some(h) => h,
        None => 0,
    }
}

/// `root` fills a slot whose partner slot is empty: there is nowhere to
/// paste to.
pub open spec fn paste_target_missing(s: RelayView, root: isize) -> bool {
    armed(s) && ((s.hwnd_a == Some(root) && s.hwnd_b is None) || (s.hwnd_a != Some(root)
        && s.hwnd_b == Some(root) && s.hwnd_a is None))
}

/// The relay that a copy in `root` starts: from `root` to the window of the
/// other slot. Slot A is matched first.
pub open spec fn paste_job_for(s: RelayView, root: isize, prepend_newline: bool) -> Option<PasteJob> {
    if armed(s) && (s.hwnd_a == Some(root) || s.hwnd_b == Some(root)) {
        Some(
            PasteJob {
                source: root,
                target: if s.hwnd_a == Some(root) {
                    s.hwnd_b->0
                } else {
                    s.hwnd_a->0
                },
                prepend_newline,
                main_hwnd: main_or_zero(s),
            },
        )
    } else {
        None
    }
}

/// The state after a copy in `root`: paused when a relay starts.
pub open spec fn after_copy(s: RelayView, root: isize, prepend_newline: bool) -> RelayView {
    if paste_job_for(s, root, prepend_newline) is Some {
        RelayView { is_paused: true, ..s }
    } else {
        s
    }
}

/// A probed window is bound unless it is the relay's own window or already
/// fills a slot.
pub open spec fn binding_accepted(s: RelayView, main_hwnd: isize, hwnd: isize) -> bool {
    hwnd != main_hwnd && s.hwnd_a != Some(hwnd) && s.hwnd_b != Some(hwnd)
}

/// The state after binding `hwnd` titled `title`: it fills slot A if that
/// is empty, else slot B if that is empty, else it replaces slot A.
pub open spec fn after_binding(s: RelayView, main_hwnd: isize, hwnd: isize, title: Seq<char>) -> RelayView {
    if !binding_accepted(s, main_hwnd, hwnd) {
        s
    } else if s.hwnd_a is None || s.hwnd_b is Some {
        RelayView { hwnd_a: Some(hwnd), title_a: title, ..s }
    } else {
        RelayView { hwnd_b: Some(hwnd), title_b: title, ..s }
    }
}

/// What the window procedure does with `m` in state `s`.
pub open spec fn reaction_to(s: RelayView, m: WindowMessage) -> Reaction {
    match m {
        WindowMessage::ClipboardUpdate => if armed(s) {
            Reaction::LocatePasteSource { prepend_newline: false }
        } else {
            Reaction::Consume
        },
        WindowMessage::Hotkey { id } => if id == HOTKEY_ID && armed(s) {
            Reaction::LocatePasteSource { prepend_newline: true }
        } else {
            Reaction::Consume
        },
        WindowMessage::Unpause => Reaction::Consume,
        WindowMessage::ExitSizeMove => if s.is_dragging_detect {
            Reaction::ProbeAndForward { main_hwnd: main_or_zero(s) }
        } else {
            Reaction::Forward
        },
        WindowMessage::Destroy => Reaction::DetachAndForward,
        WindowMessage::Other => Reaction::Forward,
    }
}

/// The state after the window procedure has seen `m`.
pub open spec fn after_message(s: RelayView, m: WindowMessage) -> RelayView {
    match m {
        WindowMessage::Unpause => RelayView { is_paused: false, ..s },
        WindowMessage::ExitSizeMove => RelayView { is_dragging_detect: false, ..s },
        _ => s,
    }
}

/// The slots as the user interface shows them.
#[derive(Debug, PartialEq, Eq)]
pub struct SlotsSnapshot {
    pub hwnd_a: Option<isize>,
    pub title_a: String,
    pub hwnd_b: Option<isize>,
    pub title_b: String,
    pub is_active: bool,
}

/// Which slot a name denotes: "A" is slot A, any other name slot B.
pub fn names_slot_a(slot: &str) -> (is_a: bool)
    ensures
        is_a == (slot@ == seq!['A']),
{
    if slot.unicode_len() == 1 {
        let c = slot.get_char(0);
        if c == 'A' {
            assert(slot@ =~= seq!['A']);
            true
        } else {
            assert(slot@[0] != seq!['A'][0]);
            false
        }
    } else {
        assert(slot@.len() != seq!['A'].len());
        false
    }
}

impl RelayState {
    /// Both slots empty, relaying off, nothing under way.
    pub fn new() -> (s: Self)
        ensures
            s@.hwnd_a is None,
            s@.hwnd_b is None,
            s@.title_a == Seq::<char>::empty(),
            s@.title_b == Seq::<char>::empty(),
            !s@.is_active,
            !s@.is_paused,
            s@.main_window_hwnd is None,
            !s@.is_dragging_detect,
    {
        RelayState {
            hwnd_a: None,
            hwnd_b: None,
            title_a: String::new(),
            title_b: String::new(),
            is_active: false,
            is_paused: false,
            main_window_hwnd: None,
            is_dragging_detect: false,
        }
    }

    /// Records the relay's own window.
    pub fn set_main_window(&mut self, hwnd: isize)
        ensures
            final(self)@ == (RelayView { main_window_hwnd: Some(hwnd), ..old(self)@ }),
    {
        self.main_window_hwnd = Some(hwnd);
    }

    /// Fills slot "A", or slot B for any other name, with `hwnd` and
    /// `title` (empty when absent); the other slot is left as it was.
    pub fn set_slot(&mut self, slot: String, hwnd: Option<isize>, title: Option<String>)
        ensures
            ({
                let t = match title {
                    Some(t) => t@,
                    None => Seq::<char>::empty(),
                };
                if slot@ == seq!['A'] {
                    final(self)@ == (RelayView { hwnd_a: hwnd, title_a: t, ..old(self)@ })
                } else {
                    final(self)@ == (RelayView { hwnd_b: hwnd, title_b: t, ..old(self)@ })
                }
            }),
    {
        let title_str = match title {
            Some(t) => t,
            None => String::new(),
        };
        if names_slot_a(slot.as_str()) {
            self.hwnd_a = hwnd;
            self.title_a = title_str;
        } else {
            self.hwnd_b = hwnd;
            self.title_b = title_str;
        }
    }

    /// The slots and whether relaying is on.
    pub fn get_slots(&self) -> (snap: SlotsSnapshot)
        ensures
            snap.hwnd_a == self@.hwnd_a,
            snap.title_a@ == self@.title_a,
            snap.hwnd_b == self@.hwnd_b,
            snap.title_b@ == self@.title_b,
            snap.is_active == self@.is_active,
    {
        SlotsSnapshot {
            hwnd_a: self.hwnd_a,
            title_a: self.title_a.clone(),
            hwnd_b: self.hwnd_b,
            title_b: self.title_b.clone(),
            is_active: self.is_active,
        }
    }

    /// Switches relaying on or off.
    pub fn set_active(&mut self, active: bool)
        ensures
            final(self)@ == (RelayView { is_active: active, ..old(self)@ }),
    {
        self.is_active = active;
    }

    /// Makes the end of the next window drag bind the window under the cursor.
    pub fn start_drag_detect(&mut self)
        ensures
            final(self)@ == (RelayView { is_dragging_detect: true, ..old(self)@ }),
    {
        self.is_dragging_detect = true;
    }

    /// Whether a copy is relayed now.
    pub fn is_armed(&self) -> (b: bool)
        ensures
            b == armed(self@),
    {
        self.is_active && !self.is_paused
    }

    /// Whether a copy in `root` would find the partner slot empty.
    pub fn paste_target_missing(&self, root: isize) -> (b: bool)
        ensures
            b == paste_target_missing(self@, root),
    {
        self.is_active && !self.is_paused && ((self.hwnd_a == Some(root) && self.hwnd_b.is_none()) || (
        self.hwnd_a != Some(root) && self.hwnd_b == Some(root) && self.hwnd_a.is_none()))
    }

    /// Decides what the window procedure does with `message`.
    ///
    /// A clipboard update or the Ctrl+Shift+C hotkey asks for the foreground
    /// window while relaying is armed (the hotkey with a leading newline);
    /// the private unpause message ends the pause; the end of a window drag
    /// that was meant to bind a window clears that wish and asks for a probe;
    /// destruction detaches the relay. Clipboard, hotkey and unpause messages
    /// are consumed, all others are passed on.
    pub fn on_message(&mut self, message: WindowMessage) -> (r: Reaction)
        ensures
            r == reaction_to(old(self)@, message),
            final(self)@ == after_message(old(self)@, message),
    {
        match message {
            WindowMessage::ClipboardUpdate => {
                if self.is_armed() {
                    Reaction::LocatePasteSource { prepend_newline: false }
                } else {
                    Reaction::Consume
                }
            },
            WindowMessage::Hotkey { id } => {
                if id == HOTKEY_ID && self.is_armed() {
                    Reaction::LocatePasteSource { prepend_newline: true }
                } else {
                    Reaction::Consume
                }
            },
            WindowMessage::Unpause => {
                self.is_paused = false;
                Reaction::Consume
            },
            WindowMessage::ExitSizeMove => {
                if self.is_dragging_detect {
                    self.is_dragging_detect = false;
                    let main_hwnd = match self.main_window_hwnd {
                        Some(h) => h,
                        None => 0,
                    };
                    Reaction::ProbeAndForward { main_hwnd }
                } else {
                    Reaction::Forward
                }
            },
            WindowMessage::Destroy => Reaction::DetachAndForward,
            WindowMessage::Other => Reaction::Forward,
        }
    }

    /// A copy was made in the top-level window `root`. While relaying is
    /// armed and `root` fills a slot, pauses the relay and returns the
    /// paste from `root` to the window of the other slot; otherwise changes
    /// nothing.
    pub fn begin_paste(&mut self, root: isize, prepend_newline: bool) -> (job: Option<PasteJob>)
        requires
            !paste_target_missing(old(self)@, root),
        ensures
            job == paste_job_for(old(self)@, root, prepend_newline),
            final(self)@ == after_copy(old(self)@, root, prepend_newline),
    {
        if !(self.is_active && !self.is_paused) {
            return None;
        }
        let is_from_a = self.hwnd_a == Some(root);
        let is_from_b = self.hwnd_b == Some(root);
        if !(is_from_a || is_from_b) {
            return None;
        }
        let target = if is_from_a {
            match self.hwnd_b {
                Some(h) => h,
                None => root,
            }
        } else {
            match self.hwnd_a {
                Some(h) => h,
                None => root,
            }
        };
        self.is_paused = true;
        let main_hwnd = match self.main_window_hwnd {
            Some(h) => h,
            None => 0,
        };
        Some(PasteJob { source: root, target, prepend_newline, main_hwnd })
    }

    /// Binds the probed window `hwnd` titled `title` (see `after_binding`);
    /// returns whether the slots changed.
    pub fn bind_target(&mut self, main_hwnd: isize, hwnd: isize, title: String) -> (changed: bool)
        ensures
            changed == binding_accepted(old(self)@, main_hwnd, hwnd),
            final(self)@ == after_binding(old(self)@, main_hwnd, hwnd, title@),
    {
        if hwnd == main_hwnd || self.hwnd_a == Some(hwnd) || self.hwnd_b == Some(hwnd) {
            return false;
        }
        if self.hwnd_a.is_none() {
            self.hwnd_a = Some(hwnd);
            self.title_a = title;
        } else if self.hwnd_b.is_none() {
            self.hwnd_b = Some(hwnd);
            self.title_b = title;
        } else {
            self.hwnd_a = Some(hwnd);
            self.title_a = title;
        }
        true
    }
}

/// No window fills both slots.
pub open spec fn slots_distinct(s: RelayView) -> bool {
    !(s.hwnd_a is Some && s.hwnd_a == s.hwnd_b)
}

/// While a relay is under way, no copy starts another one.
pub proof fn lemma_copies_ignored_while_pasting(
    s: RelayView,
    root: isize,
    prepend_newline: bool,
    other_root: isize,
    other_prepend: bool,
)
    requires
        paste_job_for(s, root, prepend_newline) is Some,
    ensures
        after_copy(s, root, prepend_newline).is_paused,
        paste_job_for(after_copy(s, root, prepend_newline), other_root, other_prepend) is None,
        after_copy(after_copy(s, root, prepend_newline), other_root, other_prepend)
            == after_copy(s, root, prepend_newline),
{
}

/// A relay pauses the relay for exactly one paste: once the unpause message
/// is seen, the same copy relays the same way again.
pub proof fn lemma_unpause_restores_relaying(s: RelayView, root: isize, prepend_newline: bool)
    requires
        paste_job_for(s, root, prepend_newline) is Some,
    ensures
        after_message(after_copy(s, root, prepend_newline), WindowMessage::Unpause) == s,
        paste_job_for(
            after_message(after_copy(s, root, prepend_newline), WindowMessage::Unpause),
            root,
            prepend_newline,
        ) == paste_job_for(s, root, prepend_newline),
{
}

/// A relayed copy goes from the window it came from to the window of the
/// other slot.
pub proof fn lemma_paste_goes_to_other_slot(s: RelayView, root: isize, prepend_newline: bool)
    requires
        paste_job_for(s, root, prepend_newline) is Some,
        !paste_target_missing(s, root),
    ensures
        ({
            let job = paste_job_for(s, root, prepend_newline)->0;
            &&& job.source == root
            &&& (s.hwnd_a == Some(job.source) && s.hwnd_b == Some(job.target))
                || (s.hwnd_b == Some(job.source) && s.hwnd_a == Some(job.target))
        }),
{
}

/// Binding a probed window never puts one window in both slots, never binds
/// the relay's own window, and an accepted window ends up in a slot.
pub proof fn lemma_binding_keeps_slots_apart(s: RelayView, main_hwnd: isize, hwnd: isize, title: Seq<char>)
    requires
        slots_distinct(s),
    ensures
        slots_distinct(after_binding(s, main_hwnd, hwnd, title)),
        binding_accepted(s, main_hwnd, hwnd) ==> after_binding(s, main_hwnd, hwnd, title).hwnd_a
            == Some(hwnd) || after_binding(s, main_hwnd, hwnd, title).hwnd_b == Some(hwnd),
        hwnd == main_hwnd ==> after_binding(s, main_hwnd, hwnd, title) == s,
{
}

/// Clipboard, hotkey and unpause messages are consumed; every other message
/// reaches the original window procedure.
pub proof fn lemma_message_routing(s: RelayView, m: WindowMessage)
    ensures
        (m is ClipboardUpdate || m is Hotkey || m is Unpause) <==> (reaction_to(s, m) is Consume
            || reaction_to(s, m) is LocatePasteSource),
{
}

/// The partner slot is missing exactly when relaying is armed, `root` fills
/// a slot, and one of the two slots is empty; with both slots filled it is
/// never missing.
pub proof fn lemma_target_missing_means_empty_slot(s: RelayView, root: isize)
    ensures
        paste_target_missing(s, root) == (armed(s) && (s.hwnd_a == Some(root) || s.hwnd_b == Some(
            root,
        )) && (s.hwnd_a is None || s.hwnd_b is None)),
        s.hwnd_a is Some && s.hwnd_b is Some ==> !paste_target_missing(s, root),
{
}

/// A copy starts a relay exactly when relaying is armed and the copied
/// window fills a slot; the relay starts at that window, carries the
/// caller's newline flag and the relay's own window, and does not depend
/// on the flag otherwise.
pub proof fn lemma_paste_job_fields(s: RelayView, root: isize, prepend_newline: bool)
    ensures
        (paste_job_for(s, root, prepend_newline) is Some) == (armed(s) && (s.hwnd_a == Some(root)
            || s.hwnd_b == Some(root))),
        paste_job_for(s, root, prepend_newline) is Some ==> ({
            let job = paste_job_for(s, root, prepend_newline)->0;
            &&& job.source == root
            &&& job.prepend_newline == prepend_newline
            &&& job.main_hwnd == main_or_zero(s)
            &&& job == (PasteJob {
                prepend_newline,
                ..paste_job_for(s, root, !prepend_newline)->0
            })
        }),
        (paste_job_for(s, root, prepend_newline) is Some) == (paste_job_for(s, root, !prepend_newline) is Some),
{
}

/// A binding that is accepted puts the window and its title into slot A
/// when A is empty, else into slot B when B is empty, else into slot A;
/// the other slot, with its title, is left as it was, and so is every flag.
pub proof fn lemma_binding_stores_window_and_title(s: RelayView, main_hwnd: isize, hwnd: isize, title: Seq<char>)
    requires
        binding_accepted(s, main_hwnd, hwnd),
    ensures
        ({
            let t = after_binding(s, main_hwnd, hwnd, title);
            let into_a = s.hwnd_a is None || s.hwnd_b is Some;
            &&& t.is_active == s.is_active && t.is_paused == s.is_paused
            &&& t.main_window_hwnd == s.main_window_hwnd && t.is_dragging_detect == s.is_dragging_detect
            &&& into_a ==> t.hwnd_a == Some(hwnd) && t.title_a == title && t.hwnd_b == s.hwnd_b
                && t.title_b == s.title_b
            &&& !into_a ==> t.hwnd_b == Some(hwnd) && t.title_b == title && t.hwnd_a == s.hwnd_a
                && t.title_a == s.title_a
        }),
{
}

/// Destruction always detaches the relay, whatever the state; unknown
/// messages are always passed on; neither changes the state. A clipboard
/// update never asks for a leading newline, the Ctrl+Shift+C hotkey always
/// does.
pub proof fn lemma_message_reactions(s: RelayView, t: RelayView, id: i32)
    ensures
        reaction_to(s, WindowMessage::Destroy) == Reaction::DetachAndForward,
        reaction_to(s, WindowMessage::Destroy) == reaction_to(t, WindowMessage::Destroy),
        after_message(s, WindowMessage::Destroy) == s,
        reaction_to(s, WindowMessage::Other) == Reaction::Forward,
        after_message(s, WindowMessage::Other) == s,
        reaction_to(s, WindowMessage::Unpause) == Reaction::Consume,
        !after_message(s, WindowMessage::Unpause).is_paused,
        reaction_to(s, WindowMessage::ClipboardUpdate) is LocatePasteSource ==> reaction_to(
            s,
            WindowMessage::ClipboardUpdate,
        ) == (Reaction::LocatePasteSource { prepend_newline: false }),
        reaction_to(s, WindowMessage::Hotkey { id }) is LocatePasteSource ==> id == HOTKEY_ID
            && reaction_to(s, WindowMessage::Hotkey { id }) == (Reaction::LocatePasteSource {
            prepend_newline: true,
        }),
        (reaction_to(s, WindowMessage::ClipboardUpdate) is LocatePasteSource) == armed(s),
{
}

} // verus!
