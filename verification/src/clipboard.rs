use vstd::prelude::*;
use vstd::string::StringExecFns;

verus! {

/// First code unit of the high-surrogate range.
pub open spec fn is_high_surrogate(u: u16) -> bool {
    0xD800 <= u && u <= 0xDBFF
}

/// Code units of the low-surrogate range.
pub open spec fn is_low_surrogate(u: u16) -> bool {
    0xDC00 <= u && u <= 0xDFFF
}

/// The scalar value that a surrogate pair stands for.
pub open spec fn surrogate_pair_value(high: u16, low: u16) -> int {
    0x10000 + (high - 0xD800) * 0x400 + (low - 0xDC00)
}

/// Lossy UTF-16 decoding: a well-formed pair or a non-surrogate unit gives
/// its character; every unpaired surrogate gives U+FFFD.
pub open spec fn utf16_decode_lossy(units: Seq<u16>) -> Seq<char>
    decreases units.len(),
{
    if units.len() == 0 {
        Seq::empty()
    } else {
        let u = units[0];
        if !is_high_surrogate(u) && !is_low_surrogate(u) {
            seq![u as char] + utf16_decode_lossy(units.drop_first())
        } else if is_high_surrogate(u) && units.len() > 1 && is_low_surrogate(units[1]) {
            seq![surrogate_pair_value(u, units[1]) as char]
                + utf16_decode_lossy(units.subrange(2, units.len() as int))
        } else {
            seq!['\u{FFFD}'] + utf16_decode_lossy(units.drop_first())
        }
    }
}

/// `String::from_utf16_lossy`: std documents it as decoding UTF-16 and
/// replacing invalid data (unpaired surrogates) with U+FFFD, which is
/// what `utf16_decode_lossy` states.
#[verifier::external_body]
pub(crate) fn string_from_utf16_lossy(units: &[u16]) -> (text: String)
    ensures
        text@ == utf16_decode_lossy(units@),
{
    String::from_utf16_lossy(units)
}

/// Index of the first NUL unit, or the whole length when there is none.
pub open spec fn nul_terminated_len(units: Seq<u16>) -> int {
    if exists|i: int| 0 <= i < units.len() && units[i] == 0 {
        choose|i: int| 0 <= i < units.len() && units[i] == 0 && (forall|j: int| 0 <= j < i ==> units[j] != 0)
    } else {
        units.len() as int
    }
}

/// Number of code units before the terminating NUL.
pub fn units_before_nul(units: &[u16]) -> (len: usize)
    ensures
        len <= units@.len(),
        forall|j: int| 0 <= j < len ==> units@[j] != 0,
        len < units@.len() ==> units@[len as int] == 0,
{
    let mut i: usize = 0;
    while i < units.len()
        invariant
            i <= units@.len(),
            forall|j: int| 0 <= j < i ==> units@[j] != 0,
        decreases units@.len() - i,
    {
        if units[i] == 0 {
            return i;
        }
        i = i + 1;
    }
    i
}

/// The text of a clipboard buffer of NUL-terminated UTF-16, decoded lossily.
pub fn clipboard_text(units: &[u16]) -> (text: String)
    ensures
        text@ == utf16_decode_lossy(units@.subrange(0, nul_terminated_len(units@))),
{
    let len = units_before_nul(units);
    proof {
        if len < units@.len() {
            let w = len as int;
            assert(units@[w] == 0);
            let c = choose|i: int| 0 <= i < units@.len() && units@[i] == 0 && (forall|j: int| 0 <= j < i ==> units@[j] != 0);
            assert(0 <= c < units@.len() && units@[c] == 0 && (forall|j: int| 0 <= j < c ==> units@[j] != 0));
            if c < w { assert(units@[c] != 0); }
            if w < c { assert(units@[w] != 0); }
        } else {
            assert(units@.subrange(0, units@.len() as int) =~= units@);
        }
    }
    string_from_utf16_lossy(vstd::slice::slice_subrange(units, 0, len))
}

/// UTF-16 code units of one character.
pub open spec fn utf16_of_char(c: char) -> Seq<u16> {
    let v = c as int;
    if v < 0x10000 {
        seq![v as u16]
    } else {
        let w = v - 0x10000;
        seq![(0xD800 + w / 0x400) as u16, (0xDC00 + w % 0x400) as u16]
    }
}

/// UTF-16 encoding of a character sequence.
pub open spec fn utf16_encode(chars: Seq<char>) -> Seq<u16>
    decreases chars.len(),
{
    if chars.len() == 0 {
        Seq::empty()
    } else {
        utf16_encode(chars.drop_last()) + utf16_of_char(chars.last())
    }
}

/// Appends the UTF-16 code units of `c`.
fn push_utf16(units: &mut Vec<u16>, c: char)
    ensures
        final(units)@ == old(units)@ + utf16_of_char(c),
{
    let v: u32 = c as u32;
    if v < 0x10000 {
        units.push(v as u16);
    } else {
        let w: u32 = v - 0x10000;
        units.push((0xD800 + w / 0x400) as u16);
        units.push((0xDC00 + w % 0x400) as u16);
    }
}

/// The buffer handed to the clipboard for `text`: its UTF-16 code units
/// followed by a terminating NUL.
pub fn clipboard_units(text: &str) -> (units: Vec<u16>)
    ensures
        units@ == utf16_encode(text@).push(0),
{
    broadcast use vstd::string::group_string_axioms;
    let mut units: Vec<u16> = Vec::new();
    for c in it: text.chars()
        invariant
            it.seq() == text@,
            units@ == utf16_encode(text@.take(it.index() as int)),
    {
        let ghost idx = it.index() as int;
        proof {
            let next = text@.take(idx + 1);
            assert(c == text@[idx]);
            assert(next.drop_last() =~= text@.take(idx));
            assert(next.last() == c);
            assert(utf16_encode(next) == utf16_encode(text@.take(idx)) + utf16_of_char(c));
        }
        push_utf16(&mut units, c);
    }
    proof {
        assert(text@.take(text@.len() as int) =~= text@);
    }
    units.push(0);
    units
}

/// Size in bytes of a clipboard buffer of `units`, or `None` when it does
/// not fit in `usize`.
pub fn clipboard_byte_size(units: &Vec<u16>) -> (size: Option<usize>)
    ensures
        units@.len() * 2 <= usize::MAX ==> size == Some((units@.len() * 2) as usize),
        units@.len() * 2 > usize::MAX ==> size is None,
{
    units.len().checked_mul(2)
}

/// `text` with a line break put in front of it.
pub fn with_leading_newline(text: &str) -> (out: String)
    ensures
        out@ == seq!['\n'] + text@,
{
    let mut out = String::from_str("\n");
    proof {
        reveal_strlit("\n");
    }
    out.append(text);
    out
}

/// How many times the clipboard is tried before giving up.
pub const CLIPBOARD_ATTEMPTS: u32 = 5;

/// Pause between two tries, in milliseconds.
pub const CLIPBOARD_RETRY_MILLIS: u64 = 15;

/// What one try at reading the clipboard's Unicode text found.
#[derive(Debug, PartialEq, Eq)]
pub enum ReadAttempt {
    /// The clipboard could not be opened.
    Busy,
    /// The clipboard holds no Unicode text.
    NoText,
    /// The text's memory could not be locked.
    LockFailed,
    /// The text's memory, as UTF-16 code units.
    Locked { units: Vec<u16> },
}

/// What to do after a try at reading the clipboard.
#[derive(Debug, PartialEq, Eq)]
pub enum ReadStep {
    /// Wait, then try again.
    Retry { millis: u64 },
    /// Wait, then report that no text could be read.
    GiveUp { millis: u64 },
    /// Stop with this result.
    Finish { text: Option<String> },
}

/// Decides what follows try number `attempt_index` (counted from 0) at
/// reading the clipboard. Only a busy clipboard is tried again, and only
/// while fewer than `CLIPBOARD_ATTEMPTS` tries have been made.
pub fn read_clipboard_text(attempt_index: u32, attempt: ReadAttempt) -> (step: ReadStep)
    requires
        attempt_index < CLIPBOARD_ATTEMPTS,
    ensures
        match attempt {
            ReadAttempt::Busy => if attempt_index + 1 < CLIPBOARD_ATTEMPTS {
                step == (ReadStep::Retry { millis: CLIPBOARD_RETRY_MILLIS })
            } else {
                step == (ReadStep::GiveUp { millis: CLIPBOARD_RETRY_MILLIS })
            },
            ReadAttempt::NoText => step == (ReadStep::Finish { text: None }),
            ReadAttempt::LockFailed => step == (ReadStep::Finish { text: None }),
            ReadAttempt::Locked { units } => step matches ReadStep::Finish { text: Some(t) }
                && t@ == utf16_decode_lossy(units@.subrange(0, nul_terminated_len(units@))),
        },
{
    match attempt {
        ReadAttempt::Busy => {
            if attempt_index + 1 < CLIPBOARD_ATTEMPTS {
                ReadStep::Retry { millis: CLIPBOARD_RETRY_MILLIS }
            } else {
                ReadStep::GiveUp { millis: CLIPBOARD_RETRY_MILLIS }
            }
        },
        ReadAttempt::NoText => ReadStep::Finish { text: None },
        ReadAttempt::LockFailed => ReadStep::Finish { text: None },
        ReadAttempt::Locked { units } => ReadStep::Finish { text: Some(clipboard_text(units.as_slice())) },
    }
}

/// What one try at storing text on the clipboard came to.
#[derive(Debug, PartialEq, Eq)]
pub enum WriteAttempt {
    /// The clipboard could not be opened.
    Busy,
    /// The clipboard could not be emptied.
    EmptyFailed,
    /// No global memory could be allocated for the text.
    AllocFailed,
    /// The allocated memory could not be locked.
    LockFailed,
    /// The clipboard refused the memory.
    SetFailed,
    /// The text is on the clipboard.
    Stored,
}

/// What to do after a try at storing text on the clipboard.
#[derive(Debug, PartialEq, Eq)]
pub enum WriteStep {
    /// Wait, then try again.
    Retry { millis: u64 },
    /// Wait, then report failure.
    GiveUp { millis: u64 },
    /// Stop, reporting whether the text was stored.
    Finish { stored: bool },
}

/// Whether a failed try at storing text is worth repeating.
pub open spec fn write_is_retried(attempt: WriteAttempt) -> bool {
    attempt is Busy || attempt is EmptyFailed || attempt is SetFailed
}

/// Decides what follows try number `attempt_index` (counted from 0) at
/// storing text on the clipboard. A clipboard that is busy, cannot be
/// emptied or refuses the memory is tried again while fewer than
/// `CLIPBOARD_ATTEMPTS` tries have been made; a failed allocation or lock
/// ends the write at once.
pub fn write_clipboard_text(attempt_index: u32, attempt: WriteAttempt) -> (step: WriteStep)
    requires
        attempt_index < CLIPBOARD_ATTEMPTS,
    ensures
        write_is_retried(attempt) && attempt_index + 1 < CLIPBOARD_ATTEMPTS
            ==> step == (WriteStep::Retry { millis: CLIPBOARD_RETRY_MILLIS }),
        write_is_retried(attempt) && attempt_index + 1 >= CLIPBOARD_ATTEMPTS
            ==> step == (WriteStep::GiveUp { millis: CLIPBOARD_RETRY_MILLIS }),
        attempt is AllocFailed || attempt is LockFailed ==> step == (WriteStep::Finish { stored: false }),
        attempt is Stored ==> step == (WriteStep::Finish { stored: true }),
{
    match attempt {
        WriteAttempt::AllocFailed => WriteStep::Finish { stored: false },
        WriteAttempt::LockFailed => WriteStep::Finish { stored: false },
        WriteAttempt::Stored => WriteStep::Finish { stored: true },
        _ => {
            if attempt_index + 1 < CLIPBOARD_ATTEMPTS {
                WriteStep::Retry { millis: CLIPBOARD_RETRY_MILLIS }
            } else {
                WriteStep::GiveUp { millis: CLIPBOARD_RETRY_MILLIS }
            }
        },
    }
}

proof fn lemma_decode_after_char(c: char, rest: Seq<u16>)
    ensures
        utf16_decode_lossy(utf16_of_char(c) + rest) == seq![c] + utf16_decode_lossy(rest),
{
    let units = utf16_of_char(c) + rest;
    let v = c as int;
    assert(0 <= v <= 0x10FFFF && !(0xD800 <= v <= 0xDFFF));
    if v < 0x10000 {
        assert(units[0] == v as u16);
        assert(units.drop_first() =~= rest);
        assert((v as u16) as char == c);
    } else {
        let w = v - 0x10000;
        let high = (0xD800 + w / 0x400) as u16;
        let low = (0xDC00 + w % 0x400) as u16;
        assert(w == (w / 0x400) * 0x400 + w % 0x400);
        assert(units[0] == high && units[1] == low);
        assert(is_high_surrogate(high) && is_low_surrogate(low));
        assert(surrogate_pair_value(high, low) == v);
        assert(units.subrange(2, units.len() as int) =~= rest);
    }
}

proof fn lemma_encode_first(chars: Seq<char>)
    requires
        chars.len() > 0,
    ensures
        utf16_encode(chars) == utf16_of_char(chars[0]) + utf16_encode(chars.drop_first()),
    decreases chars.len(),
{
    if chars.len() == 1 {
        assert(chars.drop_last() =~= Seq::<char>::empty());
        assert(chars.drop_first() =~= Seq::<char>::empty());
        assert(utf16_encode(Seq::<char>::empty()) == Seq::<u16>::empty());
        assert(utf16_encode(chars) =~= utf16_of_char(chars[0]) + utf16_encode(chars.drop_first()));
    } else {
        lemma_encode_first(chars.drop_last());
        assert(chars.drop_last().drop_first() =~= chars.drop_first().drop_last());
        assert(chars.drop_first().last() == chars.last());
        assert(utf16_encode(chars) =~= utf16_of_char(chars[0]) + utf16_encode(chars.drop_first()));
    }
}

proof fn lemma_decode_encode(chars: Seq<char>)
    ensures
        utf16_decode_lossy(utf16_encode(chars)) == chars,
    decreases chars.len(),
{
    if chars.len() > 0 {
        lemma_encode_first(chars);
        lemma_decode_after_char(chars[0], utf16_encode(chars.drop_first()));
        lemma_decode_encode(chars.drop_first());
        assert(seq![chars[0]] + chars.drop_first() =~= chars);
    }
}

proof fn lemma_encode_has_no_nul(chars: Seq<char>)
    requires
        !chars.contains('\0'),
    ensures
        forall|i: int| 0 <= i < utf16_encode(chars).len() ==> utf16_encode(chars)[i] != 0,
    decreases chars.len(),
{
    if chars.len() > 0 {
        let init = chars.drop_last();
        assert forall|j: int| 0 <= j < init.len() implies init[j] != '\0' by {
            assert(chars[j] == init[j]);
        }
        lemma_encode_has_no_nul(init);
        let c = chars.last();
        assert(chars[chars.len() - 1] == c);
        lemma_char_units_nonzero(c);
        let units = utf16_encode(chars);
        assert(units == utf16_encode(init) + utf16_of_char(c));
        assert forall|i: int| 0 <= i < units.len() implies units[i] != 0 by {
            if i >= utf16_encode(init).len() {
                assert(units[i] == utf16_of_char(c)[i - utf16_encode(init).len()]);
            }
        }
    }
}

proof fn lemma_char_units_nonzero(c: char)
    requires
        c != '\0',
    ensures
        forall|i: int| 0 <= i < utf16_of_char(c).len() ==> utf16_of_char(c)[i] != 0,
{
    let v = c as int;
    assert(0 < v <= 0x10FFFF);
    if v >= 0x10000 {
        let w = v - 0x10000;
        assert(0 <= w / 0x400 <= 0x3FF);
        assert(0 <= w % 0x400 < 0x400);
    }
}

/// Text without NUL characters that is put on the clipboard reads back
/// unchanged.
pub proof fn lemma_clipboard_round_trip(text: Seq<char>)
    requires
        !text.contains('\0'),
    ensures
        ({
            let units = utf16_encode(text).push(0);
            utf16_decode_lossy(units.subrange(0, nul_terminated_len(units))) == text
        }),
{
    let enc = utf16_encode(text);
    let units = enc.push(0);
    lemma_encode_has_no_nul(text);
    let k = enc.len() as int;
    assert(units[k] == 0);
    assert(forall|j: int| 0 <= j < k ==> units[j] != 0);
    let c = choose|i: int| 0 <= i < units.len() && units[i] == 0 && (forall|j: int| 0 <= j < i ==> units[j] != 0);
    assert(0 <= c < units.len() && units[c] == 0 && (forall|j: int| 0 <= j < c ==> units[j] != 0));
    if c < k {
        assert(units[c] == enc[c]);
    }
    if k < c {
        assert(units[k] != 0);
    }
    assert(nul_terminated_len(units) == k);
    assert(units.subrange(0, k) =~= enc);
    lemma_decode_encode(text);
}

} // verus!
