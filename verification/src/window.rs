use vstd::prelude::*;
use vstd::string::StringExecFns;
use crate::clipboard::{string_from_utf16_lossy, utf16_decode_lossy};

verus! {

/// Extended window style bit of a layered window.
pub const WS_EX_LAYERED: isize = 0x0008_0000;

/// The extended style to set so that a window can be made translucent:
/// `None` when it is layered already.
pub fn layered_ex_style(ex_style: isize) -> (style: Option<isize>)
    ensures
        ex_style & WS_EX_LAYERED == 0 ==> style == Some(ex_style | WS_EX_LAYERED),
        ex_style & WS_EX_LAYERED != 0 ==> style is None,
{
    if ex_style & WS_EX_LAYERED == 0 {
        Some(ex_style | WS_EX_LAYERED)
    } else {
        None
    }
}

/// A window's title from the `len` code units that were copied into
/// `units`; "Untitled Window" when there are none.
pub fn window_title(units: &[u16], len: i32) -> (title: String)
    requires
        len <= units@.len(),
    ensures
        len > 0 ==> title@ == utf16_decode_lossy(units@.take(len as int)),
        len <= 0 ==> title@ == "Untitled Window"@,
{
    if len > 0 {
        let n: usize = len as usize;
        string_from_utf16_lossy(vstd::slice::slice_subrange(units, 0, n))
    } else {
        String::from_str("Untitled Window")
    }
}

/// The window that a probe under the cursor found: none when no window is
/// under the cursor or it has no top-level ancestor, else the top-level
/// window with its title.
pub fn get_window_under_cursor(
    hwnd_under_mouse: isize,
    root_hwnd: isize,
    title_units: &[u16],
    title_len: i32,
) -> (found: Option<(isize, String)>)
    requires
        title_len <= title_units@.len(),
    ensures
        hwnd_under_mouse == 0 || root_hwnd == 0 ==> found is None,
        hwnd_under_mouse != 0 && root_hwnd != 0 ==> (found matches Some((h, t)) && h == root_hwnd
            && (title_len > 0 ==> t@ == utf16_decode_lossy(title_units@.take(title_len as int)))
            && (title_len <= 0 ==> t@ == "Untitled Window"@)),
{
    if hwnd_under_mouse == 0 || root_hwnd == 0 {
        return None;
    }
    Some((root_hwnd, window_title(title_units, title_len)))
}

} // verus!
