use vstd::prelude::*;

verus! {

/// Virtual-key code of either Shift key.
pub const VK_SHIFT: u8 = 0x10;
/// Virtual-key code of either Ctrl key.
pub const VK_CONTROL: u8 = 0x11;
/// Virtual-key code of the left Shift key.
pub const VK_LSHIFT: u8 = 0xA0;
/// Virtual-key code of the right Shift key.
pub const VK_RSHIFT: u8 = 0xA1;
/// Virtual-key code of the C key.
pub const VK_C: u8 = 0x43;
/// Virtual-key code of the V key.
pub const VK_V: u8 = 0x56;
/// Pause after Shift has been let go.
pub const SHIFT_RELEASE_MILLIS: u64 = 20;
/// Pause between two keystrokes of the shortcut.
pub const KEYSTROKE_MILLIS: u64 = 10;

/// One injected keyboard event, or a pause.
#[derive(Clone, Copy, Debug, PartialEq, Eq, Structural)]
pub enum KeyStep {
    Press { vk: u8 },
    Release { vk: u8 },
    Sleep { millis: u64 },
}

/// The keystrokes of the shortcut: the key alone when Ctrl is already
/// held, else Ctrl around it, with pauses in between.
pub open spec fn stroke_steps(key: u8, ctrl_down: bool) -> Seq<KeyStep> {
    if ctrl_down {
        seq![
            KeyStep::Press { vk: key },
            KeyStep::Sleep { millis: KEYSTROKE_MILLIS },
            KeyStep::Release { vk: key },
        ]
    } else {
        seq![
            KeyStep::Press { vk: VK_CONTROL },
            KeyStep::Sleep { millis: KEYSTROKE_MILLIS },
            KeyStep::Press { vk: key },
            KeyStep::Sleep { millis: KEYSTROKE_MILLIS },
            KeyStep::Release { vk: key },
            KeyStep::Sleep { millis: KEYSTROKE_MILLIS },
            KeyStep::Release { vk: VK_CONTROL },
        ]
    }
}

/// Lets go of the Shift keys that are held (a pause follows when any was).
pub open spec fn shift_release_steps(lshift_down: bool, rshift_down: bool) -> Seq<KeyStep> {
    (if lshift_down {
        seq![KeyStep::Release { vk: VK_LSHIFT }]
    } else {
        Seq::empty()
    }) + (if rshift_down {
        seq![KeyStep::Release { vk: VK_RSHIFT }]
    } else {
        Seq::empty()
    }) + (if lshift_down || rshift_down {
        seq![KeyStep::Release { vk: VK_SHIFT }, KeyStep::Sleep { millis: SHIFT_RELEASE_MILLIS }]
    } else {
        Seq::empty()
    })
}

/// Presses again the Shift keys that were held.
pub open spec fn shift_restore_steps(lshift_down: bool, rshift_down: bool) -> Seq<KeyStep> {
    (if lshift_down {
        seq![KeyStep::Press { vk: VK_LSHIFT }]
    } else {
        Seq::empty()
    }) + (if rshift_down {
        seq![KeyStep::Press { vk: VK_RSHIFT }]
    } else {
        Seq::empty()
    }) + (if lshift_down || rshift_down {
        seq![KeyStep::Press { vk: VK_SHIFT }]
    } else {
        Seq::empty()
    })
}

/// Ctrl+`key` typed cleanly over whatever modifiers the user holds: held
/// Shift keys are let go first and pressed again afterwards, and Ctrl is
/// pressed only when it is not held already.
pub open spec fn shortcut_spec(key: u8, ctrl_down: bool, lshift_down: bool, rshift_down: bool) -> Seq<KeyStep> {
    shift_release_steps(lshift_down, rshift_down) + stroke_steps(key, ctrl_down)
        + shift_restore_steps(lshift_down, rshift_down)
}

/// The keyboard events that type Ctrl+`key`, given which of Ctrl, left
/// Shift and right Shift the user holds.
pub fn shortcut_keys(key: u8, ctrl_down: bool, lshift_down: bool, rshift_down: bool) -> (steps: Vec<KeyStep>)
    ensures
        steps@ == shortcut_spec(key, ctrl_down, lshift_down, rshift_down),
{
    let shift_down = lshift_down || rshift_down;
    let mut steps: Vec<KeyStep> = Vec::new();
    if lshift_down {
        steps.push(KeyStep::Release { vk: VK_LSHIFT });
    }
    if rshift_down {
        steps.push(KeyStep::Release { vk: VK_RSHIFT });
    }
    if shift_down {
        steps.push(KeyStep::Release { vk: VK_SHIFT });
        steps.push(KeyStep::Sleep { millis: SHIFT_RELEASE_MILLIS });
    }
    assert(steps@ =~= shift_release_steps(lshift_down, rshift_down));
    if ctrl_down {
        steps.push(KeyStep::Press { vk: key });
        steps.push(KeyStep::Sleep { millis: KEYSTROKE_MILLIS });
        steps.push(KeyStep::Release { vk: key });
    } else {
        steps.push(KeyStep::Press { vk: VK_CONTROL });
        steps.push(KeyStep::Sleep { millis: KEYSTROKE_MILLIS });
        steps.push(KeyStep::Press { vk: key });
        steps.push(KeyStep::Sleep { millis: KEYSTROKE_MILLIS });
        steps.push(KeyStep::Release { vk: key });
        steps.push(KeyStep::Sleep { millis: KEYSTROKE_MILLIS });
        steps.push(KeyStep::Release { vk: VK_CONTROL });
    }
    assert(steps@ =~= shift_release_steps(lshift_down, rshift_down) + stroke_steps(key, ctrl_down));
    if lshift_down {
        steps.push(KeyStep::Press { vk: VK_LSHIFT });
    }
    if rshift_down {
        steps.push(KeyStep::Press { vk: VK_RSHIFT });
    }
    if shift_down {
        steps.push(KeyStep::Press { vk: VK_SHIFT });
    }
    assert(steps@ =~= shortcut_spec(key, ctrl_down, lshift_down, rshift_down));
    steps
}

/// The keyboard events of a clean Ctrl+C.
pub fn send_copy(ctrl_down: bool, lshift_down: bool, rshift_down: bool) -> (steps: Vec<KeyStep>)
    ensures
        steps@ == shortcut_spec(VK_C, ctrl_down, lshift_down, rshift_down),
{
    shortcut_keys(VK_C, ctrl_down, lshift_down, rshift_down)
}

/// The keyboard events of a clean Ctrl+V.
pub fn send_paste(ctrl_down: bool, lshift_down: bool, rshift_down: bool) -> (steps: Vec<KeyStep>)
    ensures
        steps@ == shortcut_spec(VK_V, ctrl_down, lshift_down, rshift_down),
{
    shortcut_keys(VK_V, ctrl_down, lshift_down, rshift_down)
}

/// Whether `vk` is down after `steps`, when it was down iff `down` before.
pub open spec fn held_after(steps: Seq<KeyStep>, vk: u8, down: bool) -> bool
    decreases steps.len(),
{
    if steps.len() == 0 {
        down
    } else {
        match steps.last() {
            KeyStep::Press { vk: k } => if k == vk {
                true
            } else {
                held_after(steps.drop_last(), vk, down)
            },
            KeyStep::Release { vk: k } => if k == vk {
                false
            } else {
                held_after(steps.drop_last(), vk, down)
            },
            KeyStep::Sleep { .. } => held_after(steps.drop_last(), vk, down),
        }
    }
}

proof fn lemma_held_after_concat(a: Seq<KeyStep>, b: Seq<KeyStep>, vk: u8, down: bool)
    ensures
        held_after(a + b, vk, down) == held_after(b, vk, held_after(a, vk, down)),
    decreases b.len(),
{
    if b.len() == 0 {
        assert(a + b =~= a);
    } else {
        assert((a + b).drop_last() =~= a + b.drop_last());
        assert((a + b).last() == b.last());
        lemma_held_after_concat(a, b.drop_last(), vk, down);
    }
}

/// Whether `vk` is down after step `x`, when it was down iff `down` before.
pub open spec fn step_effect(x: KeyStep, vk: u8, down: bool) -> bool {
    match x {
        KeyStep::Press { vk: k } => if k == vk {
            true
        } else {
            down
        },
        KeyStep::Release { vk: k } => if k == vk {
            false
        } else {
            down
        },
        KeyStep::Sleep { .. } => down,
    }
}

/// Whether `vk` is down after the first `n` steps.
spec fn held_upto(steps: Seq<KeyStep>, n: int, vk: u8, down: bool) -> bool
    decreases n,
{
    if n <= 0 {
        down
    } else {
        step_effect(steps[n - 1], vk, held_upto(steps, n - 1, vk, down))
    }
}

proof fn lemma_held_upto_drop_last(steps: Seq<KeyStep>, m: int, vk: u8, down: bool)
    requires
        steps.len() > 0,
        0 <= m < steps.len(),
    ensures
        held_upto(steps.drop_last(), m, vk, down) == held_upto(steps, m, vk, down),
    decreases m,
{
    if m > 0 {
        lemma_held_upto_drop_last(steps, m - 1, vk, down);
    }
}

proof fn lemma_held_after_upto(steps: Seq<KeyStep>, vk: u8, down: bool)
    ensures
        held_after(steps, vk, down) == held_upto(steps, steps.len() as int, vk, down),
    decreases steps.len(),
{
    if steps.len() > 0 {
        lemma_held_after_upto(steps.drop_last(), vk, down);
        lemma_held_upto_drop_last(steps, steps.len() - 1, vk, down);
        assert(steps.last() == steps[steps.len() - 1]);
    }
}

/// Whether `vk` is one of the modifier keys the shortcut manipulates.
pub open spec fn is_modifier(vk: u8) -> bool {
    vk == VK_SHIFT || vk == VK_CONTROL || vk == VK_LSHIFT || vk == VK_RSHIFT
}

/// What the user held before, and the shortcut key, are restored: each
/// modifier ends as it started (Shift down iff either Shift key was), and
/// the shortcut key ends released.
pub proof fn lemma_shortcut_restores_modifiers(key: u8, ctrl_down: bool, lshift_down: bool, rshift_down: bool)
    requires
        !is_modifier(key),
    ensures
        ({
            let steps = shortcut_spec(key, ctrl_down, lshift_down, rshift_down);
            &&& held_after(steps, VK_CONTROL, ctrl_down) == ctrl_down
            &&& held_after(steps, VK_LSHIFT, lshift_down) == lshift_down
            &&& held_after(steps, VK_RSHIFT, rshift_down) == rshift_down
            &&& held_after(steps, VK_SHIFT, lshift_down || rshift_down) == (lshift_down || rshift_down)
            &&& !held_after(steps, key, false)
        }),
{
    let steps = shortcut_spec(key, ctrl_down, lshift_down, rshift_down);
    lemma_held_pieces(key, ctrl_down, lshift_down, rshift_down, VK_CONTROL, ctrl_down);
    lemma_held_pieces(key, ctrl_down, lshift_down, rshift_down, VK_LSHIFT, lshift_down);
    lemma_held_pieces(key, ctrl_down, lshift_down, rshift_down, VK_RSHIFT, rshift_down);
    lemma_held_pieces(key, ctrl_down, lshift_down, rshift_down, VK_SHIFT, lshift_down || rshift_down);
    lemma_held_pieces(key, ctrl_down, lshift_down, rshift_down, key, false);
}

/// The shortcut's steps, cut into pieces of at most seven steps.
spec fn shortcut_pieces(key: u8, ctrl_down: bool, lshift_down: bool, rshift_down: bool) -> Seq<Seq<KeyStep>> {
    seq![
        if lshift_down { seq![KeyStep::Release { vk: VK_LSHIFT }] } else { Seq::empty() },
        if rshift_down { seq![KeyStep::Release { vk: VK_RSHIFT }] } else { Seq::empty() },
        if lshift_down || rshift_down {
            seq![KeyStep::Release { vk: VK_SHIFT }, KeyStep::Sleep { millis: SHIFT_RELEASE_MILLIS }]
        } else {
            Seq::empty()
        },
        stroke_steps(key, ctrl_down),
        if lshift_down { seq![KeyStep::Press { vk: VK_LSHIFT }] } else { Seq::empty() },
        if rshift_down { seq![KeyStep::Press { vk: VK_RSHIFT }] } else { Seq::empty() },
        if lshift_down || rshift_down { seq![KeyStep::Press { vk: VK_SHIFT }] } else { Seq::empty() },
    ]
}

proof fn lemma_shortcut_is_pieces(key: u8, ctrl_down: bool, lshift_down: bool, rshift_down: bool)
    ensures
        ({
            let q = shortcut_pieces(key, ctrl_down, lshift_down, rshift_down);
            shortcut_spec(key, ctrl_down, lshift_down, rshift_down) == q[0] + q[1] + q[2] + q[3] + q[4]
                + q[5] + q[6]
        }),
{
    let q = shortcut_pieces(key, ctrl_down, lshift_down, rshift_down);
    assert(shortcut_spec(key, ctrl_down, lshift_down, rshift_down) =~= q[0] + q[1] + q[2] + q[3] + q[4]
        + q[5] + q[6]);
}

proof fn lemma_held_pieces(key: u8, ctrl_down: bool, lshift_down: bool, rshift_down: bool, vk: u8, down: bool)
    requires
        !is_modifier(key),
    ensures
        ({
            let steps = shortcut_spec(key, ctrl_down, lshift_down, rshift_down);
            &&& vk == VK_CONTROL ==> held_after(steps, vk, down) == (ctrl_down && down)
            &&& vk == VK_LSHIFT ==> held_after(steps, vk, down) == (down || lshift_down)
            &&& vk == VK_RSHIFT ==> held_after(steps, vk, down) == (down || rshift_down)
            &&& vk == VK_SHIFT ==> held_after(steps, vk, down) == (down || lshift_down || rshift_down)
            &&& vk == key ==> !held_after(steps, vk, down)
        }),
{
    let q = shortcut_pieces(key, ctrl_down, lshift_down, rshift_down);
    lemma_shortcut_is_pieces(key, ctrl_down, lshift_down, rshift_down);
    let h0 = held_after(q[0], vk, down);
    let h1 = held_after(q[1], vk, h0);
    let h2 = held_after(q[2], vk, h1);
    let h3 = held_after(q[3], vk, h2);
    let h4 = held_after(q[4], vk, h3);
    let h5 = held_after(q[5], vk, h4);
    let h6 = held_after(q[6], vk, h5);
    lemma_held_after_concat(q[0], q[1], vk, down);
    lemma_held_after_concat(q[0] + q[1], q[2], vk, down);
    lemma_held_after_concat(q[0] + q[1] + q[2], q[3], vk, down);
    lemma_held_after_concat(q[0] + q[1] + q[2] + q[3], q[4], vk, down);
    lemma_held_after_concat(q[0] + q[1] + q[2] + q[3] + q[4], q[5], vk, down);
    lemma_held_after_concat(q[0] + q[1] + q[2] + q[3] + q[4] + q[5], q[6], vk, down);
    assert(held_after(shortcut_spec(key, ctrl_down, lshift_down, rshift_down), vk, down) == h6);
    lemma_held_after_upto(q[0], vk, down);
    lemma_held_after_upto(q[1], vk, h0);
    lemma_held_after_upto(q[2], vk, h1);
    lemma_held_after_upto(q[3], vk, h2);
    lemma_held_after_upto(q[4], vk, h3);
    lemma_held_after_upto(q[5], vk, h4);
    lemma_held_after_upto(q[6], vk, h5);
    reveal_with_fuel(held_upto, 8);
}

/// When the shortcut key goes down, Ctrl is held and no Shift key is.
pub proof fn lemma_shortcut_is_clean(key: u8, ctrl_down: bool, lshift_down: bool, rshift_down: bool)
    requires
        !is_modifier(key),
    ensures
        ({
            let steps = shortcut_spec(key, ctrl_down, lshift_down, rshift_down);
            exists|i: int|
                0 <= i < steps.len() && steps[i] == (KeyStep::Press { vk: key }) && held_after(
                    #[trigger] steps.take(i),
                    VK_CONTROL,
                    ctrl_down,
                ) && !held_after(steps.take(i), VK_LSHIFT, lshift_down) && !held_after(
                    steps.take(i),
                    VK_RSHIFT,
                    rshift_down,
                ) && !held_after(steps.take(i), VK_SHIFT, lshift_down || rshift_down)
        }),
{
    let steps = shortcut_spec(key, ctrl_down, lshift_down, rshift_down);
    let r = shift_release_steps(lshift_down, rshift_down);
    let before = if ctrl_down {
        Seq::<KeyStep>::empty()
    } else {
        seq![KeyStep::Press { vk: VK_CONTROL }, KeyStep::Sleep { millis: KEYSTROKE_MILLIS }]
    };
    let i: int = (r.len() + before.len()) as int;
    assert(steps.take(i) =~= r + before);
    assert(steps[i] == (KeyStep::Press { vk: key }));
    reveal_with_fuel(held_after, 5);
    assert forall|vk: u8, down: bool| #![auto] held_after(r + before, vk, down) == held_after(before,
        vk, held_after(r, vk, down)) by {
        lemma_held_after_concat(r, before, vk, down);
    }
    assert(held_after(steps.take(i), VK_CONTROL, ctrl_down));
}

/// How many of the first `n` steps equal `target`.
pub open spec fn count_upto(steps: Seq<KeyStep>, n: int, target: KeyStep) -> nat
    decreases n,
{
    if n <= 0 {
        0
    } else {
        count_upto(steps, n - 1, target) + (if steps[n - 1] == target {
            1nat
        } else {
            0nat
        })
    }
}

/// How many times `steps` presses `vk`.
pub open spec fn presses_of(steps: Seq<KeyStep>, vk: u8) -> nat {
    count_upto(steps, steps.len() as int, KeyStep::Press { vk })
}

/// How many times `steps` lets go of `vk`.
pub open spec fn releases_of(steps: Seq<KeyStep>, vk: u8) -> nat {
    count_upto(steps, steps.len() as int, KeyStep::Release { vk })
}

proof fn lemma_count_prefix(a: Seq<KeyStep>, b: Seq<KeyStep>, m: int, target: KeyStep)
    requires
        0 <= m <= a.len(),
    ensures
        count_upto(a + b, m, target) == count_upto(a, m, target),
    decreases m,
{
    if m > 0 {
        lemma_count_prefix(a, b, m - 1, target);
        assert((a + b)[m - 1] == a[m - 1]);
    }
}

proof fn lemma_count_suffix(a: Seq<KeyStep>, b: Seq<KeyStep>, m: int, target: KeyStep)
    requires
        0 <= m <= b.len(),
    ensures
        count_upto(a + b, a.len() + m, target) == count_upto(a, a.len() as int, target) + count_upto(
            b,
            m,
            target,
        ),
    decreases m,
{
    if m == 0 {
        lemma_count_prefix(a, b, a.len() as int, target);
    } else {
        lemma_count_suffix(a, b, m - 1, target);
        assert((a + b)[a.len() + m - 1] == b[m - 1]);
    }
}

proof fn lemma_count_absent(steps: Seq<KeyStep>, n: int, target: KeyStep)
    requires
        n <= steps.len(),
        forall|j: int| 0 <= j < steps.len() ==> steps[j] != target,
    ensures
        count_upto(steps, n, target) == 0,
    decreases n,
{
    if n > 0 {
        lemma_count_absent(steps, n - 1, target);
    }
}

proof fn lemma_no_strokes_of(steps: Seq<KeyStep>, vk: u8)
    requires
        forall|j: int| 0 <= j < steps.len() ==> steps[j] != (KeyStep::Press { vk }) && steps[j] != (
        KeyStep::Release { vk }),
    ensures
        presses_of(steps, vk) == 0,
        releases_of(steps, vk) == 0,
{
    lemma_count_absent(steps, steps.len() as int, KeyStep::Press { vk });
    lemma_count_absent(steps, steps.len() as int, KeyStep::Release { vk });
}

proof fn lemma_stroke_counts(key: u8, ctrl_down: bool, vk: u8)
    requires
        !is_modifier(key),
        vk == key || vk == VK_CONTROL,
    ensures
        presses_of(stroke_steps(key, ctrl_down), vk) == (if vk == key || !ctrl_down { 1nat } else { 0nat }),
        releases_of(stroke_steps(key, ctrl_down), vk) == (if vk == key || !ctrl_down { 1nat } else { 0nat }),
{
    let k = stroke_steps(key, ctrl_down);
    if ctrl_down {
        assert(count_upto(k, 0, KeyStep::Press { vk }) == 0);
        assert(count_upto(k, 1, KeyStep::Press { vk }) == (if vk == key { 1nat } else { 0nat }));
        assert(count_upto(k, 2, KeyStep::Press { vk }) == (if vk == key { 1nat } else { 0nat }));
        assert(count_upto(k, 3, KeyStep::Press { vk }) == (if vk == key { 1nat } else { 0nat }));
        assert(count_upto(k, 0, KeyStep::Release { vk }) == 0);
        assert(count_upto(k, 1, KeyStep::Release { vk }) == 0);
        assert(count_upto(k, 2, KeyStep::Release { vk }) == 0);
        assert(count_upto(k, 3, KeyStep::Release { vk }) == (if vk == key { 1nat } else { 0nat }));
    } else {
        let p = KeyStep::Press { vk };
        let r = KeyStep::Release { vk };
        assert(count_upto(k, 0, p) == 0);
        assert(count_upto(k, 1, p) == (if vk == VK_CONTROL { 1nat } else { 0nat }));
        assert(count_upto(k, 2, p) == (if vk == VK_CONTROL { 1nat } else { 0nat }));
        assert(count_upto(k, 3, p) == 1);
        assert(count_upto(k, 4, p) == 1);
        assert(count_upto(k, 5, p) == 1);
        assert(count_upto(k, 6, p) == 1);
        assert(count_upto(k, 7, p) == 1);
        assert(count_upto(k, 0, r) == 0);
        assert(count_upto(k, 1, r) == 0);
        assert(count_upto(k, 2, r) == 0);
        assert(count_upto(k, 3, r) == 0);
        assert(count_upto(k, 4, r) == 0);
        assert(count_upto(k, 5, r) == (if vk == key { 1nat } else { 0nat }));
        assert(count_upto(k, 6, r) == (if vk == key { 1nat } else { 0nat }));
        assert(count_upto(k, 7, r) == 1);
    }
}

proof fn lemma_counts_concat(a: Seq<KeyStep>, b: Seq<KeyStep>, vk: u8)
    ensures
        presses_of(a + b, vk) == presses_of(a, vk) + presses_of(b, vk),
        releases_of(a + b, vk) == releases_of(a, vk) + releases_of(b, vk),
{
    lemma_count_suffix(a, b, b.len() as int, KeyStep::Press { vk });
    lemma_count_suffix(a, b, b.len() as int, KeyStep::Release { vk });
}

/// The shortcut key is struck exactly once: pressed once and let go once.
/// Ctrl is pressed and let go once when it was not held, and not touched
/// when it was.
pub proof fn lemma_shortcut_strikes_key_once(key: u8, ctrl_down: bool, lshift_down: bool, rshift_down: bool)
    requires
        !is_modifier(key),
    ensures
        presses_of(shortcut_spec(key, ctrl_down, lshift_down, rshift_down), key) == 1,
        releases_of(shortcut_spec(key, ctrl_down, lshift_down, rshift_down), key) == 1,
        presses_of(shortcut_spec(key, ctrl_down, lshift_down, rshift_down), VK_CONTROL) == (if ctrl_down {
            0nat
        } else {
            1nat
        }),
        releases_of(shortcut_spec(key, ctrl_down, lshift_down, rshift_down), VK_CONTROL) == (if ctrl_down {
            0nat
        } else {
            1nat
        }),
{
    lemma_count_pieces(key, ctrl_down, lshift_down, rshift_down, key);
    lemma_count_pieces(key, ctrl_down, lshift_down, rshift_down, VK_CONTROL);
}

proof fn lemma_count_pieces(key: u8, ctrl_down: bool, lshift_down: bool, rshift_down: bool, vk: u8)
    requires
        !is_modifier(key),
        vk == key || vk == VK_CONTROL,
    ensures
        ({
            let steps = shortcut_spec(key, ctrl_down, lshift_down, rshift_down);
            &&& vk == key ==> presses_of(steps, vk) == 1 && releases_of(steps, vk) == 1
            &&& vk == VK_CONTROL ==> presses_of(steps, vk) == (if ctrl_down { 0nat } else { 1nat })
                && releases_of(steps, vk) == (if ctrl_down { 0nat } else { 1nat })
        }),
{
    let q = shortcut_pieces(key, ctrl_down, lshift_down, rshift_down);
    lemma_shortcut_is_pieces(key, ctrl_down, lshift_down, rshift_down);
    lemma_counts_concat(q[0], q[1], vk);
    lemma_counts_concat(q[0] + q[1], q[2], vk);
    lemma_counts_concat(q[0] + q[1] + q[2], q[3], vk);
    lemma_counts_concat(q[0] + q[1] + q[2] + q[3], q[4], vk);
    lemma_counts_concat(q[0] + q[1] + q[2] + q[3] + q[4], q[5], vk);
    lemma_counts_concat(q[0] + q[1] + q[2] + q[3] + q[4] + q[5], q[6], vk);
    lemma_no_strokes_of(q[0], vk);
    lemma_no_strokes_of(q[1], vk);
    lemma_no_strokes_of(q[2], vk);
    lemma_no_strokes_of(q[4], vk);
    lemma_no_strokes_of(q[5], vk);
    lemma_no_strokes_of(q[6], vk);
    lemma_stroke_counts(key, ctrl_down, vk);
}

} // verus!
