use vstd::prelude::*;

verus! {

/// Virtual-key code of Alt.
pub const VK_MENU: u8 = 0x12;

/// One step of bringing a window to the foreground.
#[derive(Clone, Copy, Debug, PartialEq, Eq, Structural)]
pub enum FocusStep {
    /// Restore the minimized window.
    Restore,
    KeyDown { vk: u8 },
    KeyUp { vk: u8 },
    /// Attach the input of thread `from` to thread `to`.
    AttachInput { from: u32, to: u32 },
    /// Detach it again.
    DetachInput { from: u32, to: u32 },
    /// Make the window the foreground window.
    SetForeground,
    /// Give the window the keyboard focus.
    SetFocus,
}

/// The first steps of forcing a window to the foreground: none at all
/// (`None`) when the handle is not a window; else a restore when it is
/// minimized, then an Alt tap, which lifts the foreground lock.
pub fn force_foreground_start(is_window: bool, is_iconic: bool) -> (steps: Option<Vec<FocusStep>>)
    ensures
        !is_window ==> steps is None,
        is_window ==> (steps matches Some(v) && v@ == (if is_iconic {
            seq![FocusStep::Restore]
        } else {
            Seq::empty()
        }) + seq![FocusStep::KeyDown { vk: VK_MENU }, FocusStep::KeyUp { vk: VK_MENU }]),
{
    if !is_window {
        return None;
    }
    let mut v: Vec<FocusStep> = Vec::new();
    if is_iconic {
        v.push(FocusStep::Restore);
    }
    v.push(FocusStep::KeyDown { vk: VK_MENU });
    v.push(FocusStep::KeyUp { vk: VK_MENU });
    proof {
        assert(v@ =~= (if is_iconic {
            seq![FocusStep::Restore]
        } else {
            Seq::empty()
        }) + seq![FocusStep::KeyDown { vk: VK_MENU }, FocusStep::KeyUp { vk: VK_MENU }]);
    }
    Some(v)
}

/// Steps that set the foreground and the focus, with the input of `from`
/// attached to `to` around them.
pub open spec fn attached_switch(from: u32, to: u32) -> Seq<FocusStep> {
    seq![
        FocusStep::AttachInput { from, to },
        FocusStep::SetForeground,
        FocusStep::SetFocus,
        FocusStep::DetachInput { from, to },
    ]
}

/// The switch itself: when the foreground window belongs to another thread
/// than the target, that thread's input is attached to the target's for
/// the switch.
pub fn force_foreground_switch(foreground_thread: u32, target_thread: u32) -> (steps: Vec<FocusStep>)
    ensures
        foreground_thread != target_thread ==> steps@ == attached_switch(foreground_thread, target_thread),
        foreground_thread == target_thread ==> steps@ == seq![FocusStep::SetForeground, FocusStep::SetFocus],
{
    if foreground_thread != target_thread {
        vec![
            FocusStep::AttachInput { from: foreground_thread, to: target_thread },
            FocusStep::SetForeground,
            FocusStep::SetFocus,
            FocusStep::DetachInput { from: foreground_thread, to: target_thread },
        ]
    } else {
        vec![FocusStep::SetForeground, FocusStep::SetFocus]
    }
}

/// The fallback: when the target is still not in the foreground, the
/// switch is repeated with the calling thread's input attached.
pub fn force_foreground_fallback(target_is_foreground: bool, current_thread: u32, target_thread: u32) -> (steps: Vec<FocusStep>)
    ensures
        !target_is_foreground ==> steps@ == attached_switch(current_thread, target_thread),
        target_is_foreground ==> steps@.len() == 0,
{
    if !target_is_foreground {
        vec![
            FocusStep::AttachInput { from: current_thread, to: target_thread },
            FocusStep::SetForeground,
            FocusStep::SetFocus,
            FocusStep::DetachInput { from: current_thread, to: target_thread },
        ]
    } else {
        Vec::new()
    }
}

/// Every attachment of thread input made while forcing the foreground is
/// undone by the last step, and the foreground is set while attached.
pub proof fn lemma_attachments_undone(from: u32, to: u32)
    ensures
        ({
            let steps = attached_switch(from, to);
            &&& steps[0] == (FocusStep::AttachInput { from, to })
            &&& steps.last() == (FocusStep::DetachInput { from, to })
            &&& forall|i: int| 0 < i < steps.len() - 1 ==> !(steps[i] is AttachInput) && !(
            steps[i] is DetachInput)
            &&& steps.contains(FocusStep::SetForeground)
        }),
{
    assert(attached_switch(from, to)[1] == FocusStep::SetForeground);
}

} // verus!
