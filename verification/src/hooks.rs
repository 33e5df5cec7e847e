//! What the hooks placed on engine functions decide: whether the engine's own
//! function runs, and what the hook returns when it does not.
use vstd::prelude::*;

verus! {

/// What a hook does about the engine function it replaces.
#[derive(Clone, Copy, PartialEq, Eq, Structural, Debug)]
pub enum HookStep<T> {
    /// Call the engine's function and return what it returns.
    CallOriginal,
    /// Return this value without calling the engine's function.
    Return(T),
}

/// `V_ApplyShake`: the screen shake is not applied while shake removal is on.
pub fn v_apply_shake(shake_remove_active: bool) -> (r: HookStep<()>)
    ensures
        r == (if shake_remove_active {
            HookStep::Return(())
        } else {
            HookStep::CallOriginal
        }),
{
    if shake_remove_active {
        HookStep::Return(())
    } else {
        HookStep::CallOriginal
    }
}

/// `V_FadeAlpha`: while fade removal is on, the fade is fully transparent.
pub fn v_fade_alpha(fade_remove_active: bool) -> (r: HookStep<i32>)
    ensures
        r == (if fade_remove_active {
            HookStep::Return(0i32)
        } else {
            HookStep::CallOriginal
        }),
{
    if fade_remove_active {
        HookStep::Return(0)
    } else {
        HookStep::CallOriginal
    }
}

/// `S_PaintChannels`: sound is not mixed when the capture asks to skip it.
pub fn s_paint_channels(skip_paint_channels: bool) -> (r: HookStep<()>)
    ensures
        r == (if skip_paint_channels {
            HookStep::Return(())
        } else {
            HookStep::CallOriginal
        }),
{
    if skip_paint_channels {
        HookStep::Return(())
    } else {
        HookStep::CallOriginal
    }
}

/// `Con_ToggleConsole_f`: the console does not toggle while the capture prevents it.
pub fn con_toggle_console(prevent_toggle_console: bool) -> (r: HookStep<()>)
    ensures
        r == (if prevent_toggle_console {
            HookStep::Return(())
        } else {
            HookStep::CallOriginal
        }),
{
    if prevent_toggle_console {
        HookStep::Return(())
    } else {
        HookStep::CallOriginal
    }
}

/// `Host_FilterTime`, first half: when the capture skips the engine's frame-rate
/// limit, the hook reports that a frame's time has passed (1) without calling it.
pub fn host_filter_time(skip: bool) -> (r: HookStep<i32>)
    ensures
        r == (if skip {
            HookStep::Return(1i32)
        } else {
            HookStep::CallOriginal
        }),
{
    if skip {
        HookStep::Return(1)
    } else {
        HookStep::CallOriginal
    }
}

/// `Host_FilterTime`, second half: the capture hears that time passed exactly
/// when the value returned says a frame is to run (is not zero).
pub fn host_filter_time_passed(rv: i32) -> (r: bool)
    ensures
        r == (rv != 0),
{
    rv != 0
}

} // verus!
