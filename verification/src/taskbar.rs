use vstd::prelude::*;

verus! {

/// `SHAppBarMessage` message that reads the taskbar state.
pub const ABM_GETSTATE: u32 = 4;
/// `SHAppBarMessage` message that sets the taskbar state.
pub const ABM_SETSTATE: u32 = 10;
/// Taskbar state bit: auto-hide.
pub const ABS_AUTOHIDE: u32 = 0x01;
/// Taskbar state bit: always on top.
pub const ABS_ALWAYSONTOP: u32 = 0x02;

/// Whether a taskbar state read from the system has auto-hide on.
pub fn autohide_active(taskbar_state: u32) -> (r: bool)
    ensures
        r == (taskbar_state & ABS_AUTOHIDE != 0),
{
    taskbar_state & ABS_AUTOHIDE != 0
}

/// The state written to put the taskbar into auto-hide.
pub fn enable_flags() -> (r: u32)
    ensures
        r == ABS_AUTOHIDE | ABS_ALWAYSONTOP,
        r == 3,
{
    assert(ABS_AUTOHIDE | ABS_ALWAYSONTOP == 3u32) by (bit_vector);
    ABS_AUTOHIDE | ABS_ALWAYSONTOP
}

/// The state written to restore the taskbar from `original_state`: the
/// original with always-on-top added (a bare 0 becomes always-on-top only,
/// as Windows 7 and later expect), or always-on-top alone without one.
pub fn restore_flags(original_state: Option<u32>) -> (r: u32)
    ensures
        r == match original_state {
            Some(0) => ABS_ALWAYSONTOP,
            Some(flags) => flags | ABS_ALWAYSONTOP,
            None => ABS_ALWAYSONTOP,
        },
{
    match original_state {
        Some(0) => ABS_ALWAYSONTOP,
        Some(flags) => flags | ABS_ALWAYSONTOP,
        None => ABS_ALWAYSONTOP,
    }
}

/// Restoring always keeps the taskbar on top, adds no other bit than
/// always-on-top to the original, and treats a bare 0 original like any
/// other: the restored state is always the original with always-on-top set.
pub proof fn lemma_restore_flags(original: u32)
    ensures
        (original | ABS_ALWAYSONTOP) & ABS_ALWAYSONTOP == ABS_ALWAYSONTOP,
        (original | ABS_ALWAYSONTOP) & ABS_AUTOHIDE == original & ABS_AUTOHIDE,
        (original | ABS_ALWAYSONTOP) & !ABS_ALWAYSONTOP == original & !ABS_ALWAYSONTOP,
        (if original == 0 { ABS_ALWAYSONTOP } else { original | ABS_ALWAYSONTOP }) == original
            | ABS_ALWAYSONTOP,
{
    assert((original | 2u32) & 2u32 == 2u32) by (bit_vector);
    assert((original | 2u32) & 1u32 == original & 1u32) by (bit_vector);
    assert((original | 2u32) & !2u32 == original & !2u32) by (bit_vector);
    assert(original == 0 ==> original | 2u32 == 2u32) by (bit_vector);
}

} // verus!
