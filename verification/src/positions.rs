//! Icon positions: the messages that put desktop icons back where a
//! snapshot found them.

use vstd::prelude::*;

use crate::app_state::{DesktopSnapshot, IconPosition};

verus! {

/// `LVM_SETITEMPOSITION`, the listview message that moves an icon.
pub const LVM_SETITEMPOSITION: u32 = 0x1000 + 15;

/// A point packed as `MAKELPARAM(x, y)`: the low 16 bits of `x` in the low
/// word, the low 16 bits of `y` in the high word.
pub open spec fn packed(x: i32, y: i32) -> u32 {
    ((x as u16) as u32 + (y as u16) as u32 * 65536) as u32
}

/// Packs an icon position into the lParam of `LVM_SETITEMPOSITION`.
pub fn pack_position(x: i32, y: i32) -> (r: u32)
    ensures
        r == packed(x, y),
{
    let lo = x as u16 as u32;
    let hi = y as u16 as u32;
    assert(lo | (hi << 16) == lo + hi * 65536) by (bit_vector)
        requires
            lo < 65536,
            hi < 65536,
    ;
    lo | (hi << 16)
}

/// Coordinates within the 16-bit range survive packing: the low word and
/// the high word, read back as signed 16-bit values, give `x` and `y`.
pub proof fn lemma_pack_roundtrip(x: i32, y: i32)
    requires
        -32768 <= x < 32768,
        -32768 <= y < 32768,
    ensures
        ((packed(x, y) & 0xFFFF) as u16) as i16 == x,
        ((packed(x, y) >> 16) as u16) as i16 == y,
{
    assert(((((x as u16) as u32 + (y as u16) as u32 * 65536) as u32 & 0xFFFF) as u16) as i16 == x
        && (((((x as u16) as u32 + (y as u16) as u32 * 65536) as u32 >> 16) as u16) as i16) == y)
        by (bit_vector)
        requires
            -32768 <= x < 32768,
            -32768 <= y < 32768,
    ;
}

/// The (item index, packed position) message of one icon.
pub open spec fn restore_message(p: IconPosition) -> (usize, u32) {
    (p.index, packed(p.point.0, p.point.1))
}

/// The `LVM_SETITEMPOSITION` messages (item index, packed position) that
/// restore every icon of a snapshot, in snapshot order.
pub fn restore_messages(snapshot: &DesktopSnapshot) -> (r: Vec<(usize, u32)>)
    ensures
        r@ == snapshot.positions@.map_values(|p: IconPosition| restore_message(p)),
{
    let mut out: Vec<(usize, u32)> = Vec::new();
    let mut i: usize = 0;
    while i < snapshot.positions.len()
        invariant
            i <= snapshot.positions.len(),
            out@ == snapshot.positions@.take(i as int).map_values(|p: IconPosition| restore_message(p)),
        decreases snapshot.positions.len() - i,
    {
        let p = snapshot.positions[i];
        out.push((p.index, pack_position(p.point.0, p.point.1)));
        assert(snapshot.positions@.take(i + 1).map_values(|p: IconPosition| restore_message(p))
            =~= snapshot.positions@.take(i as int).map_values(|p: IconPosition| restore_message(p)).push(restore_message(p)));
        i = i + 1;
    }
    assert(snapshot.positions@.take(i as int) =~= snapshot.positions@);
    out
}

} // verus!
