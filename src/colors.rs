use vstd::prelude::*;
use vstd::string::StringSliceAdditionalSpecFns;

verus! {

/// Number of colors in the player palette.
pub const PALETTE_SIZE: usize = 8;

/// The player palette: red, blue, green, amber, purple, pink, teal, orange.
pub open spec fn palette_color(i: int) -> Seq<char> {
    if i == 0 {
        "#EF4444"@
    } else if i == 1 {
        "#3B82F6"@
    } else if i == 2 {
        "#10B981"@
    } else if i == 3 {
        "#F59E0B"@
    } else if i == 4 {
        "#8B5CF6"@
    } else if i == 5 {
        "#EC4899"@
    } else if i == 6 {
        "#14B8A6"@
    } else {
        "#F97316"@
    }
}

/// Sum of the byte values of `b`.
pub open spec fn byte_sum(b: Seq<u8>) -> int
    decreases b.len(),
{
    if b.len() == 0 {
        0
    } else {
        byte_sum(b.drop_last()) + b.last()
    }
}

/// The palette entry at `index`.
fn palette_entry(index: usize) -> (r: String)
    requires
        index < PALETTE_SIZE,
    ensures
        r@ == palette_color(index as int),
{
    let s: &str = if index == 0 {
        "#EF4444"
    } else if index == 1 {
        "#3B82F6"
    } else if index == 2 {
        "#10B981"
    } else if index == 3 {
        "#F59E0B"
    } else if index == 4 {
        "#8B5CF6"
    } else if index == 5 {
        "#EC4899"
    } else if index == 6 {
        "#14B8A6"
    } else {
        "#F97316"
    };
    s.to_owned()
}

/// Color of a registered player: the palette entry at the user id modulo the
/// palette size (the id read as an unsigned machine word, whose residue
/// modulo 8 is the same).
pub fn assign_player_color(user_id: i32) -> (r: String)
    ensures
        r@ == palette_color(user_id as int % 8),
{
    let shifted: i64 = user_id as i64 + 2147483648i64;
    let index: i64 = shifted % 8;
    assert(index == user_id as int % 8) by (nonlinear_arith)
        requires
            shifted == user_id + 2147483648,
            index == shifted % 8,
            shifted >= 0,
    ;
    palette_entry(index as usize)
}

/// Color of an anonymous player: the palette entry at the sum of the bytes
/// of its session token modulo the palette size (a wrapping machine-word sum
/// has the same residue modulo 8).
pub fn assign_player_color_anon(session_id: &str) -> (r: String)
    ensures
        r@ == palette_color(byte_sum(session_id.spec_bytes()) % 8),
{
    let bytes: &[u8] = session_id.as_bytes();
    let mut acc: usize = 0;
    let mut i: usize = 0;
    while i < bytes.len()
        invariant
            i <= bytes@.len(),
            bytes@ == session_id.spec_bytes(),
            acc < 8,
            acc == byte_sum(bytes@.subrange(0, i as int)) % 8,
        decreases bytes@.len() - i,
    {
        assert(bytes@.subrange(0, i + 1).drop_last() =~= bytes@.subrange(0, i as int));
        let b: u8 = bytes[i];
        let next: usize = (acc + b as usize) % 8;
        assert(next == byte_sum(bytes@.subrange(0, i + 1)) % 8) by (nonlinear_arith)
            requires
                acc == byte_sum(bytes@.subrange(0, i as int)) % 8,
                byte_sum(bytes@.subrange(0, i + 1)) == byte_sum(bytes@.subrange(0, i as int)) + b,
                next == (acc + b) % 8,
        ;
        acc = next;
        i += 1;
    }
    assert(bytes@.subrange(0, bytes@.len() as int) =~= bytes@);
    palette_entry(acc)
}

} // verus!
