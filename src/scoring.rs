use vstd::prelude::*;

verus! {

/// Seconds during which a find is worth the full score.
pub const FULL_SCORE_WINDOW: i32 = 60;

/// The time-decay curve: 100 up to one minute, a linear fall to 50 at five
/// minutes, a linear fall to 20 at ten minutes, then a flat 10.  Each linear
/// part is rounded down.
pub open spec fn decay_score(elapsed: int) -> int {
    if elapsed <= 60 {
        100
    } else if elapsed <= 300 {
        // floor(100 - (elapsed - 60) / 240 * 50)
        (24000 - (elapsed - 60) * 50) / 240
    } else if elapsed <= 600 {
        // floor(50 - (elapsed - 300) / 300 * 30)
        (15000 - (elapsed - 300) * 30) / 300
    } else {
        10
    }
}

/// Score earned by an achievement made `elapsed` seconds after the room started.
pub fn score(elapsed: i32) -> (s: i32)
    ensures
        s == decay_score(elapsed as int),
        10 <= s <= 100,
{
    if elapsed <= FULL_SCORE_WINDOW {
        100
    } else if elapsed <= 300 {
        let over: i32 = elapsed - 60;
        (24000 - over * 50) / 240
    } else if elapsed <= 600 {
        let over: i32 = elapsed - 300;
        (15000 - over * 30) / 300
    } else {
        10
    }
}

/// What a claim earns once the store has answered whether its unique insert
/// of the item went through: the item's score if it did, nothing if the
/// item was already taken.
pub fn credit_for_insert(inserted: bool, elapsed: i32) -> (r: (bool, i32))
    ensures
        r.0 == inserted,
        r.1 == if inserted {
            decay_score(elapsed as int)
        } else {
            0
        },
{
    if inserted {
        (true, score(elapsed))
    } else {
        (false, 0)
    }
}

/// The decay curve never rises: a later find is never worth more.
pub proof fn lemma_score_non_increasing(a: int, b: int)
    requires
        a <= b,
    ensures
        decay_score(b) <= decay_score(a),
        10 <= decay_score(b) <= 100,
{
    if 60 < a && b <= 300 {
        assert((24000 - (b - 60) * 50) / 240 <= (24000 - (a - 60) * 50) / 240) by (nonlinear_arith)
            requires a <= b;
    } else if 300 < a && b <= 600 {
        assert((15000 - (b - 300) * 30) / 300 <= (15000 - (a - 300) * 30) / 300) by (nonlinear_arith)
            requires a <= b;
    }
    if 60 < b && b <= 300 {
        assert(50 <= (24000 - (b - 60) * 50) / 240 <= 100) by (nonlinear_arith)
            requires 60 < b <= 300;
    } else if 300 < b && b <= 600 {
        assert(20 <= (15000 - (b - 300) * 30) / 300 <= 50) by (nonlinear_arith)
            requires 300 < b <= 600;
    }
    if 60 < a && a <= 300 {
        assert(50 <= (24000 - (a - 60) * 50) / 240 <= 100) by (nonlinear_arith)
            requires 60 < a <= 300;
    } else if 300 < a && a <= 600 {
        assert(20 <= (15000 - (a - 300) * 30) / 300 <= 50) by (nonlinear_arith)
            requires 300 < a <= 600;
    }
}

} // verus!
