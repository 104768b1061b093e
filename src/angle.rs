//! Angles in microradians: wrapping into one turn, and the signed reading of
//! a wrapped angle.
use vstd::arithmetic::div_mod::lemma_fundamental_div_mod;
use vstd::arithmetic::div_mod::lemma_fundamental_div_mod_converse;
use vstd::prelude::*;

verus! {

/// One full turn, in microradians (2π rounded to the nearest step).
pub const FULL_TURN: i64 = 6_283_185;

/// Half a turn, rounded down.
pub const HALF_TURN: i64 = 3_141_592;

/// A quarter of a turn.
pub const QUARTER_TURN: i64 = 1_570_796;

/// The angle `a` brought into `[0, FULL_TURN)`.
pub open spec fn wrap_spec(a: int) -> int {
    a % (FULL_TURN as int)
}

/// The wrapped angle read as a signed one, in `(-HALF_TURN - 1, HALF_TURN]`.
pub open spec fn signed_spec(a: int) -> int {
    if wrap_spec(a) > HALF_TURN {
        wrap_spec(a) - FULL_TURN
    } else {
        wrap_spec(a)
    }
}

/// Wrapping lands in one turn, and wrapping a wrapped angle changes nothing.
pub proof fn lemma_wrap_idempotent(a: int)
    ensures
        0 <= wrap_spec(a) < FULL_TURN,
        wrap_spec(wrap_spec(a)) == wrap_spec(a),
{
    let w = wrap_spec(a);
    lemma_fundamental_div_mod(a, FULL_TURN as int);
    lemma_fundamental_div_mod_converse(w, FULL_TURN as int, 0, w);
}

/// An angle that already lies in the signed range reads back unchanged
/// after wrapping.
pub proof fn lemma_signed_of_small(a: int)
    requires
        -HALF_TURN <= a <= HALF_TURN,
    ensures
        signed_spec(a) == a,
{
    if a >= 0 {
        lemma_fundamental_div_mod_converse(a, FULL_TURN as int, 0, a);
    } else {
        lemma_fundamental_div_mod_converse(a, FULL_TURN as int, -1, a + FULL_TURN);
    }
}

/// Brings an angle into `[0, FULL_TURN)`.
pub fn wrap_angle(a: i128) -> (r: i64)
    requires
        a > i128::MIN,
    ensures
        r == wrap_spec(a as int),
        0 <= r < FULL_TURN,
{
    let f: u128 = FULL_TURN as u128;
    if a >= 0 {
        let m: u128 = (a as u128) % f;
        proof {
            lemma_fundamental_div_mod(a as int, FULL_TURN as int);
        }
        m as i64
    } else {
        let p: u128 = (-a) as u128;
        let m: u128 = p % f;
        proof {
            let k = (p as int) / (FULL_TURN as int);
            lemma_fundamental_div_mod(p as int, FULL_TURN as int);
            if m == 0 {
                assert(a == (-k) * FULL_TURN + 0);
                lemma_fundamental_div_mod_converse(a as int, FULL_TURN as int, -k, 0);
            } else {
                assert(a == (-k - 1) * FULL_TURN + (FULL_TURN - m));
                lemma_fundamental_div_mod_converse(
                    a as int,
                    FULL_TURN as int,
                    -k - 1,
                    FULL_TURN - m,
                );
            }
        }
        if m == 0 {
            0
        } else {
            FULL_TURN - (m as i64)
        }
    }
}

/// Reads an angle as a signed one; see `signed_spec`.
pub fn signed_angle(a: i64) -> (r: i64)
    ensures
        r == signed_spec(a as int),
        -HALF_TURN - 1 <= r <= HALF_TURN,
{
    let w: i64 = wrap_angle(a as i128);
    if w > HALF_TURN {
        w - FULL_TURN
    } else {
        w
    }
}

} // verus!
