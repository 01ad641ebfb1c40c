//! The transform mini-language: a semicolon-separated sequence of
//! `Translate x y z`, `RotX d`, `RotY d`, `RotZ d`, `Scale s` or
//! `Scale x y z` tokens, composed left to right into one matrix.
//!
//! An unrecognized token, a wrong argument count or a malformed number is
//! a hard parse failure.  Angles are degrees; numbers are plain decimals
//! with up to twelve whole digits, fractional digits beyond the
//! representable six are dropped.

use vstd::prelude::*;
use crate::fixed::SCALE;
use crate::matrix::SquareMatrix4;
use crate::vector::Vector4;
use crate::general::RayError;
use crate::trig::degs_to_rads;
use vstd::string::StringSliceAdditionalSpecFns;

verus! {

/// One parsed token of the mini-language (angles in raw degrees).
#[derive(Clone, Copy, Debug, PartialEq, Eq, Structural)]
pub enum TransformOp {
    Translate { x: i64, y: i64, z: i64 },
    RotX { degrees: i64 },
    RotY { degrees: i64 },
    RotZ { degrees: i64 },
    ScaleUniform { factor: i64 },
    ScaleXyz { x: i64, y: i64, z: i64 },
}

pub open spec fn is_ws(b: u8) -> bool {
    b == 32 || b == 9 || b == 10 || b == 13
}

pub open spec fn is_digit(b: u8) -> bool {
    48 <= b <= 57
}

/// First non-whitespace position at or after `i`, within `j`.
pub open spec fn skip_ws_s(s: Seq<u8>, i: int, j: int) -> int
    decreases j - i,
{
    if i < j && 0 <= i < s.len() && is_ws(s[i]) {
        skip_ws_s(s, i + 1, j)
    } else {
        i
    }
}

/// End of the range `[i, j)` with trailing whitespace dropped.
pub open spec fn trim_end_s(s: Seq<u8>, i: int, j: int) -> int
    decreases j - i,
{
    if j > i && 0 <= j - 1 < s.len() && is_ws(s[j - 1]) {
        trim_end_s(s, i, j - 1)
    } else {
        j
    }
}

/// Position of the first semicolon at or after `i`, or `j`.
pub open spec fn seg_end_s(s: Seq<u8>, i: int, j: int) -> int
    decreases j - i,
{
    if i < j && 0 <= i < s.len() && s[i] != 59 {
        seg_end_s(s, i + 1, j)
    } else {
        i
    }
}

/// Position of the first whitespace at or after `i`, or `j`.
pub open spec fn token_end_s(s: Seq<u8>, i: int, j: int) -> int
    decreases j - i,
{
    if i < j && 0 <= i < s.len() && !is_ws(s[i]) {
        token_end_s(s, i + 1, j)
    } else {
        i
    }
}

/// Position of the first dot at or after `i`, or `j`.
pub open spec fn dot_pos_s(s: Seq<u8>, i: int, j: int) -> int
    decreases j - i,
{
    if i < j && 0 <= i < s.len() && s[i] != 46 {
        dot_pos_s(s, i + 1, j)
    } else {
        i
    }
}

/// Whole digits folded left to right onto `acc`; more than twelve whole
/// digits leave the representable range and fail.
pub open spec fn digits_val_s(s: Seq<u8>, i: int, j: int, acc: i64) -> Option<i64>
    decreases j - i,
{
    if i >= j {
        Option::Some(acc)
    } else if !(0 <= i < s.len() && is_digit(s[i])) {
        Option::None
    } else {
        let a2 = acc * 10 + (s[i] - 48);
        if a2 > 999_999_999_999 {
            Option::None
        } else {
            digits_val_s(s, i + 1, j, a2 as i64)
        }
    }
}

pub open spec fn pow10_s(k: int) -> int {
    if k <= 0 {
        1
    } else if k == 1 {
        10
    } else if k == 2 {
        100
    } else if k == 3 {
        1000
    } else if k == 4 {
        10000
    } else if k == 5 {
        100000
    } else {
        1000000
    }
}

/// Fractional digits: the first six scale to millionths, later ones are
/// validated and dropped.
pub open spec fn frac_val_s(s: Seq<u8>, i: int, j: int, k: int, acc: i64) -> Option<i64>
    decreases j - i,
{
    if i >= j {
        Option::Some((acc * pow10_s(6 - k)) as i64)
    } else if !(0 <= i < s.len() && is_digit(s[i])) {
        Option::None
    } else if k >= 6 {
        frac_val_s(s, i + 1, j, k, acc)
    } else {
        frac_val_s(s, i + 1, j, k + 1, (acc * 10 + (s[i] - 48)) as i64)
    }
}

/// The raw value of the decimal in `[i, j)`: optional minus sign, one or
/// more whole digits, then optionally a dot and one or more fractional
/// digits.
pub open spec fn number_s(s: Seq<u8>, i: int, j: int) -> Option<i64> {
    let p = if i < j && 0 <= i < s.len() && s[i] == 45 {
        i + 1
    } else {
        i
    };
    let neg = p != i;
    let dp = dot_pos_s(s, p, j);
    if p >= dp {
        Option::None
    } else {
        match digits_val_s(s, p, dp, 0i64) {
            Option::Some(whole) => {
                let frac = if dp < j {
                    if dp + 1 >= j {
                        Option::None
                    } else {
                        frac_val_s(s, dp + 1, j, 0, 0i64)
                    }
                } else {
                    Option::Some(0i64)
                };
                match frac {
                    Option::Some(f) => {
                        let v = whole * SCALE + f;
                        Option::Some(
                            if neg {
                                (-v) as i64
                            } else {
                                v as i64
                            },
                        )
                    },
                    Option::None => Option::None,
                }
            },
            Option::None => Option::None,
        }
    }
}

/// The whitespace-separated numbers in `[i, j)`, all or nothing.
pub open spec fn nums_from_s(s: Seq<u8>, i: int, j: int) -> Option<Seq<i64>>
    decreases j - i,
    via nums_from_s_dec
{
    if !(0 <= i <= j <= s.len()) {
        Option::None
    } else {
        let p = skip_ws_s(s, i, j);
        if p >= j {
            Option::Some(Seq::empty())
        } else {
            let te = token_end_s(s, p, j);
            match number_s(s, p, te) {
                Option::Some(v) => match nums_from_s(s, te, j) {
                    Option::Some(rest) => Option::Some(seq![v] + rest),
                    Option::None => Option::None,
                },
                Option::None => Option::None,
            }
        }
    }
}

/// The bytes of `[i, j)` start with `Translate` (byte values spell the
/// keyword out).
pub open spec fn kw_translate_s(s: Seq<u8>, i: int, j: int) -> bool {
    j - i >= 9 && 0 <= i && i + 9 <= s.len() && s[i] == 84 && s[i + 1] == 114 && s[i + 2]
        == 97 && s[i + 3] == 110 && s[i + 4] == 115 && s[i + 5] == 108 && s[i + 6] == 97 && s[i
        + 7] == 116 && s[i + 8] == 101
}

/// The bytes of `[i, j)` start with `Rot` and the given axis byte.
pub open spec fn kw_rot_s(s: Seq<u8>, i: int, j: int, axis: u8) -> bool {
    j - i >= 4 && 0 <= i && i + 4 <= s.len() && s[i] == 82 && s[i + 1] == 111 && s[i + 2]
        == 116 && s[i + 3] == axis
}

/// The bytes of `[i, j)` start with `Scale`.
pub open spec fn kw_scale_s(s: Seq<u8>, i: int, j: int) -> bool {
    j - i >= 5 && 0 <= i && i + 5 <= s.len() && s[i] == 83 && s[i + 1] == 99 && s[i + 2] == 97
        && s[i + 3] == 108 && s[i + 4] == 101
}

/// The token in `[i, j)`: keyword, then its arguments, with the exact
/// arity the keyword demands.
pub open spec fn segment_op_s(s: Seq<u8>, i: int, j: int) -> Option<TransformOp> {
    let a = skip_ws_s(s, i, j);
    let b = trim_end_s(s, a, j);
    if kw_translate_s(s, a, b) {
        match nums_from_s(s, a + 9, b) {
            Option::Some(ns) => if ns.len() == 3 {
                Option::Some(TransformOp::Translate { x: ns[0], y: ns[1], z: ns[2] })
            } else {
                Option::None
            },
            Option::None => Option::None,
        }
    } else if kw_rot_s(s, a, b, 88) {
        match nums_from_s(s, a + 4, b) {
            Option::Some(ns) => if ns.len() == 1 {
                Option::Some(TransformOp::RotX { degrees: ns[0] })
            } else {
                Option::None
            },
            Option::None => Option::None,
        }
    } else if kw_rot_s(s, a, b, 89) {
        match nums_from_s(s, a + 4, b) {
            Option::Some(ns) => if ns.len() == 1 {
                Option::Some(TransformOp::RotY { degrees: ns[0] })
            } else {
                Option::None
            },
            Option::None => Option::None,
        }
    } else if kw_rot_s(s, a, b, 90) {
        match nums_from_s(s, a + 4, b) {
            Option::Some(ns) => if ns.len() == 1 {
                Option::Some(TransformOp::RotZ { degrees: ns[0] })
            } else {
                Option::None
            },
            Option::None => Option::None,
        }
    } else if kw_scale_s(s, a, b) {
        match nums_from_s(s, a + 5, b) {
            Option::Some(ns) => if ns.len() == 1 {
                Option::Some(TransformOp::ScaleUniform { factor: ns[0] })
            } else if ns.len() == 3 {
                Option::Some(TransformOp::ScaleXyz { x: ns[0], y: ns[1], z: ns[2] })
            } else {
                Option::None
            },
            Option::None => Option::None,
        }
    } else {
        Option::None
    }
}

/// All tokens of the semicolon-separated list in `[i, j)`, in order; a
/// trailing semicolon ends the list.
pub open spec fn ops_from_s(s: Seq<u8>, i: int, j: int) -> Option<Seq<TransformOp>>
    decreases j - i,
    via ops_from_s_dec
{
    if !(0 <= i <= j <= s.len()) {
        Option::None
    } else if i >= j {
        Option::Some(Seq::empty())
    } else {
        let e = seg_end_s(s, i, j);
        match segment_op_s(s, i, e) {
            Option::Some(op) => {
                let rest = if e >= j {
                    Option::Some(Seq::<TransformOp>::empty())
                } else {
                    ops_from_s(s, e + 1, j)
                };
                match rest {
                    Option::Some(rest) => Option::Some(seq![op] + rest),
                    Option::None => Option::None,
                }
            },
            Option::None => Option::None,
        }
    }
}

/// The primitive matrix one token builds.  A uniform scale carries its
/// factor into the homogeneous corner as well; rotations convert their
/// degrees to radians first.
pub open spec fn op_matrix_s(op: TransformOp) -> SquareMatrix4 {
    match op {
        TransformOp::Translate { x, y, z } => SquareMatrix4::translation_s(
            Vector4 { x, y, z, w: SCALE },
        ),
        TransformOp::RotX { degrees } => SquareMatrix4::rot_x_s(
            crate::trig::degs_to_rads_s(degrees as int),
        ),
        TransformOp::RotY { degrees } => SquareMatrix4::rot_y_s(
            crate::trig::degs_to_rads_s(degrees as int),
        ),
        TransformOp::RotZ { degrees } => SquareMatrix4::rot_z_s(
            crate::trig::degs_to_rads_s(degrees as int),
        ),
        TransformOp::ScaleUniform { factor } => SquareMatrix4::scaling_s(
            Vector4 { x: factor, y: factor, z: factor, w: factor },
        ),
        TransformOp::ScaleXyz { x, y, z } => SquareMatrix4::scaling_s(
            Vector4 { x, y, z, w: SCALE },
        ),
    }
}

/// The tokens' matrices composed left to right onto `acc`.
pub open spec fn compose_from_s(ops: Seq<TransformOp>, i: int, acc: SquareMatrix4)
    -> SquareMatrix4
    decreases ops.len() - i,
{
    if i < 0 || i >= ops.len() {
        acc
    } else {
        compose_from_s(ops, i + 1, acc.mul_s(op_matrix_s(ops[i])))
    }
}

/// The matrix of a whole transform description: the token matrices
/// folded onto the identity in token order; nothing when any token fails
/// to parse.
pub open spec fn parse_transform_s(s: Seq<u8>) -> Option<SquareMatrix4> {
    let a = skip_ws_s(s, 0, s.len() as int);
    let b = trim_end_s(s, a, s.len() as int);
    match ops_from_s(s, a, b) {
        Option::Some(ops) => Option::Some(
            compose_from_s(ops, 0, SquareMatrix4::identity_s()),
        ),
        Option::None => Option::None,
    }
}

fn skip_ws(s: &[u8], i: usize, j: usize) -> (r: usize)
    requires
        i <= j <= s@.len(),
    ensures
        r == skip_ws_s(s@, i as int, j as int),
        i <= r <= j,
    decreases j - i,
{
    if i < j && (s[i] == 32 || s[i] == 9 || s[i] == 10 || s[i] == 13) {
        skip_ws(s, i + 1, j)
    } else {
        i
    }
}

fn trim_end(s: &[u8], i: usize, j: usize) -> (r: usize)
    requires
        i <= j <= s@.len(),
    ensures
        r == trim_end_s(s@, i as int, j as int),
        i <= r <= j,
    decreases j - i,
{
    if j > i && (s[j - 1] == 32 || s[j - 1] == 9 || s[j - 1] == 10 || s[j - 1] == 13) {
        trim_end(s, i, j - 1)
    } else {
        j
    }
}

fn seg_end(s: &[u8], i: usize, j: usize) -> (r: usize)
    requires
        i <= j <= s@.len(),
    ensures
        r == seg_end_s(s@, i as int, j as int),
        i <= r <= j,
    decreases j - i,
{
    if i < j && s[i] != 59 {
        seg_end(s, i + 1, j)
    } else {
        i
    }
}

fn token_end(s: &[u8], i: usize, j: usize) -> (r: usize)
    requires
        i <= j <= s@.len(),
    ensures
        r == token_end_s(s@, i as int, j as int),
        i <= r <= j,
    decreases j - i,
{
    if i < j && !(s[i] == 32 || s[i] == 9 || s[i] == 10 || s[i] == 13) {
        token_end(s, i + 1, j)
    } else {
        i
    }
}

fn dot_pos(s: &[u8], i: usize, j: usize) -> (r: usize)
    requires
        i <= j <= s@.len(),
    ensures
        r == dot_pos_s(s@, i as int, j as int),
        i <= r <= j,
    decreases j - i,
{
    if i < j && s[i] != 46 {
        dot_pos(s, i + 1, j)
    } else {
        i
    }
}

fn digits_val(s: &[u8], i: usize, j: usize, acc: i64) -> (r: Option<i64>)
    requires
        i <= j <= s@.len(),
        0 <= acc <= 999_999_999_999,
    ensures
        r == digits_val_s(s@, i as int, j as int, acc),
        r matches Option::Some(w) ==> 0 <= w <= 999_999_999_999,
    decreases j - i,
{
    if i >= j {
        Some(acc)
    } else if !(48 <= s[i] && s[i] <= 57) {
        None
    } else {
        let a2 = acc * 10 + (s[i] - 48) as i64;
        if a2 > 999_999_999_999 {
            None
        } else {
            digits_val(s, i + 1, j, a2)
        }
    }
}

fn frac_val(s: &[u8], i: usize, j: usize, k: u32, acc: i64) -> (r: Option<i64>)
    requires
        i <= j <= s@.len(),
        0 <= k <= 6,
        0 <= acc < pow10_s(k as int),
    ensures
        r == frac_val_s(s@, i as int, j as int, k as int, acc),
        r matches Option::Some(f) ==> 0 <= f <= 999_999,
    decreases j - i,
{
    if i >= j {
        let p: i64 = if k >= 6 {
            1
        } else if k == 5 {
            10
        } else if k == 4 {
            100
        } else if k == 3 {
            1000
        } else if k == 2 {
            10000
        } else if k == 1 {
            100000
        } else {
            1000000
        };
        Some(acc * p)
    } else if !(48 <= s[i] && s[i] <= 57) {
        None
    } else if k >= 6 {
        frac_val(s, i + 1, j, k, acc)
    } else {
        frac_val(s, i + 1, j, k + 1, acc * 10 + (s[i] - 48) as i64)
    }
}

fn number(s: &[u8], i: usize, j: usize) -> (r: Option<i64>)
    requires
        i <= j <= s@.len(),
    ensures
        r == number_s(s@, i as int, j as int),
{
    let p = if i < j && s[i] == 45 {
        i + 1
    } else {
        i
    };
    let neg = p != i;
    let dp = dot_pos(s, p, j);
    if p >= dp {
        return None;
    }
    match digits_val(s, p, dp, 0) {
        Some(whole) => {
            let frac: Option<i64> = if dp < j {
                if dp + 1 >= j {
                    None
                } else {
                    frac_val(s, dp + 1, j, 0, 0)
                }
            } else {
                Some(0)
            };
            match frac {
                Some(f) => {
                    let v = whole * SCALE + f;
                    Some(
                        if neg {
                            -v
                        } else {
                            v
                        },
                    )
                },
                None => None,
            }
        },
        None => None,
    }
}

fn nums_from(s: &[u8], i: usize, j: usize) -> (r: Option<Vec<i64>>)
    requires
        i <= j <= s@.len(),
    ensures
        (match r {
            Option::Some(ns) => Option::Some(ns@),
            Option::None => Option::None,
        }) == nums_from_s(s@, i as int, j as int),
    decreases j - i,
{
    let p = skip_ws(s, i, j);
    if p >= j {
        return Some(Vec::new());
    }
    let te = token_end(s, p, j);
    proof {
        // The skip stopped on a non-whitespace byte, so the token is
        // nonempty and the recursion shrinks.
        lemma_skip_ws_stops(s@, i as int, j as int);
        lemma_token_end_ge(s@, p as int + 1, j as int);
    }
    match number(s, p, te) {
        Some(v) => match nums_from(s, te, j) {
            Some(rest) => {
                let mut out: Vec<i64> = Vec::new();
                out.push(v);
                let mut q: usize = 0;
                let rest_len = rest.len();
                while q < rest_len
                    invariant
                        q <= rest_len,
                        rest_len == rest@.len(),
                        out@ == seq![v] + rest@.subrange(0, q as int),
                    decreases rest_len - q,
                {
                    out.push(rest[q]);
                    proof {
                        assert(out@ =~= seq![v] + rest@.subrange(0, q as int + 1));
                    }
                    q = q + 1;
                }
                proof {
                    assert(rest@.subrange(0, rest_len as int) =~= rest@);
                }
                Some(out)
            },
            None => None,
        },
        None => None,
    }
}

#[via_fn]
proof fn nums_from_s_dec(s: Seq<u8>, i: int, j: int) {
    if 0 <= i <= j <= s.len() {
        lemma_skip_ws_stops(s, i, j);
        let p = skip_ws_s(s, i, j);
        if p < j {
            lemma_token_end_ge(s, p + 1, j);
        }
    }
}

#[via_fn]
proof fn ops_from_s_dec(s: Seq<u8>, i: int, j: int) {
    if 0 <= i <= j <= s.len() {
        lemma_seg_end_ge(s, i, j);
    }
}

/// `seg_end_s` never moves backward.
proof fn lemma_seg_end_ge(s: Seq<u8>, i: int, j: int)
    requires
        0 <= i <= j <= s.len(),
    ensures
        i <= seg_end_s(s, i, j) <= j,
    decreases j - i,
{
    if i < j && s[i] != 59 {
        lemma_seg_end_ge(s, i + 1, j);
    }
}

/// The position `skip_ws_s` stops at holds a non-whitespace byte, or
/// is the range's end.
proof fn lemma_skip_ws_stops(s: Seq<u8>, i: int, j: int)
    requires
        0 <= i <= j <= s.len(),
    ensures
        skip_ws_s(s, i, j) < j ==> !is_ws(s[skip_ws_s(s, i, j)]),
        i <= skip_ws_s(s, i, j) <= j,
    decreases j - i,
{
    if i < j && is_ws(s[i]) {
        lemma_skip_ws_stops(s, i + 1, j);
    }
}

/// `token_end_s` never moves backward.
proof fn lemma_token_end_ge(s: Seq<u8>, i: int, j: int)
    requires
        0 <= i <= j <= s.len(),
    ensures
        i <= token_end_s(s, i, j) <= j,
    decreases j - i,
{
    if i < j && !is_ws(s[i]) {
        lemma_token_end_ge(s, i + 1, j);
    }
}

fn segment_op(s: &[u8], i: usize, j: usize) -> (r: Option<TransformOp>)
    requires
        i <= j <= s@.len(),
    ensures
        r == segment_op_s(s@, i as int, j as int),
{
    let a = skip_ws(s, i, j);
    let b = trim_end(s, a, j);
    if b - a >= 9 && s[a] == 84 && s[a + 1] == 114 && s[a + 2] == 97 && s[a + 3] == 110 && s[a
        + 4] == 115 && s[a + 5] == 108 && s[a + 6] == 97 && s[a + 7] == 116 && s[a + 8] == 101 {
        match nums_from(s, a + 9, b) {
            Some(ns) => if ns.len() == 3 {
                Some(TransformOp::Translate { x: ns[0], y: ns[1], z: ns[2] })
            } else {
                None
            },
            None => None,
        }
    } else if b - a >= 4 && s[a] == 82 && s[a + 1] == 111 && s[a + 2] == 116 && s[a + 3] == 88 {
        match nums_from(s, a + 4, b) {
            Some(ns) => if ns.len() == 1 {
                Some(TransformOp::RotX { degrees: ns[0] })
            } else {
                None
            },
            None => None,
        }
    } else if b - a >= 4 && s[a] == 82 && s[a + 1] == 111 && s[a + 2] == 116 && s[a + 3] == 89 {
        match nums_from(s, a + 4, b) {
            Some(ns) => if ns.len() == 1 {
                Some(TransformOp::RotY { degrees: ns[0] })
            } else {
                None
            },
            None => None,
        }
    } else if b - a >= 4 && s[a] == 82 && s[a + 1] == 111 && s[a + 2] == 116 && s[a + 3] == 90 {
        match nums_from(s, a + 4, b) {
            Some(ns) => if ns.len() == 1 {
                Some(TransformOp::RotZ { degrees: ns[0] })
            } else {
                None
            },
            None => None,
        }
    } else if b - a >= 5 && s[a] == 83 && s[a + 1] == 99 && s[a + 2] == 97 && s[a + 3] == 108
        && s[a + 4] == 101 {
        match nums_from(s, a + 5, b) {
            Some(ns) => if ns.len() == 1 {
                Some(TransformOp::ScaleUniform { factor: ns[0] })
            } else if ns.len() == 3 {
                Some(TransformOp::ScaleXyz { x: ns[0], y: ns[1], z: ns[2] })
            } else {
                None
            },
            None => None,
        }
    } else {
        None
    }
}

fn ops_from(s: &[u8], i: usize, j: usize) -> (r: Option<Vec<TransformOp>>)
    requires
        i <= j <= s@.len(),
    ensures
        (match r {
            Option::Some(ops) => Option::Some(ops@),
            Option::None => Option::None,
        }) == ops_from_s(s@, i as int, j as int),
    decreases j - i,
{
    if i >= j {
        return Some(Vec::new());
    }
    let e = seg_end(s, i, j);
    match segment_op(s, i, e) {
        Some(op) => {
            let rest = if e >= j {
                Some(Vec::new())
            } else {
                ops_from(s, e + 1, j)
            };
            match rest {
                Some(rest) => {
                    let mut out: Vec<TransformOp> = Vec::new();
                    out.push(op);
                    let mut q: usize = 0;
                    let rest_len = rest.len();
                    while q < rest_len
                        invariant
                            q <= rest_len,
                            rest_len == rest@.len(),
                            out@ == seq![op] + rest@.subrange(0, q as int),
                        decreases rest_len - q,
                    {
                        out.push(rest[q]);
                        proof {
                            assert(out@ =~= seq![op] + rest@.subrange(0, q as int + 1));
                        }
                        q = q + 1;
                    }
                    proof {
                        assert(rest@.subrange(0, rest_len as int) =~= rest@);
                    }
                    Some(out)
                },
                None => None,
            }
        },
        None => None,
    }
}

/// The primitive matrix one token builds.
pub fn op_matrix(op: TransformOp) -> (r: SquareMatrix4)
    ensures
        r == op_matrix_s(op),
{
    match op {
        TransformOp::Translate { x, y, z } => SquareMatrix4::translation(
            Vector4 { x, y, z, w: SCALE },
        ),
        TransformOp::RotX { degrees } => SquareMatrix4::rot_x(degs_to_rads(degrees)),
        TransformOp::RotY { degrees } => SquareMatrix4::rot_y(degs_to_rads(degrees)),
        TransformOp::RotZ { degrees } => SquareMatrix4::rot_z(degs_to_rads(degrees)),
        TransformOp::ScaleUniform { factor } => SquareMatrix4::scaling(
            Vector4 { x: factor, y: factor, z: factor, w: factor },
        ),
        TransformOp::ScaleXyz { x, y, z } => SquareMatrix4::scaling(
            Vector4 { x, y, z, w: SCALE },
        ),
    }
}

/// The tokens' matrices composed left to right onto the identity.
pub fn compose_ops(ops: &Vec<TransformOp>) -> (r: SquareMatrix4)
    ensures
        r == compose_from_s(ops@, 0, SquareMatrix4::identity_s()),
{
    let mut acc = SquareMatrix4::identity();
    let mut i: usize = 0;
    while i < ops.len()
        invariant
            i <= ops.len(),
            compose_from_s(ops@, 0, SquareMatrix4::identity_s()) == compose_from_s(
                ops@,
                i as int,
                acc,
            ),
        decreases ops.len() - i,
    {
        acc = acc.mul(&op_matrix(ops[i]));
        i = i + 1;
    }
    acc
}

/// Parse a whole transform description, given as bytes, into its
/// composed matrix.  Fails exactly when the description does not follow
/// the mini-language.
pub fn parse_transform_bytes(b: &[u8]) -> (r: Result<SquareMatrix4, RayError>)
    ensures
        parse_transform_s(b@) is Some <==> r is Ok,
        r matches Ok(m) ==> parse_transform_s(b@) == Option::Some(m),
        r matches Err(e) ==> e == RayError::BadTransform,
{
    let n = b.len();
    let a0 = skip_ws(b, 0, n);
    let b0 = trim_end(b, a0, n);
    match ops_from(b, a0, b0) {
        Some(ops) => Ok(compose_ops(&ops)),
        None => Err(RayError::BadTransform),
    }
}

/// Parse a whole transform description into its composed matrix.  Fails
/// exactly when the description does not follow the mini-language.
pub fn parse_transform(s: &str) -> (r: Result<SquareMatrix4, RayError>)
    ensures
        parse_transform_s(s.spec_bytes()) is Some <==> r is Ok,
        r matches Ok(m) ==> parse_transform_s(s.spec_bytes()) == Option::Some(m),
        r matches Err(e) ==> e == RayError::BadTransform,
{
    parse_transform_bytes(s.as_bytes())
}

} // verus!
