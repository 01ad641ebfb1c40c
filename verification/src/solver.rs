//! Quadratic and quartic equation solving over wide fixed-point values.
//!
//! The torus equation produces intermediates far larger than scene
//! coordinates, so the solvers work on 128-bit raw values, and every step
//! is checked: a step that would leave the representable range turns the
//! whole computation into "no roots", stated exactly by the contracts.

use vstd::prelude::*;
use crate::fixed::{tdiv, iabs, sqrt_floor, cbrt_floor, lemma_sqrt_floor, lemma_cbrt_floor,
    isqrt, icbrt, SCALE, EPSILON};

verus! {

/// View of a checked wide value.
pub open spec fn o2i(x: Option<i128>) -> Option<int> {
    match x {
        Option::Some(v) => Option::Some(v as int),
        Option::None => Option::None,
    }
}

pub open spec fn in_wide(x: int) -> bool {
    i128::MIN <= x <= i128::MAX
}

/// Checked wide sum.
pub open spec fn wadd_s(a: Option<int>, b: Option<int>) -> Option<int> {
    match (a, b) {
        (Option::Some(x), Option::Some(y)) => if in_wide(x + y) {
            Option::Some(x + y)
        } else {
            Option::None
        },
        _ => Option::None,
    }
}

/// Checked wide difference.
pub open spec fn wsub_s(a: Option<int>, b: Option<int>) -> Option<int> {
    match (a, b) {
        (Option::Some(x), Option::Some(y)) => if in_wide(x - y) {
            Option::Some(x - y)
        } else {
            Option::None
        },
        _ => Option::None,
    }
}

/// Checked wide negation.
pub open spec fn wneg_s(a: Option<int>) -> Option<int> {
    match a {
        Option::Some(x) => if in_wide(-x) {
            Option::Some(-x)
        } else {
            Option::None
        },
        Option::None => Option::None,
    }
}

/// Checked wide fixed-point product.
pub open spec fn wmul_s(a: Option<int>, b: Option<int>) -> Option<int> {
    match (a, b) {
        (Option::Some(x), Option::Some(y)) => if in_wide(x * y) {
            Option::Some(tdiv(x * y, SCALE as int))
        } else {
            Option::None
        },
        _ => Option::None,
    }
}

/// Checked wide fixed-point quotient; a zero divisor gives nothing.
pub open spec fn wdiv_s(a: Option<int>, b: Option<int>) -> Option<int> {
    match (a, b) {
        (Option::Some(x), Option::Some(y)) => if y == 0 || !in_wide(x * SCALE) {
            Option::None
        } else {
            Option::Some(tdiv(x * SCALE, y))
        },
        _ => Option::None,
    }
}

/// Checked wide fixed-point square root; negative inputs give nothing.
pub open spec fn wsqrt_s(a: Option<int>) -> Option<int> {
    match a {
        Option::Some(x) => if x < 0 || !in_wide(x * SCALE) {
            Option::None
        } else {
            Option::Some(sqrt_floor(x * SCALE))
        },
        Option::None => Option::None,
    }
}

/// Checked wide fixed-point cube root, odd-symmetric like the float one.
pub open spec fn wcbrt_s(a: Option<int>) -> Option<int> {
    match a {
        Option::Some(x) => if iabs(x) * SCALE * SCALE > u128::MAX {
            Option::None
        } else {
            let m = cbrt_floor(iabs(x) * SCALE * SCALE);
            Option::Some(
                if x < 0 {
                    -m
                } else {
                    m
                },
            )
        },
        Option::None => Option::None,
    }
}

pub(crate) fn wadd(a: Option<i128>, b: Option<i128>) -> (r: Option<i128>)
    ensures
        o2i(r) == wadd_s(o2i(a), o2i(b)),
{
    match (a, b) {
        (Some(x), Some(y)) => x.checked_add(y),
        _ => None,
    }
}

pub(crate) fn wsub(a: Option<i128>, b: Option<i128>) -> (r: Option<i128>)
    ensures
        o2i(r) == wsub_s(o2i(a), o2i(b)),
{
    match (a, b) {
        (Some(x), Some(y)) => x.checked_sub(y),
        _ => None,
    }
}

pub(crate) fn wneg(a: Option<i128>) -> (r: Option<i128>)
    ensures
        o2i(r) == wneg_s(o2i(a)),
{
    match a {
        Some(x) => if x == i128::MIN {
            None
        } else {
            Some(-x)
        },
        None => None,
    }
}

pub(crate) fn wmul(a: Option<i128>, b: Option<i128>) -> (r: Option<i128>)
    ensures
        o2i(r) == wmul_s(o2i(a), o2i(b)),
{
    match (a, b) {
        (Some(x), Some(y)) => match x.checked_mul(y) {
            Some(p) => Some(p / (SCALE as i128)),
            None => None,
        },
        _ => None,
    }
}

pub(crate) fn wdiv(a: Option<i128>, b: Option<i128>) -> (r: Option<i128>)
    ensures
        o2i(r) == wdiv_s(o2i(a), o2i(b)),
{
    match (a, b) {
        (Some(x), Some(y)) => {
            if y == 0 {
                return None;
            }
            let xm: u128 = if x < 0 {
                if x == i128::MIN {
                    0x8000_0000_0000_0000_0000_0000_0000_0000u128
                } else {
                    (-x) as u128
                }
            } else {
                x as u128
            };
            let ym: u128 = if y < 0 {
                if y == i128::MIN {
                    0x8000_0000_0000_0000_0000_0000_0000_0000u128
                } else {
                    (-y) as u128
                }
            } else {
                y as u128
            };
            if xm > (i128::MAX / SCALE as i128) as u128 {
                proof {
                    assert(iabs((x as int) * SCALE) > i128::MAX as int) by (nonlinear_arith)
                        requires
                            iabs(x as int) == xm as int,
                            xm as int > (i128::MAX as int) / (SCALE as int),
                            SCALE == 1_000_000,
                    {}
                }
                return None;
            }
            proof {
                assert(iabs((x as int) * SCALE) == (xm as int) * (SCALE as int)
                    && (xm as int) * (SCALE as int) <= i128::MAX as int) by (nonlinear_arith)
                    requires
                        iabs(x as int) == xm as int,
                        xm as int <= (i128::MAX as int) / (SCALE as int),
                        SCALE == 1_000_000,
                {}
            }
            let pm: u128 = xm * (SCALE as u128);
            let qm: u128 = pm / ym;
            let neg: bool = (x < 0) != (y < 0);
            if neg {
                Some(-(qm as i128))
            } else {
                Some(qm as i128)
            }
        },
        _ => None,
    }
}

pub(crate) fn wsqrt(a: Option<i128>) -> (r: Option<i128>)
    ensures
        o2i(r) == wsqrt_s(o2i(a)),
{
    match a {
        Some(x) => {
            if x < 0 {
                return None;
            }
            match x.checked_mul(SCALE as i128) {
                Some(p) => {
                    let s = isqrt(p as u128);
                    proof {
                        lemma_sqrt_floor(p as int);
                        assert(sqrt_floor(p as int) <= i128::MAX) by (nonlinear_arith)
                            requires
                                sqrt_floor(p as int) >= 0,
                                sqrt_floor(p as int) * sqrt_floor(p as int) <= p as int,
                                p <= i128::MAX,
                        {}
                    }
                    Some(s as i128)
                },
                None => None,
            }
        },
        None => None,
    }
}

pub(crate) fn wcbrt(a: Option<i128>) -> (r: Option<i128>)
    ensures
        o2i(r) == wcbrt_s(o2i(a)),
{
    match a {
        Some(x) => {
            let m: u128 = if x < 0 {
                if x == i128::MIN {
                    0x8000_0000_0000_0000_0000_0000_0000_0000u128
                } else {
                    (-x) as u128
                }
            } else {
                x as u128
            };
            let p = match m.checked_mul(SCALE as u128) {
                Some(p1) => p1.checked_mul(SCALE as u128),
                None => None,
            };
            match p {
                Some(p2) => {
                    let c = icbrt(p2);
                    proof {
                        lemma_cbrt_floor(p2 as int);
                        assert(cbrt_floor(p2 as int) <= i128::MAX) by (nonlinear_arith)
                            requires
                                cbrt_floor(p2 as int) >= 0,
                                cbrt_floor(p2 as int) * cbrt_floor(p2 as int) * cbrt_floor(
                                    p2 as int) <= p2 as int,
                                p2 <= u128::MAX,
                        {}
                    }
                    if x < 0 {
                        Some(-(c as i128))
                    } else {
                        Some(c as i128)
                    }
                },
                None => {
                    proof {
                        assert((m as int) * SCALE * SCALE > u128::MAX) by (nonlinear_arith)
                            requires
                                SCALE == 1_000_000,
                                ((m as int) * SCALE > u128::MAX as int) || ((m as int) * SCALE
                                    <= u128::MAX as int && (m as int) * SCALE * SCALE
                                    > u128::MAX as int),
                        {}
                    }
                    None
                },
            }
        },
        None => None,
    }
}

/// Wide power by repeated fixed-point multiplication.
pub open spec fn wpow_s(a: Option<int>, e: nat) -> Option<int>
    decreases e,
{
    if e == 0 {
        Option::Some(SCALE as int)
    } else {
        wmul_s(wpow_s(a, (e - 1) as nat), a)
    }
}

pub(crate) fn wpow(a: Option<i128>, e: u32) -> (r: Option<i128>)
    ensures
        o2i(r) == wpow_s(o2i(a), e as nat),
{
    let mut acc: Option<i128> = Some(SCALE as i128);
    let mut i: u32 = 0;
    while i < e
        invariant
            i <= e,
            o2i(acc) == wpow_s(o2i(a), i as nat),
        decreases e - i,
    {
        acc = wmul(acc, a);
        i = i + 1;
    }
    acc
}

/// A checked value strictly above the zero band.
pub open spec fn wpos_s(a: Option<int>) -> bool {
    match a {
        Option::Some(v) => v > EPSILON,
        Option::None => false,
    }
}

/// A checked value inside the zero band.
pub open spec fn wzero_s(a: Option<int>) -> bool {
    match a {
        Option::Some(v) => -EPSILON <= v <= EPSILON,
        Option::None => false,
    }
}

pub(crate) fn wpos(a: Option<i128>) -> (r: bool)
    ensures
        r == wpos_s(o2i(a)),
{
    match a {
        Some(v) => v > EPSILON as i128,
        None => false,
    }
}

pub(crate) fn wzero(a: Option<i128>) -> (r: bool)
    ensures
        r == wzero_s(o2i(a)),
{
    match a {
        Some(v) => -(EPSILON as i128) <= v && v <= EPSILON as i128,
        None => false,
    }
}

/// View of a checked pair.
pub open spec fn p2i(x: Option<(i128, i128)>) -> Option<(int, int)> {
    match x {
        Option::Some((a, b)) => Option::Some((a as int, b as int)),
        Option::None => Option::None,
    }
}

/// The two quadratic-formula roots, `(-b + sqrt(disc)) / 2a` first, when
/// the discriminant `b^2 - 4ac` clears the zero band; nothing otherwise
/// or when a step leaves the representable range.
pub open spec fn quad_os(a: Option<int>, b: Option<int>, c: Option<int>) -> Option<(int, int)> {
    let disc = wsub_s(
        wmul_s(b, b),
        wmul_s(wmul_s(Option::Some(4 * SCALE as int), a), c),
    );
    if !wpos_s(disc) {
        Option::None
    } else {
        let sq = wsqrt_s(disc);
        let x1 = wdiv_s(wadd_s(wneg_s(b), sq), wmul_s(Option::Some(2 * SCALE as int), a));
        let x2 = wdiv_s(wsub_s(wneg_s(b), sq), wmul_s(Option::Some(2 * SCALE as int), a));
        match (x1, x2) {
            (Option::Some(u), Option::Some(v)) => Option::Some((u, v)),
            _ => Option::None,
        }
    }
}

pub(crate) fn quad_o(a: Option<i128>, b: Option<i128>, c: Option<i128>) -> (r: Option<(i128, i128)>)
    ensures
        p2i(r) == quad_os(o2i(a), o2i(b), o2i(c)),
{
    let disc = wsub(
        wmul(b, b),
        wmul(wmul(Some(4 * SCALE as i128), a), c),
    );
    if !wpos(disc) {
        return None;
    }
    let sq = wsqrt(disc);
    let x1 = wdiv(wadd(wneg(b), sq), wmul(Some(2 * SCALE as i128), a));
    let x2 = wdiv(wsub(wneg(b), sq), wmul(Some(2 * SCALE as i128), a));
    match (x1, x2) {
        (Some(u), Some(v)) => Some((u, v)),
        _ => None,
    }
}

/// Quadratic solver over wide raw values.
pub fn solve_quadratic(a: i128, b: i128, c: i128) -> (r: Option<(i128, i128)>)
    ensures
        p2i(r) == quad_os(
            Option::Some(a as int),
            Option::Some(b as int),
            Option::Some(c as int),
        ),
{
    quad_o(Some(a), Some(b), Some(c))
}

/// The four roots of the depressed quartic `x^4 + a x^2 + b x + c` by the
/// resolvent-cubic method; nothing when a branch would need the root of a
/// value outside the positive range (a complex branch), or a step leaves
/// the representable range.  Meaningful for `b` outside the zero band.
pub open spec fn depressed_quartic_s(a: Option<int>, b: Option<int>, c: Option<int>) -> Option<
    (int, int, int, int)> {
    let p = wsub_s(wneg_s(wdiv_s(wpow_s(a, 2), Option::Some(12 * SCALE as int))), c);
    let q = wsub_s(
        wadd_s(
            wneg_s(wdiv_s(wpow_s(a, 3), Option::Some(108 * SCALE as int))),
            wdiv_s(wmul_s(a, c), Option::Some(3 * SCALE as int)),
        ),
        wdiv_s(wpow_s(b, 2), Option::Some(8 * SCALE as int)),
    );
    let w1 = wadd_s(
        wdiv_s(wpow_s(q, 2), Option::Some(4 * SCALE as int)),
        wdiv_s(wpow_s(p, 3), Option::Some(27 * SCALE as int)),
    );
    if !wpos_s(w1) {
        Option::None
    } else {
        let w2 = wadd_s(wneg_s(wdiv_s(q, Option::Some(2 * SCALE as int))), wsqrt_s(w1));
        let w = wcbrt_s(w2);
        let y = wsub_s(
            wadd_s(wdiv_s(a, Option::Some(6 * SCALE as int)), w),
            wdiv_s(p, wmul_s(Option::Some(3 * SCALE as int), w)),
        );
        let e1 = wsub_s(wmul_s(Option::Some(2 * SCALE as int), y), a);
        if !wpos_s(e1) {
            Option::None
        } else {
            let e = wsqrt_s(e1);
            let f1 = wdiv_s(wmul_s(Option::Some(2 * SCALE as int), b), e);
            if !wpos_s(f1) {
                Option::None
            } else {
                let f = wsqrt_s(f1);
                let g = wsub_s(wmul_s(Option::Some(-2 * SCALE as int), y), a);
                let half = Option::Some((SCALE as int) / 2);
                let r1 = wmul_s(half, wadd_s(wneg_s(e), wadd_s(g, f)));
                let r2 = wmul_s(half, wsub_s(wneg_s(e), wadd_s(g, f)));
                let r3 = wmul_s(half, wadd_s(e, wsub_s(g, f)));
                let r4 = wmul_s(half, wsub_s(e, wsub_s(g, f)));
                match (r1, r2, r3, r4) {
                    (
                        Option::Some(v1),
                        Option::Some(v2),
                        Option::Some(v3),
                        Option::Some(v4),
                    ) => Option::Some((v1, v2, v3, v4)),
                    _ => Option::None,
                }
            }
        }
    }
}

#[verifier::rlimit(30)]
fn depressed_quartic(a: Option<i128>, b: Option<i128>, c: Option<i128>) -> (r: Option<
    (i128, i128, i128, i128)>)
    ensures
        (match r {
            Option::Some((v1, v2, v3, v4)) => Option::Some(
                (v1 as int, v2 as int, v3 as int, v4 as int),
            ),
            Option::None => Option::None,
        }) == depressed_quartic_s(o2i(a), o2i(b), o2i(c)),
{
    let p = wsub(wneg(wdiv(wpow(a, 2), Some(12 * SCALE as i128))), c);
    let q = wsub(
        wadd(
            wneg(wdiv(wpow(a, 3), Some(108 * SCALE as i128))),
            wdiv(wmul(a, c), Some(3 * SCALE as i128)),
        ),
        wdiv(wpow(b, 2), Some(8 * SCALE as i128)),
    );
    let w1 = wadd(
        wdiv(wpow(q, 2), Some(4 * SCALE as i128)),
        wdiv(wpow(p, 3), Some(27 * SCALE as i128)),
    );
    if !wpos(w1) {
        return None;
    }
    let w2 = wadd(wneg(wdiv(q, Some(2 * SCALE as i128))), wsqrt(w1));
    let w = wcbrt(w2);
    let y = wsub(
        wadd(wdiv(a, Some(6 * SCALE as i128)), w),
        wdiv(p, wmul(Some(3 * SCALE as i128), w)),
    );
    let e1 = wsub(wmul(Some(2 * SCALE as i128), y), a);
    if !wpos(e1) {
        return None;
    }
    let e = wsqrt(e1);
    let f1 = wdiv(wmul(Some(2 * SCALE as i128), b), e);
    if !wpos(f1) {
        return None;
    }
    let f = wsqrt(f1);
    let g = wsub(wmul(Some(-2 * SCALE as i128), y), a);
    let half: Option<i128> = Some(SCALE as i128 / 2);
    let r1 = wmul(half, wadd(wneg(e), wadd(g, f)));
    let r2 = wmul(half, wsub(wneg(e), wadd(g, f)));
    let r3 = wmul(half, wadd(e, wsub(g, f)));
    let r4 = wmul(half, wsub(e, wsub(g, f)));
    match (r1, r2, r3, r4) {
        (Some(v1), Some(v2), Some(v3), Some(v4)) => Some((v1, v2, v3, v4)),
        _ => None,
    }
}

/// The biquadratic branch: real square roots of the quadratic's positive
/// roots, each with its negation.
pub open spec fn biquad_part_s(x: int) -> Seq<int> {
    if x > EPSILON {
        match wsqrt_s(Option::Some(x)) {
            Option::Some(s) => seq![s, -s],
            Option::None => Seq::empty(),
        }
    } else {
        Seq::empty()
    }
}

/// Every candidate shifted back by the depressing substitution, kept in
/// order; a shift that leaves the representable range drops its candidate.
pub open spec fn shift_from_s(ts: Seq<int>, sh: int, i: int) -> Seq<int>
    decreases ts.len() - i,
{
    if i < 0 || i >= ts.len() {
        Seq::empty()
    } else {
        let rest = shift_from_s(ts, sh, i + 1);
        if in_wide(ts[i] - sh) {
            seq![ts[i] - sh] + rest
        } else {
            rest
        }
    }
}

/// All real roots of the monic quartic
/// `x^4 + a3 x^3 + a2 x^2 + a1 x + a0`, over wide raw coefficients:
/// depress the quartic, solve the biquadratic directly when the odd term
/// vanishes, otherwise use the resolvent cubic, then undo the
/// substitution.
pub open spec fn quartic_s(a3: Option<int>, a2: Option<int>, a1: Option<int>, a0: Option<
    int>) -> Seq<int> {
    let a4 = Option::Some(SCALE as int);
    let qa = wadd_s(
        wdiv_s(
            wmul_s(Option::Some(-3 * SCALE as int), wpow_s(a3, 2)),
            wmul_s(Option::Some(8 * SCALE as int), wpow_s(a4, 2)),
        ),
        wdiv_s(a2, a4),
    );
    let qb = wadd_s(
        wsub_s(
            wdiv_s(wpow_s(a3, 3), wmul_s(Option::Some(8 * SCALE as int), wpow_s(a4, 3))),
            wdiv_s(wmul_s(a3, a2), wmul_s(Option::Some(2 * SCALE as int), wpow_s(a4, 2))),
        ),
        wdiv_s(a1, a4),
    );
    let qc = wadd_s(
        wsub_s(
            wadd_s(
                wdiv_s(
                    wmul_s(Option::Some(-3 * SCALE as int), wpow_s(a3, 4)),
                    wmul_s(Option::Some(256 * SCALE as int), wpow_s(a4, 4)),
                ),
                wdiv_s(
                    wmul_s(a2, wpow_s(a3, 2)),
                    wmul_s(Option::Some(16 * SCALE as int), wpow_s(a4, 3)),
                ),
            ),
            wdiv_s(wmul_s(a3, a1), wmul_s(Option::Some(4 * SCALE as int), wpow_s(a4, 2))),
        ),
        wdiv_s(a0, a4),
    );
    let ts: Seq<int> = if wzero_s(qb) {
        match quad_os(Option::Some(SCALE as int), qa, qc) {
            Option::Some((x1, x2)) => biquad_part_s(x1) + biquad_part_s(x2),
            Option::None => Seq::empty(),
        }
    } else {
        match depressed_quartic_s(qa, qb, qc) {
            Option::Some((r1, r2, r3, r4)) => seq![r1, r2, r3, r4],
            Option::None => Seq::empty(),
        }
    };
    let sh = wdiv_s(a3, wmul_s(Option::Some(4 * SCALE as int), a4));
    match sh {
        Option::Some(shv) => shift_from_s(ts, shv, 0),
        Option::None => Seq::empty(),
    }
}

/// View of a vector of wide values.
pub open spec fn seq_i(s: Seq<i128>) -> Seq<int> {
    s.map_values(|x: i128| x as int)
}

/// Quartic solver over checked wide values (monic: the quartic
/// coefficient is one).
#[verifier::rlimit(50)]
pub fn quartic_o(oa3: Option<i128>, oa2: Option<i128>, oa1: Option<i128>, oa0: Option<
    i128>) -> (r: Vec<i128>)
    ensures
        seq_i(r@) == quartic_s(o2i(oa3), o2i(oa2), o2i(oa1), o2i(oa0)),
{
    let a4: Option<i128> = Some(SCALE as i128);
    let qa = wadd(
        wdiv(
            wmul(Some(-3 * SCALE as i128), wpow(oa3, 2)),
            wmul(Some(8 * SCALE as i128), wpow(a4, 2)),
        ),
        wdiv(oa2, a4),
    );
    let qb = wadd(
        wsub(
            wdiv(wpow(oa3, 3), wmul(Some(8 * SCALE as i128), wpow(a4, 3))),
            wdiv(wmul(oa3, oa2), wmul(Some(2 * SCALE as i128), wpow(a4, 2))),
        ),
        wdiv(oa1, a4),
    );
    let qc = wadd(
        wsub(
            wadd(
                wdiv(
                    wmul(Some(-3 * SCALE as i128), wpow(oa3, 4)),
                    wmul(Some(256 * SCALE as i128), wpow(a4, 4)),
                ),
                wdiv(
                    wmul(oa2, wpow(oa3, 2)),
                    wmul(Some(16 * SCALE as i128), wpow(a4, 3)),
                ),
            ),
            wdiv(wmul(oa3, oa1), wmul(Some(4 * SCALE as i128), wpow(a4, 2))),
        ),
        wdiv(oa0, a4),
    );
    let mut ts: Vec<i128> = Vec::new();
    if wzero(qb) {
        match quad_o(Some(SCALE as i128), qa, qc) {
            Some((x1, x2)) => {
                push_biquad(&mut ts, x1);
                push_biquad(&mut ts, x2);
                proof {
                    assert(seq_i(ts@) =~= biquad_part_s(x1 as int) + biquad_part_s(x2 as int));
                }
            },
            None => {},
        }
    } else {
        match depressed_quartic(qa, qb, qc) {
            Some((r1, r2, r3, r4)) => {
                ts.push(r1);
                ts.push(r2);
                ts.push(r3);
                ts.push(r4);
                proof {
                    assert(seq_i(ts@) =~= seq![r1 as int, r2 as int, r3 as int, r4 as int]);
                }
            },
            None => {},
        }
    }
    proof {
        assert(seq_i(ts@) =~= (if wzero_s(o2i(qb)) {
            match quad_os(Option::Some(SCALE as int), o2i(qa), o2i(qc)) {
                Option::Some((x1, x2)) => biquad_part_s(x1) + biquad_part_s(x2),
                Option::None => Seq::<int>::empty(),
            }
        } else {
            match depressed_quartic_s(o2i(qa), o2i(qb), o2i(qc)) {
                Option::Some((r1, r2, r3, r4)) => seq![r1, r2, r3, r4],
                Option::None => Seq::<int>::empty(),
            }
        }));
    }
    let sh = wdiv(oa3, wmul(Some(4 * SCALE as i128), a4));
    match sh {
        Some(shv) => shift_all(&ts, shv),
        None => Vec::new(),
    }
}

/// Quartic solver over wide raw values (monic: the quartic coefficient
/// is one).
pub fn solve_quartic(a3: i128, a2: i128, a1: i128, a0: i128) -> (r: Vec<i128>)
    ensures
        seq_i(r@) == quartic_s(
            Option::Some(a3 as int),
            Option::Some(a2 as int),
            Option::Some(a1 as int),
            Option::Some(a0 as int),
        ),
{
    quartic_o(Some(a3), Some(a2), Some(a1), Some(a0))
}

fn push_biquad(ts: &mut Vec<i128>, x: i128)
    ensures
        seq_i(final(ts)@) == seq_i(old(ts)@) + biquad_part_s(x as int),
{
    if x > EPSILON as i128 {
        match wsqrt(Some(x)) {
            Some(s) => {
                proof {
                    lemma_sqrt_floor((x as int) * SCALE);
                }
                ts.push(s);
                ts.push(-s);
                proof {
                    assert(seq_i(final(ts)@) =~= seq_i(old(ts)@) + biquad_part_s(x as int));
                }
            },
            None => {
                proof {
                    assert(seq_i(final(ts)@) =~= seq_i(old(ts)@) + biquad_part_s(x as int));
                }
            },
        }
    } else {
        proof {
            assert(seq_i(final(ts)@) =~= seq_i(old(ts)@) + biquad_part_s(x as int));
        }
    }
}

fn shift_all(ts: &Vec<i128>, sh: i128) -> (r: Vec<i128>)
    ensures
        seq_i(r@) == shift_from_s(seq_i(ts@), sh as int, 0),
{
    let mut out: Vec<i128> = Vec::new();
    let mut i: usize = 0;
    while i < ts.len()
        invariant
            i <= ts.len(),
            shift_from_s(seq_i(ts@), sh as int, 0) == seq_i(out@) + shift_from_s(
                seq_i(ts@),
                sh as int,
                i as int,
            ),
        decreases ts.len() - i,
    {
        match ts[i].checked_sub(sh) {
            Some(v) => {
                out.push(v);
                proof {
                    assert(seq_i(out@) =~= seq_i(out@.drop_last()) + seq![v as int]);
                    assert(seq_i(out@.drop_last()) + (seq![v as int] + shift_from_s(
                        seq_i(ts@), sh as int, i as int + 1,
                    )) =~= (seq_i(out@.drop_last()) + seq![v as int]) + shift_from_s(
                        seq_i(ts@), sh as int, i as int + 1,
                    ));
                }
            },
            None => {},
        }
        i = i + 1;
    }
    proof {
        assert(shift_from_s(seq_i(ts@), sh as int, ts@.len() as int) =~= Seq::<int>::empty());
        assert(seq_i(out@) + Seq::<int>::empty() =~= seq_i(out@));
    }
    out
}

/// The smallest candidate strictly above `tmin`, scanning from index
/// `i` with the best survivor so far: only candidates past `tmin`
/// compete, and a later one replaces the current only when smaller by
/// more than the zero band, so the first of several near-equal minima
/// survives.
pub open spec fn min_greater_from_s(ts: Seq<int>, tmin: int, i: int, acc: Option<int>)
    -> Option<int>
    decreases ts.len() - i,
{
    if i < 0 || i >= ts.len() {
        acc
    } else {
        let next = if ts[i] > tmin {
            match acc {
                Option::Some(a) => if a - ts[i] > EPSILON {
                    Option::Some(ts[i])
                } else {
                    Option::Some(a)
                },
                Option::None => Option::Some(ts[i]),
            }
        } else {
            acc
        };
        min_greater_from_s(ts, tmin, i + 1, next)
    }
}

/// The smallest candidate strictly above `tmin`: candidates at or below
/// the bound are dropped first, so a nearer candidate behind the bound
/// does not hide a farther valid one.
pub open spec fn min_greater_s(ts: Seq<int>, tmin: int) -> Option<int> {
    min_greater_from_s(ts, tmin, 0, Option::None)
}

/// Select the smallest candidate strictly above `tmin`.
pub fn min_greater_than(tmin: i128, ts: &Vec<i128>) -> (r: Option<i128>)
    ensures
        (match r {
            Option::Some(v) => Option::Some(v as int),
            Option::None => Option::None,
        }) == min_greater_s(seq_i(ts@), tmin as int),
{
    let mut acc: Option<i128> = None;
    let mut i: usize = 0;
    while i < ts.len()
        invariant
            i <= ts.len(),
            min_greater_from_s(seq_i(ts@), tmin as int, 0, Option::None)
                == min_greater_from_s(seq_i(ts@), tmin as int, i as int, o2i(acc)),
        decreases ts.len() - i,
    {
        let x = ts[i];
        if x > tmin {
            acc = match acc {
                Some(a) => {
                    let replace = match a.checked_sub(x) {
                        Some(d) => d > EPSILON as i128,
                        None => a > x,
                    };
                    if replace {
                        Some(x)
                    } else {
                        Some(a)
                    }
                },
                None => Some(x),
            };
        }
        i = i + 1;
    }
    acc
}

/// LAW — candidate selection: a selected candidate is one of the
/// candidates and lies strictly above `tmin`, and every candidate above
/// `tmin` reaches at least to within the zero band of it; none selected
/// means none lies above `tmin`.
pub proof fn lemma_min_greater(ts: Seq<int>, tmin: int)
    ensures
        min_greater_s(ts, tmin) matches Option::Some(m) ==> {
            &&& exists|j: int| 0 <= j < ts.len() && m == ts[j]
            &&& tmin < m
            &&& forall|j: int| 0 <= j < ts.len() && tmin < ts[j] ==> m <= ts[j] + EPSILON
        },
        min_greater_s(ts, tmin) is None ==> forall|j: int|
            0 <= j < ts.len() ==> ts[j] <= tmin,
{
    lemma_min_greater_from(ts, tmin, 0, Option::None);
}

proof fn lemma_min_greater_from(ts: Seq<int>, tmin: int, i: int, acc: Option<int>)
    requires
        0 <= i <= ts.len(),
        acc matches Option::Some(a) ==> tmin < a,
    ensures
        min_greater_from_s(ts, tmin, i, acc) matches Option::Some(m) ==> {
            &&& (Option::Some(m) == acc || exists|j: int| i <= j < ts.len() && m == ts[j])
            &&& tmin < m
            &&& (acc matches Option::Some(a) ==> m <= a)
            &&& forall|j: int| i <= j < ts.len() && tmin < ts[j] ==> m <= ts[j] + EPSILON
        },
        min_greater_from_s(ts, tmin, i, acc) is None ==> acc is None && forall|j: int|
            i <= j < ts.len() ==> ts[j] <= tmin,
    decreases ts.len() - i,
{
    if i >= ts.len() {
    } else {
        let next = if ts[i] > tmin {
            match acc {
                Option::Some(a) => if a - ts[i] > EPSILON {
                    Option::Some(ts[i])
                } else {
                    Option::Some(a)
                },
                Option::None => Option::Some(ts[i]),
            }
        } else {
            acc
        };
        lemma_min_greater_from(ts, tmin, i + 1, next);
    }
}

} // verus!
