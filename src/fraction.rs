//! The presence probability of a block between the bounds, computed the way
//! single-precision arithmetic computes it, in integers.
use vstd::prelude::*;

verus! {

/// `2^e`.
pub open spec fn two_pow(e: nat) -> nat
    decreases e,
{
    if e == 0 {
        1
    } else {
        2 * two_pow((e - 1) as nat)
    }
}

/// `p / q` rounded to the nearest integer, ties to even.
pub open spec fn round_div(p: nat, q: nat) -> nat
    recommends
        q > 0,
{
    let f = p / q;
    let r = p % q;
    if 2 * r < q {
        f
    } else if 2 * r > q {
        f + 1
    } else if f % 2 == 0 {
        f
    } else {
        f + 1
    }
}

/// The smallest `e' >= e` with `a * 2^e' >= w`: for `0 < a < w` and
/// `e == 1`, the `e'` with `2^-e' <= a / w < 2^-(e'-1)`.
pub open spec fn frac_exponent(a: nat, w: nat, e: nat) -> nat
    decreases 0x100_0000 - e,
{
    if e >= 0x100_0000 || a * two_pow(e) >= w {
        e
    } else {
        frac_exponent(a, w, e + 1)
    }
}

/// The number `n` of 24-bit draws with `n * 2^-24 < d`, where `d` is
/// `1 - a / w` as single precision computes it: first `t = a / w` rounded to
/// 24 significant bits (a multiple of `2^-(e+23)` where `2^-e <= t`), then
/// `1 - t` rounded to a multiple of `2^-24`. `d * 2^24` is this integer.
pub open spec fn presence_threshold(a: nat, w: nat) -> nat {
    let e = frac_exponent(a, w, 1);
    let m = round_div(a * two_pow(e + 23), w);
    round_div((two_pow(e + 23) - m) as nat, two_pow((e - 1) as nat))
}

proof fn lemma_two_pow_add(e: nat, k: nat)
    ensures
        two_pow(e + k) == two_pow(e) * two_pow(k),
    decreases e,
{
    if e > 0 {
        let e1 = (e - 1) as nat;
        lemma_two_pow_add(e1, k);
        assert((e + k - 1) as nat == e1 + k);
        assert(two_pow(e + k) == 2 * two_pow(e1 + k));
        assert(two_pow(e) == 2 * two_pow(e1));
        assert(two_pow(e + k) == two_pow(e) * two_pow(k)) by (nonlinear_arith)
            requires
                two_pow(e + k) == 2 * two_pow(e1 + k),
                two_pow(e1 + k) == two_pow(e1) * two_pow(k),
                two_pow(e) == 2 * two_pow(e1),
        ;
    } else {
        assert(two_pow(0) == 1);
        assert(e + k == k);
    }
}

proof fn lemma_round_div_le(p: nat, q: nat, k: nat)
    requires
        q > 0,
        p <= k * q,
    ensures
        round_div(p, q) <= k,
{
    let f = p / q;
    let r = p % q;
    vstd::arithmetic::div_mod::lemma_fundamental_div_mod(p as int, q as int);
    assert(f <= k && (f == k ==> r == 0)) by (nonlinear_arith)
        requires
            p == f * q + r,
            0 <= r < q,
            p <= k * q,
    ;
}

proof fn lemma_two_pow_grows(e: nat)
    ensures
        two_pow(e) >= e + 1,
    decreases e,
{
    if e > 0 {
        lemma_two_pow_grows((e - 1) as nat);
    }
}

fn round_div_u64(p: u64, q: u64) -> (r: u64)
    requires
        q > 0,
        q <= 0x1_0000_0000,
        p < 0x1_0000_0000_0000,
    ensures
        r == round_div(p as nat, q as nat),
{
    let f = p / q;
    let r = p % q;
    if 2 * r < q {
        f
    } else if 2 * r > q {
        f + 1
    } else if f % 2 == 0 {
        f
    } else {
        f + 1
    }
}

/// Computes `presence_threshold(a, w)` for `0 < a < w <= 2^24`.
pub fn threshold(a: u64, w: u64) -> (r: u64)
    requires
        0 < a < w <= 0x100_0000,
    ensures
        r == presence_threshold(a as nat, w as nat),
        r <= 0x100_0000,
{
    let mut e: u64 = 1;
    let mut pw: u64 = 2;
    let mut p: u64 = 2 * a;
    assert(two_pow(1) == 2 * two_pow(0));
    while p < w
        invariant
            0 < a < w <= 0x100_0000,
            1 <= e < 0x100_0000,
            pw == two_pow(e as nat),
            p == a * pw,
            p < 2 * w,
            pw <= p,
            frac_exponent(a as nat, w as nat, 1) == frac_exponent(a as nat, w as nat, e as nat),
        decreases 0x100_0000 - e,
    {
        proof {
            lemma_two_pow_grows(e as nat);
        }
        e = e + 1;
        pw = 2 * pw;
        p = 2 * p;
        assert(p == a * pw) by (nonlinear_arith)
            requires
                p == 2 * (a * (pw / 2)),
                pw % 2 == 0,
        ;
        assert(pw <= p) by (nonlinear_arith)
            requires
                p == a * pw,
                a >= 1,
        ;
    }
    proof {
        assert(frac_exponent(a as nat, w as nat, e as nat) == e);
        lemma_two_pow_add(e as nat, 23);
        reveal_with_fuel(two_pow, 24);
        assert(two_pow(23) == 8388608);
        assert(a * two_pow(e as nat + 23) == p * 8388608) by (nonlinear_arith)
            requires
                two_pow(e as nat + 23) == pw * 8388608,
                p == a * pw,
        ;
    }
    let scale: u64 = pw * 8388608;
    let m = round_div_u64(p * 8388608, w);
    proof {
        lemma_round_div_le((p * 8388608) as nat, w as nat, 0x100_0000);
        assert(pw >= 2);
    }
    let r = round_div_u64(scale - m, pw / 2);
    proof {
        assert(two_pow((e - 1) as nat) == pw / 2);
        assert(scale == 0x100_0000 * (pw / 2));
        lemma_round_div_le((scale - m) as nat, (pw / 2) as nat, 0x100_0000);
    }
    r
}

} // verus!
