//! Integer square root, bit by bit — lets the drivers report a vector magnitude without floats.
use vstd::prelude::*;

verus! {

/// The square root of a power of four in the `u32` range (0 when `bit` is not one).
pub open spec fn pow4_root(bit: u32) -> int {
    if bit == 1 { 1 }
    else if bit == 4 { 2 }
    else if bit == 16 { 4 }
    else if bit == 64 { 8 }
    else if bit == 256 { 16 }
    else if bit == 1024 { 32 }
    else if bit == 4096 { 64 }
    else if bit == 16384 { 128 }
    else if bit == 65536 { 256 }
    else if bit == 262144 { 512 }
    else if bit == 1048576 { 1024 }
    else if bit == 4194304 { 2048 }
    else if bit == 16777216 { 4096 }
    else if bit == 67108864 { 8192 }
    else if bit == 268435456 { 16384 }
    else if bit == 1073741824 { 32768 }
    else { 0 }
}

/// `r` is the integer square root of `n`.
pub open spec fn is_isqrt(n: int, r: int) -> bool {
    0 <= r && r * r <= n < (r + 1) * (r + 1)
}

/// The integer square root of `n` (for `n >= 0`).
pub open spec fn root(n: int) -> int {
    choose|r: int| is_isqrt(n, r)
}

/// A number has one integer square root, and [`root`] is it.
pub proof fn root_is_the_isqrt(n: int, r: int)
    requires
        is_isqrt(n, r),
    ensures
        root(n) == r,
{
    let q = root(n);
    assert(is_isqrt(n, q));
    if q < r {
        assert((q + 1) * (q + 1) <= r * r) by (nonlinear_arith)
            requires 0 <= q + 1 <= r;
    } else if r < q {
        assert((r + 1) * (r + 1) <= q * q) by (nonlinear_arith)
            requires 0 <= r + 1 <= q;
    }
}

proof fn lemma_pow4_step(bit: u32)
    requires
        pow4_root(bit) > 0,
    ensures
        pow4_root(bit) * pow4_root(bit) == bit,
        bit >> 2u32 == bit / 4,
        bit >= 4 ==> pow4_root(bit / 4) > 0 && pow4_root(bit / 4) * 2 == pow4_root(bit),
        bit < 4 ==> bit == 1 && bit / 4 == 0,
{
    assert(bit >> 2u32 == bit / 4) by (bit_vector);
}

proof fn lemma_square_expand(r: int, p: int)
    ensures
        (r + p) * (r + p) == r * r + 2 * r * p + p * p,
        (r + 2 * p) * (r + 2 * p) == (r + p + p) * (r + p + p),
{
    assert((r + p) * (r + p) == r * r + 2 * r * p + p * p) by (nonlinear_arith);
}

proof fn lemma_root_small(r: int, n: int)
    requires
        0 <= r,
        r * r <= n,
        n < 0x1_0000_0000,
    ensures
        r < 0x1_0000,
{
    if r >= 0x1_0000 {
        assert(r * r >= 0x1_0000 * 0x1_0000) by (nonlinear_arith)
            requires r >= 0x1_0000;
    }
}

proof fn lemma_next_fits(r: int, p: int, n: int)
    requires
        0 <= r,
        1 <= p,
        (r + p) * (r + p) <= n,
        n < 0x1_0000_0000,
    ensures
        (r + p) * p < 0x1_0000_0000,
{
    assert((r + p) * p <= (r + p) * (r + p)) by (nonlinear_arith)
        requires 0 <= r, 1 <= p;
}

proof fn lemma_halve(r: int, p: int, q: int)
    requires
        q * 2 == p,
    ensures
        2 * r * q == r * p,
        (r + 2 * q) * (r + 2 * q) == (r + p) * (r + p),
{
    assert(2 * r * q == r * (q * 2)) by (nonlinear_arith);
}

/// Integer square root (bit by bit): the largest `r` with `r * r <= n`.
pub fn isqrt(n: u32) -> (r: u16)
    ensures
        is_isqrt(n as int, r as int),
{
    let ghost n0 = n as int;
    let mut n = n;
    let mut x: u32 = 0;
    let mut bit: u32 = 1u32 << 30u32;
    assert(bit == 1073741824u32) by (bit_vector)
        requires bit == 1u32 << 30u32;
    while bit > n
        invariant
            n as int == n0,
            pow4_root(bit) > 0 || bit == 0,
            bit != 0 ==> n0 < 4 * (bit as int),
            bit == 0 ==> n0 == 0,
        decreases bit,
    {
        proof { lemma_pow4_step(bit); }
        bit = bit >> 2;
    }
    let ghost mut r: int = 0;
    proof {
        if bit != 0 {
            lemma_pow4_step(bit);
            let p = pow4_root(bit);
            assert((0 + 2 * p) * (0 + 2 * p) == 4 * (p * p)) by (nonlinear_arith);
        }
    }
    while bit != 0
        invariant
            pow4_root(bit) > 0 || bit == 0,
            0 <= r,
            n as int == n0 - r * r,
            bit != 0 ==> x as int == 2 * r * pow4_root(bit),
            bit != 0 ==> n0 < (r + 2 * pow4_root(bit)) * (r + 2 * pow4_root(bit)),
            bit == 0 ==> x as int == r,
            bit == 0 ==> n0 < (r + 1) * (r + 1),
            n0 < 0x1_0000_0000,
        decreases bit,
    {
        let ghost p = pow4_root(bit);
        proof {
            lemma_pow4_step(bit);
            lemma_square_expand(r, p);
            assert(x >> 1u32 == x / 2) by (bit_vector);
        }
        if n >= x && n - x >= bit {
            proof { lemma_next_fits(r, p, n0); }
            n = n - x - bit;
            x = (x >> 1) + bit;
            proof {
                assert((r + p) * p == r * p + p * p) by (nonlinear_arith);
                assert(2 * r * p == 2 * (r * p)) by (nonlinear_arith);
                r = r + p;
                if bit >= 4 {
                    lemma_halve(r, p, pow4_root(bit / 4));
                }
            }
        } else {
            x = x >> 1;
            proof {
                assert(2 * r * p == 2 * (r * p)) by (nonlinear_arith);
                if bit >= 4 {
                    lemma_halve(r, p, pow4_root(bit / 4));
                }
            }
        }
        bit = bit >> 2;
    }
    proof { lemma_root_small(r, n0); }
    x as u16
}

} // verus!
