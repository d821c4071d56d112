//! The ciphertext heuristic: a statistical guess at whether a byte buffer is
//! already ciphertext, used only to warn before an encrypt run might
//! double-encrypt. Short buffers and buffers whose first 16 bytes decode as
//! UTF-8 text are taken for plaintext; otherwise the Shannon entropy of a
//! frequency histogram over at most the first 1024 bytes is compared against
//! a threshold of 6 bits per byte.
//!
//! Entropy is computed in fixed point: logarithms carry 12 fractional bits
//! (units of 1/4096 bit), which keeps every quantity an integer and pins the
//! classifier's result exactly.

use vstd::prelude::*;
use vstd::arithmetic::power2::{lemma2_to64, lemma_pow2_strictly_increases, pow2};
use vstd::slice::slice_subrange;
use vstd::utf8::valid_utf8;

verus! {

/// floor of the base-2 logarithm (0 for inputs below 2).
pub open spec fn spec_ilog2(x: nat) -> nat
    decreases x,
{
    if x < 2 {
        0
    } else {
        1 + spec_ilog2(x / 2)
    }
}

/// One square-and-compare refinement round per fractional bit: `y` is the
/// mantissa in [4096, 8192) (a fixed-point value in [1, 2)), `r` the bits of
/// the logarithm produced so far.
pub open spec fn log2_refine(y: nat, r: nat, steps: nat) -> nat
    decreases steps,
{
    if steps == 0 {
        r
    } else {
        let z = (y * y) / 4096;
        if z >= 8192 {
            log2_refine(z / 2, r * 2 + 1, (steps - 1) as nat)
        } else {
            log2_refine(z, r * 2, (steps - 1) as nat)
        }
    }
}

/// The base-2 logarithm in fixed point: integer part by shifting, then twelve
/// fractional bits by squaring the mantissa.
pub open spec fn spec_log2_fp(x: nat) -> nat {
    log2_refine((x * 4096) / pow2(spec_ilog2(x)), spec_ilog2(x), 12)
}

/// How often a byte value occurs in a sequence.
pub open spec fn count_of(s: Seq<u8>, b: u8) -> nat
    decreases s.len(),
{
    if s.len() == 0 {
        0
    } else {
        count_of(s.drop_last(), b) + if s.last() == b {
            1nat
        } else {
            0nat
        }
    }
}

/// A count's contribution to the entropy sum: `c * log2(c)`, in fixed point.
pub open spec fn clog(c: nat) -> nat {
    if c == 0 {
        0
    } else {
        c * spec_log2_fp(c)
    }
}

/// Sum of `clog` over the counts of all byte values below `b`.
pub open spec fn weighted_log_sum(s: Seq<u8>, b: nat) -> nat
    decreases b,
{
    if b == 0 {
        0
    } else {
        weighted_log_sum(s, (b - 1) as nat) + clog(count_of(s, (b - 1) as u8))
    }
}

/// The bytes the histogram ranges over: at most the first 1024.
pub open spec fn sample_of(data: Seq<u8>) -> Seq<u8> {
    if data.len() <= 1024 {
        data
    } else {
        data.take(1024)
    }
}

/// The classifier: at least 16 bytes, the first 16 not valid UTF-8, and the
/// sample's Shannon entropy above 6 bits per byte. With `n` the sample length
/// and counts `c`, the entropy `sum(c/n * log2(n/c))` exceeds 6 exactly when
/// `n*log2(n) > 6*n + sum(c*log2(c))`, all in units of 1/4096 bit.
pub open spec fn spec_is_encrypted(data: Seq<u8>) -> bool {
    let sample = sample_of(data);
    &&& data.len() >= 16
    &&& !valid_utf8(data.take(16))
    &&& sample.len() * spec_log2_fp(sample.len()) > 6 * 4096 * sample.len() + weighted_log_sum(
        sample,
        256,
    )
}

/// Relies on core::str::from_utf8: it accepts exactly the valid UTF-8 byte
/// sequences.
#[verifier::external_body]
fn utf8_check(bytes: &[u8]) -> (r: bool)
    ensures
        r == valid_utf8(bytes@),
{
    core::str::from_utf8(bytes).is_ok()
}

/// `spec_ilog2` is characterized by the power-of-two bracket around `x`.
proof fn lemma_ilog2_from_bounds(x: nat, k: nat)
    requires
        pow2(k) <= x,
        x < pow2(k + 1),
    ensures
        spec_ilog2(x) == k,
    decreases k,
{
    lemma2_to64();
    if k == 0 {
        assert(x < 2);
    } else {
        assert(pow2(k) == 2 * pow2((k - 1) as nat)) by {
            vstd::arithmetic::power2::lemma_pow2_unfold(k);
        }
        assert(pow2(k + 1) == 2 * pow2(k)) by {
            vstd::arithmetic::power2::lemma_pow2_unfold(k + 1);
        }
        assert(x >= 2);
        assert(pow2((k - 1) as nat) <= x / 2 && x / 2 < pow2(k)) by (nonlinear_arith)
            requires
                2 * pow2((k - 1) as nat) <= x,
                x < 2 * pow2(k),
                pow2(k) >= 1,
                pow2((k - 1) as nat) >= 1,
        {}
        lemma_ilog2_from_bounds(x / 2, (k - 1) as nat);
    }
}

/// The fixed-point base-2 logarithm of `x`, exact per `spec_log2_fp`, and at
/// most `10*4096 + 4095` for the sample sizes the heuristic uses.
fn log2_fp(x: u64) -> (r: u64)
    requires
        1 <= x <= 1024,
    ensures
        r == spec_log2_fp(x as nat),
        r <= 45055,
{
    let mut k: u64 = 0;
    let mut p: u64 = 1;
    proof {
        lemma2_to64();
    }
    while p * 2 <= x
        invariant
            1 <= x <= 1024,
            p == pow2(k as nat),
            p <= x,
            k <= 10,
        decreases x - p,
    {
        proof {
            lemma2_to64();
            if k >= 10 {
                if k > 10 {
                    lemma_pow2_strictly_increases(10, k as nat);
                }
                assert(p >= 1024);
                assert(false);
            }
            assert(pow2((k + 1) as nat) == 2 * pow2(k as nat)) by {
                vstd::arithmetic::power2::lemma_pow2_unfold((k + 1) as nat);
            }
        }
        p = p * 2;
        k = k + 1;
    }
    proof {
        assert(pow2((k + 1) as nat) == 2 * pow2(k as nat)) by {
            vstd::arithmetic::power2::lemma_pow2_unfold((k + 1) as nat);
        }
        lemma_ilog2_from_bounds(x as nat, k as nat);
    }
    let y0: u64 = x * 4096 / p;
    proof {
        assert(4096 <= y0 && y0 < 8192) by (nonlinear_arith)
            requires
                y0 == (x * 4096) as u64 / p,
                p <= x,
                x < 2 * p,
                1 <= p,
                x <= 1024,
        {}
    }
    let mut y: u64 = y0;
    let mut r: u64 = k;
    let mut step: u64 = 0;
    while step < 12
        invariant
            4096 <= y && y < 8192,
            step <= 12,
            k <= 10,
            r <= k * pow2(step as nat) + pow2(step as nat) - 1,
            spec_log2_fp(x as nat) == log2_refine(y as nat, r as nat, (12 - step) as nat),
        decreases 12 - step,
    {
        proof {
            lemma2_to64();
            assert(pow2((step + 1) as nat) == 2 * pow2(step as nat)) by {
                vstd::arithmetic::power2::lemma_pow2_unfold((step + 1) as nat);
            }
            assert(r <= 10 * 4096 + 4095) by (nonlinear_arith)
                requires
                    r <= k * pow2(step as nat) + pow2(step as nat) - 1,
                    k <= 10,
                    pow2(step as nat) <= pow2(12nat),
                    pow2(12nat) == 4096,
            {}
            if step < 12 {
                lemma_pow2_strictly_increases(step as nat, 12);
            }
        }
        proof {
            assert(y * y < 0x4000000) by (nonlinear_arith)
                requires
                    y < 8192,
            {}
        }
        let z = y * y / 4096;
        proof {
            assert(4096 <= z && z < 16384) by (nonlinear_arith)
                requires
                    z == (y * y) as u64 / 4096,
                    4096 <= y && y < 8192,
            {}
            assert(2 * (k * pow2(step as nat)) == k * pow2((step + 1) as nat))
                by (nonlinear_arith)
                requires
                    pow2((step + 1) as nat) == 2 * pow2(step as nat),
            {}
        }
        if z >= 8192 {
            y = z / 2;
            r = r * 2 + 1;
        } else {
            y = z;
            r = r * 2;
        }
        step = step + 1;
    }
    proof {
        lemma2_to64();
        assert(pow2(12nat) == 4096);
        assert(r <= 45055) by (nonlinear_arith)
            requires
                r <= k * pow2(12nat) + pow2(12nat) - 1,
                k <= 10,
                pow2(12nat) == 4096,
        {}
    }
    r
}

/// Estimate whether a buffer is already ciphertext. Buffers shorter than 16
/// bytes, and buffers whose first 16 bytes decode as UTF-8 text, are taken
/// for plaintext; otherwise the sample's fixed-point Shannon entropy is
/// compared against 6 bits per byte.
pub fn classify_encrypted(data: &[u8]) -> (r: bool)
    ensures
        r == spec_is_encrypted(data@),
{
    if data.len() < 16 {
        return false;
    }
    let head = slice_subrange(data, 0, 16);
    proof {
        assert(data@.take(16) =~= head@);
    }
    if utf8_check(head) {
        return false;
    }
    let n: usize = if data.len() < 1024 {
        data.len()
    } else {
        1024
    };
    proof {
        assert(sample_of(data@) =~= data@.take(n as int));
    }
    let ghost sample = sample_of(data@);
    proof {
        assert(sample.take(0) =~= Seq::<u8>::empty());
    }
    let mut counts: Vec<u64> = Vec::new();
    let mut v: usize = 0;
    while v < 256
        invariant
            counts@.len() == v,
            v <= 256,
            forall|b: int| 0 <= b < v ==> counts@[b] == 0,
        decreases 256 - v,
    {
        counts.push(0);
        v = v + 1;
    }
    let mut i: usize = 0;
    while i < n
        invariant
            n <= data@.len(),
            n <= 1024,
            i <= n,
            sample =~= data@.take(n as int),
            counts@.len() == 256,
            forall|b: int| 0 <= b < 256 ==> counts@[b] == count_of(sample.take(i as int), b as u8),
            forall|b: int| 0 <= b < 256 ==> counts@[b] <= i,
        decreases n - i,
    {
        let byte = data[i];
        proof {
            assert(sample.take(i + 1).drop_last() =~= sample.take(i as int));
            assert(sample.take(i + 1).last() == data@[i as int]);
            assert forall|b: int| 0 <= b < 256 implies #[trigger] count_of(sample.take(i + 1), b as u8)
                == count_of(sample.take(i as int), b as u8) + (if data@[i as int] == b as u8 {
                1nat
            } else {
                0nat
            }) by {
                assert(sample.take(i + 1).len() > 0);
            }
        }
        let idx: usize = byte as usize;
        let c = counts[idx];
        counts[idx] = c + 1;
        i = i + 1;
    }
    proof {
        assert(sample.take(n as int) =~= sample);
    }
    let ln = log2_fp(n as u64);
    let mut s2: u64 = 0;
    let mut b: usize = 0;
    while b < 256
        invariant
            counts@.len() == 256,
            b <= 256,
            n <= 1024,
            1 <= n,
            forall|j: int| 0 <= j < 256 ==> counts@[j] == count_of(sample, j as u8),
            forall|j: int| 0 <= j < 256 ==> counts@[j] <= n,
            s2 == weighted_log_sum(sample, b as nat),
            s2 <= b * 46137344,
        decreases 256 - b,
    {
        let c = counts[b];
        if c > 0 {
            let lc = log2_fp(c);
            proof {
                assert(c * lc <= 1024 * 45055) by (nonlinear_arith)
                    requires
                        c <= 1024,
                        lc <= 45055,
                {}
            }
            s2 = s2 + c * lc;
        }
        b = b + 1;
    }
    proof {
        assert((n as u64) * ln <= 1024 * 45055) by (nonlinear_arith)
            requires
                n <= 1024,
                ln <= 45055,
        {}
    }
    let lhs = (n as u64) * ln;
    let rhs = 6 * 4096 * (n as u64) + s2;
    lhs > rhs
}

} // verus!
