//! Batch helpers over price slices: rejected on empty input before any
//! processing.

use vstd::arithmetic::div_mod::{
    lemma_div_is_ordered_by_denominator, lemma_multiply_divide_lt, lemma_small_mod,
};
use vstd::arithmetic::power2::*;
use vstd::bits::{
    lemma_u64_low_bits_mask_is_mod, lemma_u64_shl_is_mul, lemma_u64_shr_is_div, low_bits_mask,
};
use vstd::prelude::*;

use crate::error::{TaError, TaResult};
use crate::fp;
use crate::fsqrt::{raw_exp, raw_mant, FRAC_MASK, HIDDEN_BIT};
use crate::types::Comparison;

verus! {

/// The IEEE-754 sum of a sequence of patterns, left to right from `0.0`.
pub open spec fn sum_slice_bits(s: Seq<u64>) -> u64
    decreases s.len(),
{
    if s.len() == 0 {
        fp::ZERO_BITS
    } else {
        fp::add_bits(sum_slice_bits(s.drop_last()), s.last())
    }
}

/// The arithmetic mean of the prices, or `EmptyIterator` on an empty slice.
pub fn mean(prices: &Vec<u64>) -> (r: TaResult<u64>)
    ensures
        r is Ok <==> prices@.len() > 0,
        r matches Ok(v) ==> v == fp::div_bits(
            sum_slice_bits(prices@),
            fp::of_u64_bits(prices@.len() as u64),
        ),
        r is Err ==> r->Err_0 is EmptyIterator,
{
    if prices.len() == 0 {
        return Err(TaError::EmptyIterator("mean".to_owned()));
    }
    let mut acc: u64 = fp::ZERO_BITS;
    let mut i: usize = 0;
    let n = prices.len();
    while i < n
        invariant
            n == prices@.len(),
            i <= n,
            acc == sum_slice_bits(prices@.subrange(0, i as int)),
        decreases n - i,
    {
        proof {
            assert(prices@.subrange(0, i + 1).drop_last() =~= prices@.subrange(0, i as int));
            assert(prices@.subrange(0, i + 1).last() == prices@[i as int]);
        }
        acc = fp::fp_add(acc, prices[i]);
        i = i + 1;
    }
    proof {
        assert(prices@.subrange(0, prices@.len() as int) =~= prices@);
    }
    Ok(fp::fp_div(acc, fp::fp_from_u64(n as u64)))
}

/// A total order over price patterns for sorting: IEEE `<` and `>`, with
/// every incomparable pair (NaN on either side) counted as equal.
pub fn cmp_prices(a: &u64, b: &u64) -> (r: Comparison)
    ensures
        r == if fp::lt_bits(*a, *b) {
            Comparison::Less
        } else if fp::gt_bits(*a, *b) {
            Comparison::Greater
        } else {
            Comparison::Equal
        },
{
    if fp::fp_lt(*a, *b) {
        Comparison::Less
    } else if fp::fp_gt(*a, *b) {
        Comparison::Greater
    } else {
        Comparison::Equal
    }
}

/// The subsequence of patterns that are not NaN, in input order.
pub open spec fn keep_numeric(s: Seq<u64>) -> Seq<u64>
    decreases s.len(),
{
    if s.len() == 0 {
        Seq::empty()
    } else {
        let rest = keep_numeric(s.drop_last());
        if fp::is_nan_bits(s.last()) {
            rest
        } else {
            rest.push(s.last())
        }
    }
}

/// `x` placed into `s` behind every element that is not above it: one step
/// of a stable insertion sort under the `cmp_prices` order.
pub open spec fn insert_ordered(s: Seq<u64>, x: u64) -> Seq<u64>
    decreases s.len(),
{
    if s.len() == 0 {
        seq![x]
    } else if fp::gt_bits(s.last(), x) {
        insert_ordered(s.drop_last(), x).push(s.last())
    } else {
        s.push(x)
    }
}

/// The stable insertion sort of `s` under the `cmp_prices` order: ties keep
/// their input order, so the result is the one every stable sort produces.
pub open spec fn sort_ordered(s: Seq<u64>) -> Seq<u64>
    decreases s.len(),
{
    if s.len() == 0 {
        Seq::empty()
    } else {
        insert_ordered(sort_ordered(s.drop_last()), s.last())
    }
}

proof fn lemma_insert_ordered_len(s: Seq<u64>, x: u64)
    ensures
        insert_ordered(s, x).len() == s.len() + 1,
    decreases s.len(),
{
    if s.len() > 0 && fp::gt_bits(s.last(), x) {
        lemma_insert_ordered_len(s.drop_last(), x);
    }
}

proof fn lemma_sort_ordered_len(s: Seq<u64>)
    ensures
        sort_ordered(s).len() == s.len(),
    decreases s.len(),
{
    if s.len() > 0 {
        lemma_sort_ordered_len(s.drop_last());
        lemma_insert_ordered_len(sort_ordered(s.drop_last()), s.last());
    }
}

/// Inserts one pattern into an already ordered vector, behind every run of
/// larger elements.
fn insert_price(v: &mut Vec<u64>, x: u64)
    ensures
        final(v)@ == insert_ordered(old(v)@, x),
{
    let ghost s = v@;
    let mut j: usize = v.len();
    proof {
        assert(s.subrange(0, s.len() as int) =~= s);
        assert(insert_ordered(s, x) =~= insert_ordered(s, x) + s.subrange(
            s.len() as int,
            s.len() as int,
        ));
    }
    while j > 0 && fp::fp_gt(v[j - 1], x)
        invariant
            v@ == s,
            j <= s.len(),
            insert_ordered(s, x) == insert_ordered(s.subrange(0, j as int), x) + s.subrange(
                j as int,
                s.len() as int,
            ),
        decreases j,
    {
        proof {
            let t = s.subrange(0, j as int);
            assert(t.last() == s[j - 1]);
            assert(t.drop_last() =~= s.subrange(0, j - 1));
            assert(insert_ordered(t, x) == insert_ordered(s.subrange(0, j - 1), x).push(
                s[j - 1],
            ));
            assert(insert_ordered(s.subrange(0, j - 1), x).push(s[j - 1]) + s.subrange(
                j as int,
                s.len() as int,
            ) =~= insert_ordered(s.subrange(0, j - 1), x) + s.subrange(j - 1, s.len() as int));
        }
        j = j - 1;
    }
    v.insert(j, x);
    proof {
        if j == 0 {
            assert(s.subrange(0, 0).len() == 0);
            assert(insert_ordered(s.subrange(0, 0), x) == seq![x]);
            assert(s.subrange(0, s.len() as int) =~= s);
            assert(v@ =~= seq![x] + s.subrange(0, s.len() as int));
        } else {
            let t = s.subrange(0, j as int);
            assert(t.last() == s[j - 1]);
            assert(insert_ordered(t, x) == t.push(x));
            assert(v@ =~= t.push(x) + s.subrange(j as int, s.len() as int));
        }
    }
}

/// The middle of the ordered prices. NaN entries are dropped before
/// ordering, the middle index is half the full input length, and an even
/// input length averages the two middle elements. An empty input is
/// rejected, as is one with so many NaN entries that the middle index
/// overruns the NaN-free ordering.
pub fn median(prices: &Vec<u64>) -> (r: TaResult<u64>)
    ensures
        r is Ok <==> (prices@.len() > 0 && prices@.len() / 2 + 1 <= keep_numeric(
            prices@,
        ).len()),
        prices@.len() == 0 ==> r->Err_0 is EmptyIterator,
        prices@.len() > 0 && r is Err ==> r->Err_0 is Unexpected,
        r matches Ok(v) ==> ({
            let ordered = sort_ordered(keep_numeric(prices@));
            let middle = prices@.len() as int / 2;
            if prices@.len() % 2 == 0 {
                v == fp::div_bits(
                    sum_slice_bits(seq![ordered[middle - 1], ordered[middle]]),
                    fp::of_u64_bits(2),
                )
            } else {
                v == ordered[middle]
            }
        }),
{
    if prices.len() == 0 {
        return Err(TaError::EmptyIterator("median".to_owned()));
    }
    let n = prices.len();
    let mut numeric: Vec<u64> = Vec::new();
    let mut i: usize = 0;
    while i < n
        invariant
            n == prices@.len(),
            i <= n,
            numeric@ == keep_numeric(prices@.subrange(0, i as int)),
        decreases n - i,
    {
        proof {
            assert(prices@.subrange(0, i + 1).drop_last() =~= prices@.subrange(0, i as int));
            assert(prices@.subrange(0, i + 1).last() == prices@[i as int]);
        }
        if !fp::fp_is_nan(prices[i]) {
            numeric.push(prices[i]);
        }
        i = i + 1;
    }
    proof {
        assert(prices@.subrange(0, n as int) =~= prices@);
    }
    let middle = n / 2;
    if numeric.len() < middle + 1 {
        return Err(TaError::Unexpected("not enough numeric prices".to_owned()));
    }
    let m = numeric.len();
    let mut ordered: Vec<u64> = Vec::new();
    let mut k: usize = 0;
    while k < m
        invariant
            m == numeric@.len(),
            k <= m,
            ordered@ == sort_ordered(numeric@.subrange(0, k as int)),
        decreases m - k,
    {
        proof {
            assert(numeric@.subrange(0, k + 1).drop_last() =~= numeric@.subrange(0, k as int));
            assert(numeric@.subrange(0, k + 1).last() == numeric@[k as int]);
        }
        insert_price(&mut ordered, numeric[k]);
        k = k + 1;
    }
    proof {
        assert(numeric@.subrange(0, m as int) =~= numeric@);
        lemma_sort_ordered_len(numeric@);
    }
    if n % 2 == 0 {
        let mut pair: Vec<u64> = Vec::new();
        pair.push(ordered[middle - 1]);
        pair.push(ordered[middle]);
        proof {
            assert(pair@ =~= seq![ordered@[middle - 1], ordered@[middle as int]]);
        }
        match mean(&pair) {
            Ok(v) => Ok(v),
            Err(e) => Err(e),
        }
    } else {
        Ok(ordered[middle])
    }
}

/// The magnitude of the pattern rounded to an integer, half away from
/// zero: the encoded magnitude is `raw_mant * 2^raw_exp` exactly, so a
/// non-negative exponent shifts the mantissa up, and a negative one splits
/// it at the point and rounds the fraction.
pub open spec fn rounded_mag(a: u64) -> nat {
    let m = raw_mant(a);
    let e = raw_exp(a);
    if e >= 0 {
        m * pow2(e as nat)
    } else {
        let sh = (-e) as nat;
        m / pow2(sh) + if 2 * (m % pow2(sh)) >= pow2(sh) {
            1nat
        } else {
            0nat
        }
    }
}

/// The pattern's value rounded to the nearest integer, half away from
/// zero, then clamped to the `i64` range; a NaN rounds to zero. Infinities
/// need no case of their own: their encoded magnitude exceeds every
/// integer in range, so the clamp absorbs them.
pub open spec fn rounded_price(a: u64) -> int {
    if fp::is_nan_bits(a) {
        0
    } else {
        let v = rounded_mag(a) as int;
        let s: int = if fp::sign_bits(a) {
            -v
        } else {
            v
        };
        if s > i64::MAX as int {
            i64::MAX as int
        } else if s < i64::MIN as int {
            i64::MIN as int
        } else {
            s
        }
    }
}

/// Rounds one price to the nearest integer, half away from zero,
/// saturating at the `i64` range; a NaN rounds to zero.
fn round_price(a: u64) -> (r: i64)
    ensures
        r as int == rounded_price(a),
{
    if fp::fp_is_nan(a) {
        return 0;
    }
    let neg: bool = (a & fp::SIGN_MASK) == fp::SIGN_MASK;
    let e_field: u64 = (a >> 52u64) & 0x7FFu64;
    let f_field: u64 = a & FRAC_MASK;
    proof {
        lemma2_to64();
        lemma2_to64_rest();
        assert((a & 0x000F_FFFF_FFFF_FFFFu64) < 0x0010_0000_0000_0000u64) by (bit_vector);
        assert(((a >> 52u64) & 0x7FFu64) <= 0x7FFu64) by (bit_vector);
    }
    if e_field == 0 {
        // A subnormal magnitude is below one half, so it rounds to zero.
        proof {
            let m = raw_mant(a);
            lemma_pow2_strictly_increases(52, 1074);
            lemma_pow2_strictly_increases(53, 1074);
            lemma_pow2_pos(1074);
            lemma_multiply_divide_lt(m as int, pow2(1074) as int, 1);
            lemma_small_mod(m, pow2(1074));
            assert(2 * m < pow2(53)) by {
                lemma_pow2_adds(52, 1);
            }
        }
        return 0;
    }
    let m: u64 = f_field | HIDDEN_BIT;
    proof {
        assert((a & 0x000F_FFFF_FFFF_FFFFu64) | 0x0010_0000_0000_0000u64 == (a
            & 0x000F_FFFF_FFFF_FFFFu64) + 0x0010_0000_0000_0000u64) by (bit_vector);
        assert(m == raw_mant(a));
        assert(pow2(52) <= m < pow2(53));
    }
    if e_field >= 1075 {
        // The point lies at or above the mantissa: the value is the
        // mantissa shifted up, clamped when it leaves the range.
        let sh = e_field - 1075;
        if sh >= 11 {
            proof {
                let me = raw_mant(a);
                if sh > 11 {
                    lemma_pow2_strictly_increases(11, sh as nat);
                }
                assert(me * pow2(sh as nat) >= pow2(52) * pow2(11)) by (nonlinear_arith)
                    requires
                        me >= pow2(52),
                        pow2(sh as nat) >= pow2(11),
                ;
                lemma_pow2_adds(52, 11);
            }
            if neg {
                return i64::MIN;
            } else {
                return i64::MAX;
            }
        }
        proof {
            if sh < 10 {
                lemma_pow2_strictly_increases(sh as nat, 10);
            }
            lemma_pow2_pos(sh as nat);
            assert(m * pow2(sh as nat) < pow2(53) * pow2(10)) by (nonlinear_arith)
                requires
                    m < pow2(53),
                    0 < pow2(sh as nat) <= pow2(10),
            ;
            lemma_pow2_adds(53, 10);
            lemma_u64_shl_is_mul(m, sh);
        }
        let v = m << sh;
        if neg {
            -(v as i64)
        } else {
            v as i64
        }
    } else {
        // The point splits the mantissa: quotient, then one more when the
        // cut-off fraction reaches one half.
        let sh = 1075 - e_field;
        if sh >= 54 {
            proof {
                let me = raw_mant(a);
                lemma_pow2_pos(sh as nat);
                if 53 < sh {
                    lemma_pow2_strictly_increases(53, sh as nat);
                }
                lemma_multiply_divide_lt(me as int, pow2(sh as nat) as int, 1);
                lemma_small_mod(me, pow2(sh as nat));
                assert(2 * me < pow2(54)) by {
                    lemma_pow2_adds(53, 1);
                }
                if 54 < sh {
                    lemma_pow2_strictly_increases(54, sh as nat);
                }
            }
            return 0;
        }
        proof {
            if sh < 53 {
                lemma_pow2_strictly_increases(sh as nat, 53);
            }
            lemma_pow2_strictly_increases((sh - 1) as nat, 53);
            lemma_pow2_pos((sh - 1) as nat);
            lemma_pow2_pos(sh as nat);
            lemma_u64_shl_is_mul(1u64, sh);
            lemma_u64_shl_is_mul(1u64, (sh - 1) as u64);
        }
        let q = m >> sh;
        let mask = (1u64 << sh) - 1;
        let rem = m & mask;
        let half = 1u64 << (sh - 1);
        proof {
            lemma_u64_shr_is_div(m, sh);
            assert(mask == low_bits_mask(sh as nat) as u64);
            lemma_u64_low_bits_mask_is_mod(m, sh as nat);
            lemma_pow2_adds((sh - 1) as nat, 1);
            lemma_pow2_adds(sh as nat, 52);
            if sh > 1 {
                lemma_pow2_strictly_increases(53, (sh + 52) as nat);
            }
            lemma_multiply_divide_lt(m as int, pow2(sh as nat) as int, pow2(52) as int);
        }
        let rv = if rem >= half {
            q + 1
        } else {
            q
        };
        if neg {
            -(rv as i64)
        } else {
            rv as i64
        }
    }
}

/// How many entries of `s` equal `x`.
pub open spec fn count_matches(s: Seq<i64>, x: i64) -> nat
    decreases s.len(),
{
    if s.len() == 0 {
        0
    } else {
        count_matches(s.drop_last(), x) + if s.last() == x {
            1nat
        } else {
            0nat
        }
    }
}

/// The distinct values of `s`, each at its first appearance.
pub open spec fn first_appearances(s: Seq<i64>) -> Seq<i64>
    decreases s.len(),
{
    if s.len() == 0 {
        Seq::empty()
    } else {
        let rest = first_appearances(s.drop_last());
        if s.drop_last().contains(s.last()) {
            rest
        } else {
            rest.push(s.last())
        }
    }
}

/// The largest multiplicity that any entry of `s` attains in `over`.
pub open spec fn peak_count(s: Seq<i64>, over: Seq<i64>) -> nat
    decreases s.len(),
{
    if s.len() == 0 {
        0
    } else {
        let rest = peak_count(s.drop_last(), over);
        let c = count_matches(over, s.last());
        if c > rest {
            c
        } else {
            rest
        }
    }
}

/// The entries of `d` whose multiplicity in `s` is exactly `m`, in order.
pub open spec fn filter_peak(d: Seq<i64>, s: Seq<i64>, m: nat) -> Seq<i64>
    decreases d.len(),
{
    if d.len() == 0 {
        Seq::empty()
    } else {
        let rest = filter_peak(d.drop_last(), s, m);
        if count_matches(s, d.last()) == m {
            rest.push(d.last())
        } else {
            rest
        }
    }
}

/// The tied most-frequent values of `s`, in order of first appearance.
pub open spec fn mode_values(s: Seq<i64>) -> Seq<i64> {
    filter_peak(first_appearances(s), s, peak_count(s, s))
}

/// The IEEE-754 mean of the tied most-frequent values, taken in order of
/// first appearance; zero where there are none.
pub open spec fn most_frequent_bits(s: Seq<i64>) -> u64 {
    let ms = mode_values(s);
    if ms.len() == 0 {
        fp::ZERO_BITS
    } else {
        fp::div_bits(
            sum_slice_bits(ms.map_values(|x: i64| fp::of_i64_bits(x))),
            fp::of_u64_bits(ms.len() as u64),
        )
    }
}

/// The multiplicity of `x` in `v`.
fn count_matching(v: &Vec<i64>, x: i64) -> (c: usize)
    ensures
        c == count_matches(v@, x),
{
    let mut c: usize = 0;
    let mut i: usize = 0;
    let n = v.len();
    while i < n
        invariant
            n == v@.len(),
            i <= n,
            c <= i,
            c == count_matches(v@.subrange(0, i as int), x),
        decreases n - i,
    {
        proof {
            assert(v@.subrange(0, i + 1).drop_last() =~= v@.subrange(0, i as int));
            assert(v@.subrange(0, i + 1).last() == v@[i as int]);
        }
        if v[i] == x {
            c = c + 1;
        }
        i = i + 1;
    }
    proof {
        assert(v@.subrange(0, n as int) =~= v@);
    }
    c
}

/// Averages the values that appear most often: every value tied for the
/// highest multiplicity is kept, and the tied values are averaged in order
/// of first appearance; an empty input yields `0.0`.
pub fn most_frequent(vector: Vec<i64>) -> (r: u64)
    ensures
        r == most_frequent_bits(vector@),
{
    let n = vector.len();
    let mut distinct: Vec<i64> = Vec::new();
    let mut i: usize = 0;
    while i < n
        invariant
            n == vector@.len(),
            i <= n,
            distinct@ == first_appearances(vector@.subrange(0, i as int)),
        decreases n - i,
    {
        let mut seen = false;
        let mut j: usize = 0;
        while j < i
            invariant
                n == vector@.len(),
                i < n,
                j <= i,
                seen == exists|k: int| 0 <= k < j && vector@[k] == vector@[i as int],
            decreases i - j,
        {
            if vector[j] == vector[i] {
                seen = true;
            }
            j = j + 1;
        }
        proof {
            let pre = vector@.subrange(0, i as int);
            if seen {
                let k = choose|k: int| 0 <= k < i && vector@[k] == vector@[i as int];
                assert(pre[k] == vector@[i as int]);
                assert(pre.contains(vector@[i as int]));
            } else {
                assert(!pre.contains(vector@[i as int])) by {
                    if pre.contains(vector@[i as int]) {
                        let k = choose|k: int|
                            0 <= k < pre.len() && pre[k] == vector@[i as int];
                        assert(vector@[k] == vector@[i as int]);
                    }
                };
            }
            assert(vector@.subrange(0, i + 1).drop_last() =~= pre);
            assert(vector@.subrange(0, i + 1).last() == vector@[i as int]);
        }
        if !seen {
            distinct.push(vector[i]);
        }
        i = i + 1;
    }
    proof {
        assert(vector@.subrange(0, n as int) =~= vector@);
    }
    let mut peak: usize = 0;
    let mut p: usize = 0;
    while p < n
        invariant
            n == vector@.len(),
            p <= n,
            peak == peak_count(vector@.subrange(0, p as int), vector@),
        decreases n - p,
    {
        proof {
            assert(vector@.subrange(0, p + 1).drop_last() =~= vector@.subrange(0, p as int));
            assert(vector@.subrange(0, p + 1).last() == vector@[p as int]);
        }
        let c = count_matching(&vector, vector[p]);
        if c > peak {
            peak = c;
        }
        p = p + 1;
    }
    proof {
        assert(vector@.subrange(0, n as int) =~= vector@);
    }
    let dn = distinct.len();
    let mut modes: Vec<i64> = Vec::new();
    let mut q: usize = 0;
    while q < dn
        invariant
            n == vector@.len(),
            dn == distinct@.len(),
            q <= dn,
            distinct@ == first_appearances(vector@),
            peak == peak_count(vector@, vector@),
            modes@ == filter_peak(distinct@.subrange(0, q as int), vector@, peak as nat),
        decreases dn - q,
    {
        proof {
            assert(distinct@.subrange(0, q + 1).drop_last() =~= distinct@.subrange(0, q as int));
            assert(distinct@.subrange(0, q + 1).last() == distinct@[q as int]);
        }
        let c = count_matching(&vector, distinct[q]);
        if c == peak {
            modes.push(distinct[q]);
        }
        q = q + 1;
    }
    proof {
        assert(distinct@.subrange(0, dn as int) =~= distinct@);
    }
    if modes.len() == 0 {
        return fp::ZERO_BITS;
    }
    let mn = modes.len();
    let mut acc: u64 = fp::ZERO_BITS;
    let mut t: usize = 0;
    while t < mn
        invariant
            mn == modes@.len(),
            t <= mn,
            acc == sum_slice_bits(
                modes@.subrange(0, t as int).map_values(|x: i64| fp::of_i64_bits(x)),
            ),
        decreases mn - t,
    {
        proof {
            let g = modes@.subrange(0, t + 1).map_values(|x: i64| fp::of_i64_bits(x));
            assert(g.drop_last() =~= modes@.subrange(0, t as int).map_values(
                |x: i64| fp::of_i64_bits(x),
            ));
            assert(g.last() == fp::of_i64_bits(modes@[t as int]));
        }
        acc = fp::fp_add(acc, fp::fp_from_i64(modes[t]));
        t = t + 1;
    }
    proof {
        assert(modes@.subrange(0, mn as int) =~= modes@);
        assert(modes@.subrange(0, mn as int).map_values(|x: i64| fp::of_i64_bits(x))
            =~= modes@.map_values(|x: i64| fp::of_i64_bits(x)));
    }
    fp::fp_div(acc, fp::fp_from_u64(mn as u64))
}

/// Rounds each price to its nearest integer, half away from zero, and
/// averages the most frequent of the rounded values; an empty input is
/// rejected.
pub fn mode(prices: &Vec<u64>) -> (r: TaResult<u64>)
    ensures
        r is Ok <==> prices@.len() > 0,
        r is Err ==> r->Err_0 is EmptyIterator,
        r matches Ok(v) ==> v == most_frequent_bits(
            prices@.map_values(|p: u64| rounded_price(p) as i64),
        ),
{
    if prices.len() == 0 {
        return Err(TaError::EmptyIterator("mode".to_owned()));
    }
    let n = prices.len();
    let mut steps: Vec<i64> = Vec::new();
    let mut i: usize = 0;
    while i < n
        invariant
            n == prices@.len(),
            i <= n,
            steps@ == prices@.subrange(0, i as int).map_values(|p: u64| rounded_price(p) as i64),
        decreases n - i,
    {
        proof {
            let g = prices@.subrange(0, i + 1).map_values(|p: u64| rounded_price(p) as i64);
            assert(g.drop_last() =~= prices@.subrange(0, i as int).map_values(
                |p: u64| rounded_price(p) as i64,
            ));
            assert(g.last() == rounded_price(prices@[i as int]) as i64);
        }
        steps.push(round_price(prices[i]));
        proof {
            assert(steps@ =~= prices@.subrange(0, i + 1).map_values(
                |p: u64| rounded_price(p) as i64,
            ));
        }
        i = i + 1;
    }
    proof {
        assert(prices@.subrange(0, n as int) =~= prices@);
    }
    Ok(most_frequent(steps))
}

} // verus!
