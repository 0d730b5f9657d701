//! The cost model: what each operation charges, fixed before the operation runs.

use vstd::prelude::*;
use vstd::arithmetic::power::pow;
use vstd::arithmetic::power2::{pow2, lemma_pow2_unfold, lemma_pow2_strictly_increases, lemma2_to64};

verus! {

/// Per-operation costs, in internal gas units.
#[derive(Clone, Copy, Debug)]
pub struct GasParameters {
    pub basepoint_mul: u64,
    pub basepoint_double_mul: u64,
    pub point_add: u64,
    pub point_clone: u64,
    pub point_compress: u64,
    pub point_decompress: u64,
    pub point_equals: u64,
    pub point_from_64_uniform_bytes: u64,
    pub point_identity: u64,
    pub point_mul: u64,
    pub point_double_mul: u64,
    pub point_neg: u64,
    pub point_sub: u64,
    pub point_parse_arg: u64,
    pub sha512_per_byte: u64,
    pub sha512_per_hash: u64,
    pub scalar_add: u64,
    pub scalar_reduced_from_32_bytes: u64,
    pub scalar_uniform_from_64_bytes: u64,
    pub scalar_from_u128: u64,
    pub scalar_from_u64: u64,
    pub scalar_invert: u64,
    pub scalar_is_canonical: u64,
    pub scalar_mul: u64,
    pub scalar_neg: u64,
    pub scalar_sub: u64,
    pub scalar_parse_arg: u64,
}

/// The largest gas quantity; sums and products of gas saturate here.
pub open spec fn gas_max() -> nat {
    u64::MAX as nat
}

/// `x + y`, capped at the largest gas quantity.
pub open spec fn sat_add_spec(x: nat, y: nat) -> nat {
    if x + y > gas_max() { gas_max() } else { x + y }
}

/// `x * y`, capped at the largest gas quantity.
pub open spec fn sat_mul_spec(x: nat, y: nat) -> nat {
    if x * y > gas_max() { gas_max() } else { x * y }
}

/// Saturating addition of gas quantities.
pub fn sat_add(x: u64, y: u64) -> (r: u64)
    ensures
        r == sat_add_spec(x as nat, y as nat),
{
    match x.checked_add(y) {
        Some(s) => s,
        None => u64::MAX,
    }
}

/// Saturating multiplication of gas quantities.
pub fn sat_mul(x: u64, y: u64) -> (r: u64)
    ensures
        r == sat_mul_spec(x as nat, y as nat),
{
    match x.checked_mul(y) {
        Some(p) => p,
        None => u64::MAX,
    }
}

/// The number of scalar multiplications charged for a multi-scalar multiplication of size
/// `n >= 2`: `n / log2(n)` rounded up, that is the least `k` with `k * log2(n) >= n`, or
/// equivalently with `n^k >= 2^n`.
pub open spec fn msm_units(n: nat) -> nat {
    least_units_from(n, 1)
}

/// The least `k' >= k` with `n^k' >= 2^n`, or `n` when there is none below `n`.
pub open spec fn least_units_from(n: nat, k: nat) -> nat
    decreases n - k,
{
    if k >= n || pow(n as int, k) >= pow(2, n) {
        k
    } else {
        least_units_from(n, k + 1)
    }
}

/// The number a sequence of binary digits stands for, least significant first.
pub open spec fn bits_value(s: Seq<u8>) -> nat
    decreases s.len(),
{
    if s.len() == 0 {
        0
    } else {
        bits_value(s.drop_last()) + (s.last() as nat) * pow2((s.len() - 1) as nat)
    }
}

/// Every digit is 0 or 1.
pub open spec fn is_binary(s: Seq<u8>) -> bool {
    forall|i: int| 0 <= i < s.len() ==> #[trigger] s[i] < 2
}

proof fn lemma_bits_prefix(s: Seq<u8>, j: int)
    requires
        0 <= j <= s.len(),
    ensures
        bits_value(s.take(j)) <= bits_value(s),
    decreases s.len() - j,
{
    if j < s.len() {
        assert(s.take(j + 1).drop_last() =~= s.take(j));
        lemma_bits_prefix(s, j + 1);
    } else {
        assert(s.take(j) =~= s);
    }
}

proof fn lemma_bits_bound(s: Seq<u8>)
    requires
        is_binary(s),
    ensures
        bits_value(s) < pow2(s.len()),
    decreases s.len(),
{
    if s.len() > 0 {
        lemma_bits_bound(s.drop_last());
        lemma_pow2_unfold(s.len());
    } else {
        lemma2_to64();
    }
}

/// With no digit set from place `n` on, the value is below `2^n`.
proof fn lemma_bits_high_clear(s: Seq<u8>, n: nat)
    requires
        is_binary(s),
        forall|i: int| n <= i < s.len() ==> s[i] == 0,
    ensures
        bits_value(s) < pow2(n),
    decreases s.len(),
{
    if s.len() <= n {
        lemma_bits_bound(s);
        if s.len() < n {
            lemma_pow2_strictly_increases(s.len(), n);
        }
    } else {
        assert(s.last() == 0);
        assert forall|i: int| 0 <= i < s.drop_last().len() implies #[trigger] s.drop_last()[i] < 2 by {
            assert(s.drop_last()[i] == s[i]);
        }
        lemma_bits_high_clear(s.drop_last(), n);
    }
}

/// With the digit at place `i` set, the value is at least `2^i`.
proof fn lemma_bits_set(s: Seq<u8>, i: int)
    requires
        0 <= i < s.len(),
        s[i] == 1,
    ensures
        bits_value(s) >= pow2(i as nat),
{
    assert(s.take(i + 1).drop_last() =~= s.take(i));
    lemma_bits_prefix(s, i + 1);
}

/// Appends the binary digits of `carry` to `out`: the result stands for
/// `bits_value(out) + carry * 2^len(out)`.
fn push_carry(out: &mut Vec<u8>, carry: u64)
    requires
        is_binary(old(out)@),
    ensures
        is_binary(final(out)@),
        bits_value(final(out)@) == bits_value(old(out)@) + carry * pow2(old(out)@.len()),
{
    let ghost start = out@.len();
    let mut c: u64 = carry;
    while c > 0
        invariant
            is_binary(out@),
            bits_value(out@) + c * pow2(out@.len()) == bits_value(old(out)@) + carry * pow2(start),
            start == old(out)@.len(),
        decreases c,
    {
        let ghost before = out@;
        let d: u8 = (c % 2) as u8;
        out.push(d);
        proof {
            assert(out@.drop_last() =~= before);
            lemma_pow2_unfold(out@.len());
            let p = pow2(before.len());
            assert(c * p == (c % 2) * p + (c / 2) * (2 * p)) by (nonlinear_arith);
        }
        c = c / 2;
    }
}

/// Multiplies binary digits by `n`.
fn mul_bits(a: &Vec<u8>, n: u64) -> (r: Vec<u8>)
    requires
        is_binary(a@),
    ensures
        is_binary(r@),
        bits_value(r@) == bits_value(a@) * n,
{
    let mut out: Vec<u8> = Vec::new();
    let mut carry: u64 = 0;
    let mut i: usize = 0;
    assert(a@.take(0) =~= Seq::<u8>::empty());
    assert(bits_value(out@) == 0);
    while i < a.len()
        invariant
            is_binary(a@),
            is_binary(out@),
            i <= a@.len(),
            out@.len() == i,
            carry as nat <= n,
            carry < n || n == 0,
            bits_value(out@) + carry * pow2(i as nat) == bits_value(a@.take(i as int)) * n,
        decreases a@.len() - i,
    {
        let ghost before = out@;
        assert(a@[i as int] < 2);
        assert(a[i as int] as u128 * n as u128 <= n as u128) by (nonlinear_arith)
            requires a[i as int] < 2;
        let t: u128 = a[i] as u128 * n as u128 + carry as u128;
        out.push((t % 2) as u8);
        proof {
            assert(out@.drop_last() =~= before);
            assert(a@.take(i + 1).drop_last() =~= a@.take(i as int));
            lemma_pow2_unfold((i + 1) as nat);
            let p = pow2(i as nat);
            assert(a@[i as int] < 2);
            assert(t * p == (t % 2) * p + (t / 2) * (2 * p)) by (nonlinear_arith);
            assert(bits_value(out@) == bits_value(before) + (t % 2) * p);
            assert(bits_value(a@.take(i + 1)) == bits_value(a@.take(i as int)) + a@[i as int] * p);
            assert(pow2((i + 1) as nat) == 2 * p);
            let bv = bits_value(a@.take(i as int));
            assert(bits_value(out@) + (t / 2) * pow2((i + 1) as nat) == (bv + a@[i as int] * p) * n)
                by (nonlinear_arith)
                requires
                    bits_value(out@) == bits_value(before) + (t % 2) * p,
                    pow2((i + 1) as nat) == 2 * p,
                    t * p == (t % 2) * p + (t / 2) * (2 * p),
                    t == a@[i as int] * n + carry,
                    bits_value(before) + carry * p == bv * n;
            assert(t / 2 <= n && (t / 2 < n || n == 0)) by (nonlinear_arith)
                requires t == a@[i as int] * n + carry, a@[i as int] < 2, carry <= n, carry < n || n == 0;
            assert((bits_value(a@.take(i as int)) + a@[i as int] * p) * n
                == bits_value(a@.take(i as int)) * n + a@[i as int] * n * p) by (nonlinear_arith);
        }
        carry = (t / 2) as u64;
        i = i + 1;
    }
    assert(a@.take(i as int) =~= a@);
    push_carry(&mut out, carry);
    out
}

/// Whether binary digits stand for at least `2^n`.
fn bits_at_least_pow2(s: &Vec<u8>, n: usize) -> (r: bool)
    requires
        is_binary(s@),
    ensures
        r == (bits_value(s@) >= pow2(n as nat)),
{
    let mut i: usize = n;
    while i < s.len()
        invariant
            is_binary(s@),
            n <= i,
            forall|j: int| n <= j < i ==> s@[j] == 0,
        decreases s@.len() - i,
    {
        if s[i] != 0 {
            proof {
                lemma_bits_set(s@, i as int);
                if i > n {
                    lemma_pow2_strictly_increases(n as nat, i as nat);
                }
            }
            return true;
        }
        i = i + 1;
    }
    proof {
        lemma_bits_high_clear(s@, n as nat);
    }
    false
}

proof fn lemma_pow_ge_pow2(n: nat, k: nat)
    requires
        n >= 2,
    ensures
        pow(n as int, k) >= pow2(k),
    decreases k,
{
    reveal(pow);
    if k > 0 {
        lemma_pow_ge_pow2(n, (k - 1) as nat);
        lemma_pow2_unfold(k);
        assert(n * pow(n as int, (k - 1) as nat) >= 2 * pow2((k - 1) as nat)) by (nonlinear_arith)
            requires n >= 2, pow(n as int, (k - 1) as nat) >= pow2((k - 1) as nat);
    } else {
        lemma2_to64();
    }
}

proof fn lemma_least_units(n: nat, k0: nat, k: nat)
    requires
        1 <= k0 <= k <= n,
        forall|j: nat| k0 <= j < k ==> #[trigger] pow(n as int, j) < pow(2, n),
        pow(n as int, k) >= pow(2, n),
    ensures
        least_units_from(n, k0) == k,
    decreases k - k0,
{
    if k0 < k {
        lemma_least_units(n, k0 + 1, k);
    }
}

/// Computes `msm_units(n)` for `n >= 2`.
fn msm_units_exec(n: usize) -> (r: u64)
    requires
        n >= 2,
    ensures
        r == msm_units(n as nat),
{
    let mut acc: Vec<u8> = Vec::new();
    assert(bits_value(acc@) == 0);
    push_carry(&mut acc, n as u64);
    proof {
        lemma2_to64();
        vstd::arithmetic::power::lemma_pow1(n as int);
        lemma_pow_ge_pow2(n as nat, n as nat);
        vstd::arithmetic::power2::lemma_pow2(n as nat);
    }
    let mut k: u64 = 1;
    while !bits_at_least_pow2(&acc, n)
        invariant
            n >= 2,
            is_binary(acc@),
            bits_value(acc@) == pow(n as int, k as nat),
            1 <= k <= n,
            pow(n as int, n as nat) >= pow(2, n as nat),
            pow2(n as nat) == pow(2, n as nat),
            forall|j: nat| 1 <= j < k ==> #[trigger] pow(n as int, j) < pow(2, n as nat),
        decreases n - k,
    {
        let next = mul_bits(&acc, n as u64);
        proof {
            vstd::arithmetic::power::lemma_pow_adds(n as int, k as nat, 1);
            vstd::arithmetic::power::lemma_pow1(n as int);
        }
        acc = next;
        k = k + 1;
    }
    proof {
        lemma_least_units(n as nat, 1, k as nat);
    }
    k
}

impl GasParameters {
    /// The cost of a multi-scalar multiplication of size `n >= 2`: `msm_units(n)` times the
    /// cost of one scalar multiplication, saturating.
    pub open spec fn msm_gas_spec(&self, n: nat) -> nat {
        sat_mul_spec(self.point_mul as nat, msm_units(n))
    }

    /// Returns the gas cost of a variable-time multi-scalar multiplication of size `size`.
    /// Below about 190 points the curve library uses Straus' method and above it Pippenger's,
    /// which needs roughly `n / log2(n)` scalar multiplications; that estimate is charged
    /// for every size.
    pub fn multi_scalar_mul_gas(&self, size: usize) -> (r: u64)
        requires
            size >= 2,
        ensures
            r == self.msm_gas_spec(size as nat),
    {
        let units = msm_units_exec(size);
        sat_mul(self.point_mul, units)
    }
}

/// `msm_units(n) == k` when `n^(k-1) < 2^n <= n^k`.
proof fn lemma_msm_units_at(n: nat, k: nat)
    requires
        2 <= n,
        2 <= k <= n,
        pow(n as int, (k - 1) as nat) < pow(2, n),
        pow(n as int, k) >= pow(2, n),
    ensures
        msm_units(n) == k,
{
    assert forall|j: nat| 1 <= j < k implies #[trigger] pow(n as int, j) < pow(2, n) by {
        if j < k - 1 {
            vstd::arithmetic::power::lemma_pow_increases(n, j, (k - 1) as nat);
        }
    }
    lemma_least_units(n, 1, k);
}

/// The cost of a multi-scalar multiplication grows from 10 to 200 points, and at 4 points it
/// is `ceil(4 / log2(4)) = 2` scalar multiplications.
pub proof fn lemma_msm_gas_grows(g: GasParameters)
    requires
        g.point_mul > 0,
        g.point_mul as nat * msm_units(200) <= gas_max(),
    ensures
        g.msm_gas_spec(200) > g.msm_gas_spec(10),
        g.msm_gas_spec(4) == sat_mul_spec(g.point_mul as nat, 2),
        msm_units(4) == 2,
        msm_units(10) == 4,
        msm_units(200) == 27,
{
    reveal_with_fuel(pow, 51);
    assert(pow(2, 50) == 1125899906842624);
    vstd::arithmetic::power::lemma_pow_adds(2, 50, 50);
    assert(pow(2, 100) == 1267650600228229401496703205376int);
    vstd::arithmetic::power::lemma_pow_adds(2, 100, 100);
    assert(pow(2, 200) == 1606938044258990275541962092341162602522202993782792835301376int);
    assert(pow(200, 26) == 671088640000000000000000000000000000000000000000000000000000int);
    vstd::arithmetic::power::lemma_pow_adds(200, 26, 1);
    assert(pow(200, 1) == 200);
    assert(pow(200, 27) == 134217728000000000000000000000000000000000000000000000000000000int);
    assert(pow(200, 26) < pow(2, 200));
    assert(pow(2, 10) == 1024);
    assert(pow(10, 3) == 1000);
    assert(pow(10, 4) == 10000);
    assert(pow(4, 1) == 4);
    assert(pow(4, 2) == 16);
    assert(pow(2, 4) == 16);
    lemma_msm_units_at(4, 2);
    lemma_msm_units_at(10, 4);
    lemma_msm_units_at(200, 27);
    assert(g.point_mul as nat * 27 > g.point_mul as nat * 4) by (nonlinear_arith)
        requires g.point_mul > 0;
}

} // verus!
