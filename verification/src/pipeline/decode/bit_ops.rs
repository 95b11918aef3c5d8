//! Bit-manipulation helpers used to expand instruction immediates.

use vstd::prelude::*;

verus! {

/// `2^e`.
pub open spec fn pow2(e: nat) -> nat {
    vstd::arithmetic::power2::pow2(e)
}

/// The two's-complement value of the low `size` bits of `uimm`.
pub open spec fn spec_sign_extend(uimm: u32, size: nat) -> int {
    let v = uimm as nat % pow2(size);
    if v >= pow2((size - 1) as nat) {
        v - pow2(size)
    } else {
        v as int
    }
}

/// `1 << n` and the `n`-bit mask as mathematical values.
proof fn lemma_u64_pow2_shift(n: u64)
    requires
        n < 64,
    ensures
        (1u64 << n) == pow2(n as nat),
        ((1u64 << n) - 1) as u64 == vstd::bits::low_bits_mask(n as nat),
{
    vstd::bits::lemma_u64_pow2_no_overflow(n as nat);
    vstd::bits::lemma_u64_shl_is_mul(1, n);
}

/// Interprets the low `size` bits of `uimm` as a two's-complement number.
pub fn sign_extend(uimm: u32, size: u32) -> (r: i64)
    requires
        1 <= size <= 32,
    ensures
        r == spec_sign_extend(uimm, size as nat),
{
    let shift: u32 = 32 - size;
    let simm = ((uimm << shift) as i32) as i64;
    let r = simm >> shift;
    proof {
        let x = uimm as u64;
        let s = size as u64;
        assert({
            let v = x & (((1u64 << s) - 1) as u64);
            let h = 1u64 << ((s - 1) as u64);
            &&& v >= h ==> r as int == v as int - (1u64 << s) as int
            &&& v < h ==> r as int == v as int
        }) by (bit_vector)
            requires
                1 <= s <= 32,
                x == uimm as u64,
                s == size as u64,
                shift == 32 - size,
                r == (((uimm << shift) as i32) as i64) >> shift,
        ;
        lemma_u64_pow2_shift(s);
        lemma_u64_pow2_shift((s - 1) as u64);
        vstd::bits::lemma_u64_low_bits_mask_is_mod(x, s as nat);
    }
    r
}

/// The number of low bits that `ones(count)` sets: a 64-bit value holds at most 64.
pub open spec fn ones_width(count: u32) -> nat {
    if count <= 64 {
        count as nat
    } else {
        64
    }
}

/// A value whose `count` low bits are set (all 64 bits once `count >= 64`).
pub fn ones(count: u32) -> (r: u64)
    ensures
        r == vstd::bits::low_bits_mask(ones_width(count)),
{
    let mut result: u64 = 0;
    let mut i: u32 = 0;
    proof {
        lemma_u64_pow2_shift(0);
        vstd::arithmetic::power2::lemma2_to64();
    }
    while i < count
        invariant
            i <= count,
            i < 64 ==> result == ((1u64 << i as u64) - 1) as u64,
            i >= 64 ==> result == 0xffff_ffff_ffff_ffffu64,
        decreases count - i,
    {
        let ghost prev = result;
        let ghost k = i as u64;
        result = result << 1u32;
        result = result | 1;
        proof {
            if k < 64 {
                assert({
                    &&& k + 1 < 64 ==> (((prev << 1u32) | 1) == ((1u64 << ((k + 1) as u64))
                        - 1) as u64)
                    &&& k + 1 == 64 ==> ((prev << 1u32) | 1) == 0xffff_ffff_ffff_ffffu64
                }) by (bit_vector)
                    requires
                        k < 64,
                        prev == ((1u64 << k) - 1) as u64,
                ;
            } else {
                assert(((prev << 1u32) | 1) == 0xffff_ffff_ffff_ffffu64) by (bit_vector)
                    requires
                        prev == 0xffff_ffff_ffff_ffffu64,
                ;
            }
        }
        i = i + 1;
    }
    proof {
        if count < 64 {
            lemma_u64_pow2_shift(count as u64);
        } else {
            vstd::arithmetic::power2::lemma2_to64();
        }
    }
    result
}

/// How far `ror(_, size, shift)` actually rotates: `shift` modulo `size`.
pub open spec fn rotation(size: u32, shift: u32) -> u32 {
    if shift == 0 {
        0
    } else {
        (shift % size) as u32
    }
}

/// `ror(x, size, shift)` as a bit pattern: the low bits of `x` shifted right,
/// merged with the bits shifted out moved to the top of the `size`-bit field.
pub open spec fn spec_ror(x: u64, size: u32, shift: u32) -> u64 {
    if shift == 0 {
        x
    } else {
        let m = rotation(size, shift);
        (x >> m) | ((x << ((size - m) as u32)) & (vstd::bits::low_bits_mask(
            ones_width(size),
        ) as u64))
    }
}

/// The `size`-bit number `x` rotated right by `m` places.
pub open spec fn rotated_value(x: nat, size: nat, m: nat) -> nat {
    x / pow2(m) + (x % pow2(m)) * pow2((size - m) as nat)
}

/// Whether `ror(_, size, shift)` can run: a non-zero rotation must be below 256,
/// and both shifts it performs must stay below the width of a `u64`.
pub open spec fn ror_defined(size: u32, shift: u32) -> bool {
    shift == 0 || (shift < 256 && size > 0 && shift % size < 64 && size - shift % size < 64)
}

/// Bit `i` of `x`.
pub open spec fn bit(x: u64, i: u64) -> bool {
    (x >> i) & 1 == 1
}

/// The bit of a `size`-bit value that lands on bit `i` when it is rotated
/// right by `m` places.
pub open spec fn rotated_from(i: u64, size: u64, m: u64) -> u64 {
    if i + m < size {
        (i + m) as u64
    } else {
        (i + m - size) as u64
    }
}

/// Rotates the `size`-bit value `x` right by `shift` places.
pub fn ror(x: u64, size: u32, shift: u32) -> (r: u64)
    requires
        ror_defined(size, shift),
    ensures
        r == spec_ror(x, size, shift),
        size <= 64 && x < pow2(size as nat) ==> r == rotated_value(
            x as nat,
            size as nat,
            rotation(size, shift) as nat,
        ),
        0 < size <= 64 && x < pow2(size as nat) ==> ({
            &&& forall|i: u64|
                i < size ==> #[trigger] bit(r, i) == bit(
                    x,
                    rotated_from(i, size as u64, rotation(size, shift) as u64),
                )
            &&& forall|i: u64| size <= i < 64 ==> !#[trigger] bit(r, i)
        }),
{
    if shift == 0 {
        proof {
            vstd::arithmetic::power2::lemma2_to64();
            let p = pow2(size as nat);
            assert(x as nat / 1 + (x as nat % 1) * p == x) by (nonlinear_arith);
            if 0 < size <= 64 && x < pow2(size as nat) {
                if size < 64 {
                    lemma_u64_pow2_shift(size as u64);
                }
                lemma_high_bits_clear(x, size as u64);
            }
        }
        return x;
    }
    let m = shift % size;
    let mask = ones(size);
    let r = (x >> m) | (x << (size - m)) & mask;
    proof {
        if size <= 64 && x < pow2(size as nat) {
            lemma_ror_value(x, size, m, mask, r);
            lemma_ror_bits(x, size, m, mask, r);
        }
    }
    r
}

/// A value below `2^s` has no bit set from bit `s` on.
proof fn lemma_high_bits_clear(x: u64, s: u64)
    requires
        0 < s <= 64,
        s < 64 ==> x < (1u64 << s),
    ensures
        forall|i: u64| s <= i < 64 ==> !#[trigger] bit(x, i),
{
    assert forall|i: u64| s <= i < 64 implies !#[trigger] bit(x, i) by {
        assert((x >> i) & 1 != 1) by (bit_vector)
            requires
                s <= i < 64,
                s < 64 ==> x < (1u64 << s),
        ;
    }
}

/// The rotation that `ror` performs, bit by bit.
proof fn lemma_ror_bits(x: u64, size: u32, m: u32, mask: u64, r: u64)
    requires
        0 < size <= 64,
        m < size,
        size - m < 64,
        x < pow2(size as nat),
        mask == vstd::bits::low_bits_mask(ones_width(size)),
        r == (x >> m) | ((x << ((size - m) as u32)) & mask),
    ensures
        forall|i: u64|
            i < size ==> #[trigger] bit(r, i) == bit(x, rotated_from(i, size as u64, m as u64)),
        forall|i: u64| size <= i < 64 ==> !#[trigger] bit(r, i),
{
    let s = size as u64;
    let k = m as u64;
    vstd::arithmetic::power2::lemma2_to64();
    if size < 64 {
        lemma_u64_pow2_shift(s);
    }
    let lo = x >> k;
    let d = (s - k) as u64;
    let hi = (x << d) & mask;
    assert(r == lo | hi) by (bit_vector)
        requires
            r == (x >> m) | ((x << ((size - m) as u32)) & mask),
            s == size as u64,
            k == m as u64,
            m < size,
            lo == x >> k,
            hi == (x << d) & mask,
                    d == s - k,
    ;
    assert forall|i: u64| i < s implies #[trigger] bit(r, i) == bit(x, rotated_from(i, s, k)) by {
        if i + k < s {
            let t = (i + k) as u64;
            assert(((r >> i) & 1) == ((x >> t) & 1)) by (bit_vector)
                requires
                    t == i + k,
                    0 < s <= 64,
                    k < s,
                    i + k < s,
                    r == lo | hi,
                    lo == x >> k,
                    hi == (x << d) & mask,
                    d == s - k,
            ;
        } else {
            let t = (i + k - s) as u64;
            assert(((r >> i) & 1) == ((x >> t) & 1)) by (bit_vector)
                requires
                    t == i + k - s,
                    0 < s <= 64,
                    k < s,
                    s - k < 64,
                    i < s,
                    i + k >= s,
                    s < 64 ==> x < (1u64 << s),
                    s < 64 ==> mask == ((1u64 << s) - 1) as u64,
                    s == 64 ==> mask == 0xffff_ffff_ffff_ffffu64,
                    r == lo | hi,
                    lo == x >> k,
                    hi == (x << d) & mask,
                    d == s - k,
            ;
        }
    }
    assert forall|i: u64| s <= i < 64 implies !#[trigger] bit(r, i) by {
        assert((r >> i) & 1 != 1) by (bit_vector)
            requires
                0 < s <= 64,
                k < s,
                s <= i < 64,
                s < 64 ==> x < (1u64 << s),
                s < 64 ==> mask == ((1u64 << s) - 1) as u64,
                r == lo | hi,
                lo == x >> k,
                hi == (x << d) & mask,
                    d == s - k,
        ;
    }
}

/// The arithmetic meaning of the rotation that `ror` performs.
proof fn lemma_ror_value(x: u64, size: u32, m: u32, mask: u64, r: u64)
    requires
        0 < size <= 64,
        m < size,
        size - m < 64,
        x < pow2(size as nat),
        mask == vstd::bits::low_bits_mask(ones_width(size)),
        r == (x >> m) | ((x << ((size - m) as u32)) & mask),
    ensures
        r == rotated_value(x as nat, size as nat, m as nat),
{
    let s = size as u64;
    let k = m as u64;
    vstd::arithmetic::power2::lemma2_to64();
    if size < 64 {
        lemma_u64_pow2_shift(s);
    }
    assert(r == (x >> k) + ((x & (((1u64 << k) - 1) as u64)) << ((s - k) as u64))) by (bit_vector)
        requires
            0 < s <= 64,
            k < s,
            s - k < 64,
            s < 64 ==> x < (1u64 << s),
            s < 64 ==> mask == ((1u64 << s) - 1) as u64,
            s == 64 ==> mask == 0xffff_ffff_ffff_ffffu64,
            r == (x >> m) | ((x << ((size - m) as u32)) & mask),
            s == size as u64,
            k == m as u64,
    ;
    lemma_u64_pow2_shift(k);
    vstd::bits::lemma_u64_shr_is_div(x, k);
    let lo = x & (((1u64 << k) - 1) as u64);
    vstd::bits::lemma_u64_low_bits_mask_is_mod(x, k as nat);
    let up = (s - k) as u64;
    vstd::arithmetic::power2::lemma_pow2_adds(k as nat, up as nat);
    vstd::arithmetic::power2::lemma_pow2_pos(k as nat);
    vstd::arithmetic::power2::lemma_pow2_pos(up as nat);
    assert(lo * pow2(up as nat) <= u64::MAX) by (nonlinear_arith)
        requires
            lo < pow2(k as nat),
            pow2(k as nat) * pow2(up as nat) == pow2(s as nat),
            pow2(s as nat) <= 0x10000000000000000,
    ;
    vstd::bits::lemma_u64_shl_is_mul(lo, up);
}

/// `replicate(x, m, n)` as a bit pattern: `n` times, shift the result left by
/// `m` and merge `x` into it.
pub open spec fn spec_replicate(x: u64, m: u32, n: nat) -> u64
    decreases n,
{
    if n == 0 {
        0
    } else if n == 1 {
        x
    } else {
        (spec_replicate(x, m, (n - 1) as nat) << m) | x
    }
}

/// The number made of `n` copies of the `m`-bit digit `x`.
pub open spec fn replicated_value(x: nat, m: nat, n: nat) -> nat
    decreases n,
{
    if n == 0 {
        0
    } else {
        replicated_value(x, m, (n - 1) as nat) * pow2(m) + x
    }
}

/// When the copies fit in 64 bits, the bit pattern is the number made of `n`
/// copies of `x`.
pub proof fn lemma_replicate_value(x: u64, m: u32, n: nat)
    requires
        x < pow2(m as nat),
        m * n <= 64,
    ensures
        spec_replicate(x, m, n) == replicated_value(x as nat, m as nat, n),
        replicated_value(x as nat, m as nat, n) < pow2((m * n) as nat),
    decreases n,
{
    vstd::arithmetic::power2::lemma_pow2_pos(m as nat);
    vstd::arithmetic::power2::lemma2_to64();
    if n == 0 {
        assert(m * n == 0) by (nonlinear_arith)
            requires
                n == 0,
        ;
    } else {
        let k = (n - 1) as nat;
        assert(m * k <= 64 && (m * k) + m == m * n) by (nonlinear_arith)
            requires
                m * n <= 64,
                k == n - 1,
        ;
        lemma_replicate_value(x, m, k);
        let prev = replicated_value(x as nat, m as nat, k);
        let p = pow2((m * k) as nat);
        let q = pow2(m as nat);
        vstd::arithmetic::power2::lemma_pow2_adds((m * k) as nat, m as nat);
        assert(prev * q + x < p * q) by (nonlinear_arith)
            requires
                prev < p,
                x < q,
        ;
        assert(replicated_value(x as nat, m as nat, n) == prev * q + x);
        if n == 1 {
            assert(prev == 0);
            assert(spec_replicate(x, m, n) == x);
            assert(prev * q == 0) by (nonlinear_arith)
                requires
                    prev == 0,
            ;
        } else {
            assert(m < 64) by (nonlinear_arith)
                requires
                    m * n <= 64,
                    n >= 2,
            ;
            let prev_bits = spec_replicate(x, m, k);
            if m * n < 64 {
                vstd::arithmetic::power2::lemma_pow2_strictly_increases((m * n) as nat, 64);
            }
            assert(prev_bits * q <= u64::MAX) by (nonlinear_arith)
                requires
                    prev_bits == prev,
                    prev * q + x < p * q,
                    p * q <= 0x10000000000000000,
            ;
            vstd::bits::lemma_u64_shl_is_mul(prev_bits, m as u64);
            lemma_u64_pow2_shift(m as u64);
            assert(((prev_bits << m) | x) == (prev_bits << (m as u64)) + x) by (bit_vector)
                requires
                    m < 64,
                    x < (1u64 << m as u64),
                    (prev_bits << (m as u64)) as int + x as int <= u64::MAX,
            ;
            assert(spec_replicate(x, m, n) == (prev_bits << m) | x);
            assert((prev_bits << (m as u64)) == prev * q);
            assert(spec_replicate(x, m, n) == prev * q + x);
        }
    }
}

/// Concatenates `n` copies of the `m`-bit pattern `x`.
pub fn replicate(x: u64, m: u32, n: u32) -> (r: u64)
    requires
        n >= 2 ==> m < 64,
    ensures
        r == spec_replicate(x, m, n as nat),
        x < pow2(m as nat) && m * n <= 64 ==> r == replicated_value(x as nat, m as nat, n as nat),
{
    proof {
        if x < pow2(m as nat) && m * n <= 64 {
            lemma_replicate_value(x, m, n as nat);
        }
    }
    if n == 1 {
        return x;
    }
    let mut result: u64 = 0;
    let mut i: u32 = 0;
    while i < n
        invariant
            n != 1,
            n >= 2 ==> m < 64,
            i <= n,
            result == spec_replicate(x, m, i as nat),
        decreases n - i,
    {
        proof {
            if i == 0 {
                assert((0u64 << m) | x == x) by (bit_vector)
                    requires
                        m < 64,
                ;
            }
        }
        result = result << m;
        result = result | x;
        i = i + 1;
    }
    result
}

} // verus!
