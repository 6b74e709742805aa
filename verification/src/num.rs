//! Decimal digit strings: rendering unsigned integers and reading them
//! back.  These are the building blocks for request parameters (timestamps,
//! prices, volumes) and for the fixed-point amounts of the withdrawal
//! policies.

use vstd::prelude::*;

verus! {

/// Ten to the power `e`.
pub open spec fn pow10(e: nat) -> nat
    decreases e,
{
    if e == 0 {
        1
    } else {
        10 * pow10((e - 1) as nat)
    }
}

/// The decimal rendering of `n`, most significant digit first, no sign and
/// no leading zeros (`0` renders as `0`).
pub open spec fn dec_of(n: nat) -> Seq<u8>
    decreases n,
{
    if n < 10 {
        seq![(0x30 + n) as u8]
    } else {
        dec_of(n / 10) + seq![(0x30 + n % 10) as u8]
    }
}

/// Every byte is an ASCII digit.
pub open spec fn is_digits(s: Seq<u8>) -> bool {
    forall|i: int| 0 <= i < s.len() ==> 0x30 <= #[trigger] s[i] <= 0x39
}

/// The value of a digit string, most significant digit first.
pub open spec fn digits_val(s: Seq<u8>) -> nat
    decreases s.len(),
{
    if s.len() == 0 {
        0
    } else {
        10 * digits_val(s.drop_last()) + (s.last() - 0x30) as nat
    }
}

/// The index of the first occurrence of `b` in `s`, or -1 when absent.
pub open spec fn find_byte(s: Seq<u8>, b: u8) -> int
    decreases s.len(),
{
    if s.len() == 0 {
        -1
    } else if s[0] == b {
        0
    } else if find_byte(s.drop_first(), b) < 0 {
        -1
    } else {
        1 + find_byte(s.drop_first(), b)
    }
}

/// Ten to the power `e` as a `u64`; `pow10(19)` still fits.
pub fn pow10_u64(e: u32) -> (r: u64)
    requires
        e <= 19,
    ensures
        r == pow10(e as nat),
{
    let mut i: u32 = 0;
    let mut r: u64 = 1;
    proof {
        lemma_pow10_bound();
        lemma_pow10_mono(e as nat, 19);
    }
    while i < e
        invariant
            i <= e <= 19,
            r == pow10(i as nat),
            pow10(e as nat) <= pow10(19),
            pow10(19) == 10_000_000_000_000_000_000,
        decreases e - i,
    {
        proof {
            lemma_pow10_mono(i as nat + 1, e as nat);
        }
        r = r * 10;
        i = i + 1;
    }
    r
}

/// `pow10` is monotone in the exponent.
pub proof fn lemma_pow10_mono(a: nat, b: nat)
    requires
        a <= b,
    ensures
        pow10(a) <= pow10(b),
    decreases b,
{
    if a < b {
        lemma_pow10_mono(a, (b - 1) as nat);
    }
}

/// Concrete values of `pow10(18)` and `pow10(19)`, for overflow bounds.
pub proof fn lemma_pow10_bound()
    ensures
        pow10(19) == 10_000_000_000_000_000_000,
        pow10(18) == 1_000_000_000_000_000_000,
{
    reveal_with_fuel(pow10, 20);
    assert(pow10(19) == 10_000_000_000_000_000_000);
}

/// Decimal renderings are ASCII.
pub proof fn lemma_dec_of_ascii(n: nat)
    ensures
        crate::codec::ascii_bytes(dec_of(n)),
    decreases n,
{
    if n >= 10 {
        lemma_dec_of_ascii(n / 10);
    }
}

/// Render a `u64` in decimal.
pub fn u64_to_dec(n: u64) -> (r: Vec<u8>)
    ensures
        r@ == dec_of(n as nat),
{
    let mut x: u64 = n;
    let mut out: Vec<u8> = Vec::new();
    while x >= 10
        invariant
            dec_of(n as nat) == dec_of(x as nat) + out@,
        decreases x,
    {
        let d: u8 = (x % 10) as u8;
        out.insert(0, 0x30 + d);
        x = x / 10;
        assert(dec_of(n as nat) == dec_of(x as nat) + out@);
    }
    out.insert(0, 0x30 + x as u8);
    proof {
        assert(dec_of(x as nat) =~= seq![(0x30 + x) as u8]);
        assert(out@ =~= dec_of(n as nat));
    }
    out
}

/// Read a digit string as a `u64`.  Succeeds exactly on non-empty all-digit
/// strings whose value fits.
pub fn parse_u64(s: &[u8]) -> (r: Option<u64>)
    ensures
        r is Some <==> s@.len() > 0 && is_digits(s@) && digits_val(s@) <= u64::MAX,
        r matches Some(v) ==> v == digits_val(s@),
{
    let n = s.len();
    if n == 0 {
        return None;
    }
    let mut i: usize = 0;
    let mut acc: u64 = 0;
    while i < n
        invariant
            0 < n == s@.len(),
            0 <= i <= n,
            is_digits(s@.take(i as int)),
            acc == digits_val(s@.take(i as int)),
            digits_val(s@.take(i as int)) <= u64::MAX,
        decreases n - i,
    {
        let b = *vstd::slice::slice_index_get(s, i);
        if b < 0x30 || b > 0x39 {
            assert(!is_digits(s@));
            return None;
        }
        let d: u64 = (b - 0x30) as u64;
        if acc > (u64::MAX - d) / 10 {
            proof {
                assert(s@.take(i as int + 1).drop_last() =~= s@.take(i as int));
                assert(digits_val(s@.take(i as int + 1)) == 10 * (acc as nat) + d);
                lemma_digits_val_extend_bound(s@, i as int + 1);
            }
            return None;
        }
        acc = acc * 10 + d;
        proof {
            assert(s@.take(i as int + 1).drop_last() =~= s@.take(i as int));
            assert(forall|j: int| 0 <= j < i + 1 ==> 0x30 <= #[trigger] s@.take(i as int + 1)[j]
                <= 0x39);
        }
        i = i + 1;
    }
    proof {
        assert(s@.take(n as int) =~= s@);
    }
    Some(acc)
}

/// Renderings are digit strings.
pub proof fn lemma_dec_of_digits(n: nat)
    ensures
        is_digits(dec_of(n)),
    decreases n,
{
    if n >= 10 {
        lemma_dec_of_digits(n / 10);
    }
}

/// Reading a rendering back gives the number.
pub proof fn lemma_digits_val_dec_of(n: nat)
    ensures
        digits_val(dec_of(n)) == n,
    decreases n,
{
    if n < 10 {
        assert(dec_of(n).drop_last() =~= Seq::<u8>::empty());
        assert(digits_val(Seq::<u8>::empty()) == 0);
        assert(dec_of(n).last() == (0x30 + n) as u8);
    } else {
        lemma_digits_val_dec_of(n / 10);
        assert((dec_of(n / 10) + seq![(0x30 + n % 10) as u8]).drop_last() =~= dec_of(n / 10));
        assert((dec_of(n / 10) + seq![(0x30 + n % 10) as u8]).last() == (0x30 + n % 10) as u8);
        assert(digits_val(dec_of(n)) == 10 * (n / 10) + n % 10);
    }
}

/// The value of a concatenation: the left part shifted by the right
/// part's width, plus the right part.
pub proof fn lemma_digits_val_concat(a: Seq<u8>, b: Seq<u8>)
    ensures
        digits_val(a + b) == digits_val(a) * pow10(b.len()) + digits_val(b),
    decreases b.len(),
{
    if b.len() == 0 {
        assert(a + b =~= a);
        assert(pow10(0) == 1);
        assert(digits_val(b) == 0);
        assert(digits_val(a) * 1 == digits_val(a)) by (nonlinear_arith);
    } else {
        lemma_digits_val_concat(a, b.drop_last());
        assert((a + b).drop_last() =~= a + b.drop_last());
        assert((a + b).last() == b.last());
        assert(digits_val(a + b) == 10 * (digits_val(a) * pow10((b.len() - 1) as nat)
            + digits_val(b.drop_last())) + (b.last() - 0x30) as nat);
        assert(10 * (digits_val(a) * pow10((b.len() - 1) as nat)) == digits_val(a) * (10 * pow10(
            (b.len() - 1) as nat,
        ))) by (nonlinear_arith);
        assert(pow10(b.len()) == 10 * pow10((b.len() - 1) as nat));
        assert(digits_val(b) == 10 * digits_val(b.drop_last()) + (b.last() - 0x30) as nat);
        assert(10 * (digits_val(a) * pow10((b.len() - 1) as nat) + digits_val(b.drop_last())) + (
        b.last() - 0x30) as nat == 10 * (digits_val(a) * pow10((b.len() - 1) as nat)) + (10
            * digits_val(b.drop_last()) + (b.last() - 0x30) as nat));
        assert(digits_val(a + b) == digits_val(a) * (10 * pow10((b.len() - 1) as nat))
            + digits_val(b));
        assert(digits_val(a) * (10 * pow10((b.len() - 1) as nat)) == digits_val(a) * pow10(
            b.len(),
        ));
        assert(digits_val(a + b) == digits_val(a) * pow10(b.len()) + digits_val(b));
    }
}

/// A digit string never contains the byte `b` when `b` is not a digit.
pub proof fn lemma_find_byte_none(s: Seq<u8>, b: u8)
    requires
        is_digits(s),
        b < 0x30 || b > 0x39,
    ensures
        find_byte(s, b) < 0,
    decreases s.len(),
{
    if s.len() > 0 {
        let t = s.drop_first();
        assert(forall|i: int| 0 <= i < t.len() ==> 0x30 <= #[trigger] t[i] <= 0x39) by {
            assert(forall|i: int| 0 <= i < t.len() ==> t[i] == s[i + 1]);
        }
        lemma_find_byte_none(t, b);
    }
}

/// Where the first occurrence of a byte is known, `find_byte` finds it.
pub proof fn lemma_find_byte_at(s: Seq<u8>, b: u8, k: int)
    requires
        0 <= k < s.len(),
        forall|i: int| 0 <= i < k ==> s[i] != b,
        s[k] == b,
    ensures
        find_byte(s, b) == k,
    decreases k,
{
    if k > 0 {
        assert(s.drop_first()[k - 1] == s[k]);
        assert(forall|i: int| 0 <= i < k - 1 ==> s.drop_first()[i] == s[i + 1]);
        lemma_find_byte_at(s.drop_first(), b, k - 1);
    }
}

/// If a prefix of a digit string already exceeds a bound, the whole string
/// does too.
pub proof fn lemma_digits_val_extend_bound(s: Seq<u8>, k: int)
    requires
        0 <= k <= s.len(),
    ensures
        digits_val(s) >= digits_val(s.take(k)),
    decreases s.len() - k,
{
    if k < s.len() {
        lemma_digits_val_extend_bound(s, k + 1);
        assert(s.take(k + 1).drop_last() =~= s.take(k));
        assert(digits_val(s.take(k + 1)) == 10 * digits_val(s.take(k)) + (s[k] - 0x30) as nat);
    } else {
        assert(s.take(k) =~= s);
    }
}

} // verus!
