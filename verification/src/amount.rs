//! Fixed-point decimal amounts.  Exchanges transmit prices, volumes and
//! balances as decimal strings; this type holds such a value exactly as an
//! integer mantissa and a decimal scale, so that the withdrawal fee policy
//! can subtract without rounding and every rendering is reproducible byte
//! for byte.

use vstd::prelude::*;

verus! {

use crate::num::{pow10, pow10_u64, dec_of, is_digits, digits_val, find_byte, u64_to_dec,
    parse_u64};

/// A non-negative decimal number `mantissa / 10^scale`.
#[derive(Clone, Copy, Debug, PartialEq, Eq, Structural)]
pub struct Amount {
    pub mantissa: u64,
    pub scale: u32,
}

impl Amount {
    /// Well-formed amounts keep the scale small enough that `10^scale`
    /// fits a `u64`.
    pub open spec fn wf(self) -> bool {
        self.scale <= 18
    }

    /// The represented value, scaled to a common integer grid: this equals
    /// `value * 10^18` for the rational value of the amount.
    pub open spec fn scaled(self) -> nat {
        (self.mantissa * pow10((18 - self.scale) as nat)) as nat
    }
}

/// The decimal parse of a byte string: an integer part, optionally followed
/// by `.` and a fractional part.  Defined exactly: both parts must be
/// non-empty digit strings, the fraction at most 18 digits, and the joined
/// mantissa must fit a `u64`.
pub open spec fn amount_parsed(s: Seq<u8>) -> Option<Amount> {
    let dot = find_byte(s, 0x2e);
    if dot < 0 {
        if s.len() > 0 && is_digits(s) && digits_val(s) <= u64::MAX {
            Some(Amount { mantissa: digits_val(s) as u64, scale: 0 })
        } else {
            None
        }
    } else {
        let ip = s.take(dot);
        let fp = s.skip(dot + 1);
        if ip.len() > 0 && is_digits(ip) && fp.len() > 0 && fp.len() <= 18 && is_digits(fp)
            && digits_val(ip + fp) <= u64::MAX {
            Some(Amount { mantissa: digits_val(ip + fp) as u64, scale: fp.len() as u32 })
        } else {
            None
        }
    }
}

/// The rendering of an amount: the mantissa's digits with a decimal point
/// inserted `scale` places from the right; a zero scale renders as a plain
/// integer, and the integer part always has at least one digit.
pub open spec fn amount_rendered(a: Amount) -> Seq<u8> {
    if a.scale == 0 {
        dec_of(a.mantissa as nat)
    } else {
        dec_of((a.mantissa as nat) / pow10(a.scale as nat)) + seq![0x2eu8] + zero_pad(
            dec_of((a.mantissa as nat) % pow10(a.scale as nat)),
            a.scale as nat,
        )
    }
}

/// Left-pad a digit string with zeros to the given width.
pub open spec fn zero_pad(s: Seq<u8>, width: nat) -> Seq<u8>
    decreases width,
{
    if s.len() >= width {
        s
    } else {
        seq![0x30u8] + zero_pad(s, (width - 1) as nat)
    }
}

/// The index of the first `.` in a byte slice, if any.
fn find_dot(s: &[u8]) -> (r: Option<usize>)
    ensures
        r is Some <==> find_byte(s@, 0x2e) >= 0,
        r matches Some(i) ==> i == find_byte(s@, 0x2e) && i < s@.len(),
{
    let n = s.len();
    let mut i: usize = 0;
    proof {
        assert(s@.skip(0) =~= s@);
    }
    while i < n
        invariant
            0 <= i <= n == s@.len(),
            find_byte(s@, 0x2e) >= 0 <==> find_byte(s@.skip(i as int), 0x2e) >= 0,
            find_byte(s@, 0x2e) >= 0 ==> find_byte(s@, 0x2e) == i + find_byte(
                s@.skip(i as int),
                0x2e,
            ),
            forall|j: int| 0 <= j < i ==> s@[j] != 0x2e,
        decreases n - i,
    {
        let b = *vstd::slice::slice_index_get(s, i);
        proof {
            assert(s@.skip(i as int).len() > 0);
            assert(s@.skip(i as int)[0] == s@[i as int]);
            assert(s@.skip(i as int).drop_first() =~= s@.skip(i as int + 1));
        }
        if b == 0x2e {
            return Some(i);
        }
        i = i + 1;
    }
    proof {
        assert(s@.skip(n as int) =~= Seq::<u8>::empty());
    }
    None
}

/// Read a decimal amount from its byte rendering.  Succeeds exactly when
/// `amount_parsed` does, and returns exactly that amount.
pub fn amount_parse(s: &[u8]) -> (r: Option<Amount>)
    ensures
        r == amount_parsed(s@),
        r matches Some(a) ==> a.wf(),
{
    match find_dot(s) {
        None => {
            match parse_u64(s) {
                None => None,
                Some(v) => Some(Amount { mantissa: v, scale: 0 }),
            }
        },
        Some(dot) => {
            let n = s.len();
            proof {
                assert(dot < s@.len());
            }
            let ip = vstd::slice::slice_subrange(s, 0, dot);
            let fp = vstd::slice::slice_subrange(s, dot + 1, n);
            if ip.len() == 0 || fp.len() == 0 || fp.len() > 18 {
                proof {
                    assert(s@.take(dot as int) =~= ip@);
                    assert(s@.skip(dot as int + 1) =~= fp@);
                }
                return None;
            }
            let mut joined: Vec<u8> = vstd::slice::slice_to_vec(ip);
            let mut k: usize = 0;
            while k < fp.len()
                invariant
                    0 <= k <= fp@.len(),
                    joined@ == ip@ + fp@.take(k as int),
                decreases fp@.len() - k,
            {
                joined.push(*vstd::slice::slice_index_get(fp, k));
                proof {
                    assert(ip@ + fp@.take(k as int + 1) =~= (ip@ + fp@.take(k as int)).push(
                        fp@[k as int],
                    ));
                }
                k = k + 1;
            }
            proof {
                assert(fp@.take(fp@.len() as int) =~= fp@);
                assert(s@.take(dot as int) =~= ip@);
                assert(s@.skip(dot as int + 1) =~= fp@);
            }
            match parse_u64(joined.as_slice()) {
                None => {
                    proof {
                        if is_digits(ip@) && is_digits(fp@) {
                            assert forall|j: int| 0 <= j < joined@.len() implies 0x30
                                <= #[trigger] joined@[j] <= 0x39 by {
                                if j < ip@.len() {
                                    assert(joined@[j] == ip@[j]);
                                } else {
                                    assert(joined@[j] == fp@[j - ip@.len()]);
                                }
                            }
                        }
                    }
                    None
                },
                Some(v) => {
                    proof {
                        assert forall|j: int| 0 <= j < ip@.len() implies 0x30 <= #[trigger] ip@[j]
                            <= 0x39 by {
                            assert(joined@[j] == ip@[j]);
                        }
                        assert forall|j: int| 0 <= j < fp@.len() implies 0x30 <= #[trigger] fp@[j]
                            <= 0x39 by {
                            assert(joined@[ip@.len() + j] == fp@[j]);
                        }
                    }
                    Some(Amount { mantissa: v, scale: fp.len() as u32 })
                },
            }
        },
    }
}

/// A number below `10^k` renders in at most `k` digits.
pub proof fn lemma_dec_of_len(n: nat, k: nat)
    requires
        n < pow10(k),
        k >= 1,
    ensures
        dec_of(n).len() <= k,
    decreases k,
{
    if n < 10 {
    } else {
        vstd::arithmetic::div_mod::lemma_fundamental_div_mod(n as int, 10);
        assert(n / 10 < pow10((k - 1) as nat));
        lemma_dec_of_len(n / 10, (k - 1) as nat);
    }
}

/// Render an amount back to its decimal byte string.
pub fn amount_render(a: &Amount) -> (r: Vec<u8>)
    requires
        a.wf(),
    ensures
        r@ == amount_rendered(*a),
{
    if a.scale == 0 {
        u64_to_dec(a.mantissa)
    } else {
        let p = pow10_u64(a.scale);
        proof {
            crate::num::lemma_pow10_mono(0, a.scale as nat);
            assert(pow10(0) == 1);
        }
        let ipart = a.mantissa / p;
        let fpart = a.mantissa % p;
        let mut out = u64_to_dec(ipart);
        out.push(0x2e);
        let fdigits = u64_to_dec(fpart);
        let mut pad: usize = 0;
        let width = a.scale as usize;
        proof {
            assert(out@ =~= dec_of((a.mantissa as nat) / pow10(a.scale as nat)) + seq![0x2eu8]);
        }
        proof {
            assert(pow10(a.scale as nat) > 0) by {
                crate::num::lemma_pow10_mono(0, a.scale as nat);
            }
            lemma_dec_of_len((a.mantissa as nat) % pow10(a.scale as nat), a.scale as nat);
        }
        let mut padded: Vec<u8> = Vec::new();
        while pad + fdigits.len() < width
            invariant
                fdigits@ == dec_of((a.mantissa as nat) % pow10(a.scale as nat)),
                padded@ =~= Seq::new(pad as nat, |i: int| 0x30u8),
                pad + fdigits@.len() <= width,
            decreases width - pad,
        {
            padded.push(0x30);
            pad = pad + 1;
        }
        let mut q: usize = 0;
        while q < fdigits.len()
            invariant
                0 <= q <= fdigits@.len(),
                padded@ =~= Seq::new(pad as nat, |i: int| 0x30u8) + fdigits@.take(q as int),
                fdigits@ == dec_of((a.mantissa as nat) % pow10(a.scale as nat)),
                pad + fdigits@.len() <= width,
                pad + fdigits@.len() == width || pad == 0,
            decreases fdigits@.len() - q,
        {
            padded.push(fdigits[q]);
            q = q + 1;
        }
        proof {
            assert(fdigits@.take(fdigits@.len() as int) =~= fdigits@);
            lemma_zero_pad_shape(fdigits@, width as nat, pad as nat);
        }
        let mut res = out;
        let mut t: usize = 0;
        while t < padded.len()
            invariant
                0 <= t <= padded@.len(),
                res@ =~= dec_of((a.mantissa as nat) / pow10(a.scale as nat)) + seq![0x2eu8]
                    + padded@.take(t as int),
            decreases padded@.len() - t,
        {
            res.push(padded[t]);
            t = t + 1;
        }
        proof {
            assert(padded@.take(padded@.len() as int) =~= padded@);
            assert(res@ =~= amount_rendered(*a));
        }
        res
    }
}

/// Zero-padding to a width is a block of zeros followed by the digits.
proof fn lemma_zero_pad_shape(s: Seq<u8>, width: nat, pad: nat)
    requires
        pad + s.len() == width || (pad == 0 && s.len() >= width),
    ensures
        zero_pad(s, width) =~= Seq::new(pad, |i: int| 0x30u8) + s,
    decreases width,
{
    if s.len() >= width {
        assert(zero_pad(s, width) == s);
        assert(Seq::new(0, |i: int| 0x30u8) + s =~= s);
    } else {
        lemma_zero_pad_shape(s, (width - 1) as nat, (pad - 1) as nat);
        assert(Seq::new(pad, |i: int| 0x30u8) =~= seq![0x30u8] + Seq::new(
            (pad - 1) as nat,
            |i: int| 0x30u8,
        ));
    }
}

/// Amount renderings are ASCII: digits and a decimal point.
pub proof fn lemma_amount_rendered_ascii(a: Amount)
    ensures
        crate::codec::ascii_bytes(amount_rendered(a)),
{
    if a.scale == 0 {
        crate::num::lemma_dec_of_ascii(a.mantissa as nat);
    } else {
        crate::num::lemma_dec_of_ascii((a.mantissa as nat) / pow10(a.scale as nat));
        crate::num::lemma_dec_of_ascii((a.mantissa as nat) % pow10(a.scale as nat));
        lemma_zero_pad_ascii(
            dec_of((a.mantissa as nat) % pow10(a.scale as nat)),
            a.scale as nat,
        );
    }
}

/// Zero-padding reaches the width (or keeps a longer string), stays a
/// digit string, and keeps the value.
proof fn lemma_zero_pad_props(s: Seq<u8>, width: nat)
    requires
        crate::num::is_digits(s),
    ensures
        zero_pad(s, width).len() == if s.len() >= width {
            s.len()
        } else {
            width
        },
        crate::num::is_digits(zero_pad(s, width)),
        digits_val(zero_pad(s, width)) == digits_val(s),
    decreases width,
{
    if s.len() < width {
        lemma_zero_pad_props(s, (width - 1) as nat);
        let t = zero_pad(s, (width - 1) as nat);
        let z = seq![0x30u8] + t;
        assert(zero_pad(s, width) == z);
        assert(forall|i: int| 0 <= i < z.len() ==> 0x30 <= #[trigger] z[i] <= 0x39) by {
            assert(z[0] == 0x30);
            assert(forall|i: int| 1 <= i < z.len() ==> #[trigger] z[i] == t[i - 1]);
        }
        crate::num::lemma_digits_val_concat(seq![0x30u8], t);
        assert(digits_val(seq![0x30u8]) == 0) by {
            assert(seq![0x30u8].drop_last() =~= Seq::<u8>::empty());
            assert(digits_val(Seq::<u8>::empty()) == 0);
            assert(seq![0x30u8].last() == 0x30u8);
        }
        assert(digits_val(z) == 0 * pow10(t.len()) + digits_val(t));
    }
}

/// The round-trip law: reading a well-formed amount's rendering back gives
/// exactly that amount, mantissa and scale alike.
pub proof fn lemma_amount_round_trip(a: Amount)
    requires
        a.wf(),
    ensures
        amount_parsed(amount_rendered(a)) == Some(a),
{
    let m = a.mantissa as nat;
    if a.scale == 0 {
        crate::num::lemma_dec_of_digits(m);
        crate::num::lemma_digits_val_dec_of(m);
        crate::num::lemma_find_byte_none(dec_of(m), 0x2e);
    } else {
        let p = pow10(a.scale as nat);
        assert(p > 0) by {
            crate::num::lemma_pow10_mono(0, a.scale as nat);
        }
        let ipd = dec_of(m / p);
        let frac = dec_of(m % p);
        let padded = zero_pad(frac, a.scale as nat);
        let r = amount_rendered(a);
        crate::num::lemma_dec_of_digits(m / p);
        crate::num::lemma_dec_of_digits(m % p);
        crate::num::lemma_digits_val_dec_of(m / p);
        crate::num::lemma_digits_val_dec_of(m % p);
        lemma_zero_pad_props(frac, a.scale as nat);
        lemma_dec_of_len(m % p, a.scale as nat);
        assert(padded.len() == a.scale);
        // The dot sits right after the integer digits.
        assert(r[ipd.len() as int] == 0x2e);
        assert(forall|i: int| 0 <= i < ipd.len() ==> r[i] == ipd[i]);
        crate::num::lemma_find_byte_at(r, 0x2e, ipd.len() as int);
        let dot = ipd.len() as int;
        assert(r.take(dot) =~= ipd);
        assert(r.skip(dot + 1) =~= padded);
        assert(ipd + padded =~= r.take(dot) + r.skip(dot + 1));
        crate::num::lemma_digits_val_concat(ipd, padded);
        assert(digits_val(ipd + padded) == (m / p) * p + m % p);
        vstd::arithmetic::div_mod::lemma_fundamental_div_mod(m as int, p as int);
        assert((m / p) * p + m % p == m);
        assert(amount_parsed(r) == Some(Amount { mantissa: a.mantissa, scale: a.scale }));
    }
}

/// Amount renderings are never empty.
pub proof fn lemma_amount_rendered_nonempty(a: Amount)
    ensures
        amount_rendered(a).len() > 0,
{
}

/// Zero-padding an ASCII digit string stays ASCII.
proof fn lemma_zero_pad_ascii(s: Seq<u8>, width: nat)
    requires
        crate::codec::ascii_bytes(s),
    ensures
        crate::codec::ascii_bytes(zero_pad(s, width)),
    decreases width,
{
    if s.len() < width {
        lemma_zero_pad_ascii(s, (width - 1) as nat);
    }
}

/// Subtract an integer number of whole units (the withdrawal fee) from an
/// amount, exactly.  Returns `None` when the fee exceeds the amount or the
/// aligned fee does not fit the mantissa's range.
pub fn amount_sub_units(a: &Amount, units: u64) -> (r: Option<Amount>)
    requires
        a.wf(),
    ensures
        r matches Some(n) ==> n.scale == a.scale && n.mantissa + units * pow10(a.scale as nat)
            == a.mantissa && n.wf(),
        r is None ==> units * pow10(a.scale as nat) > a.mantissa || units * pow10(
            a.scale as nat,
        ) > u64::MAX,
{
    let p = pow10_u64(a.scale);
    match units.checked_mul(p) {
        None => {
            proof {
                assert(units * pow10(a.scale as nat) > u64::MAX);
            }
            None
        },
        Some(aligned) => {
            if aligned > a.mantissa {
                None
            } else {
                Some(Amount { mantissa: a.mantissa - aligned, scale: a.scale })
            }
        },
    }
}

} // verus!
