//! Byte-level encodings used by the signing protocols: lowercase and
//! uppercase hexadecimal, standard base64, and the
//! `application/x-www-form-urlencoded` byte serialization.  The encodings
//! themselves are performed by outside crates; each call sits behind a
//! trusted wrapper whose contract states the encoding exactly, byte for
//! byte, so that every canonical string built on top of them is pinned down.

use vstd::prelude::*;

verus! {

use vstd::string::StringSliceAdditionalSpecFns;

/// The UTF-8 bytes of a string view.  For `&str` this agrees with
/// `spec_bytes`, and it lets contracts speak of the bytes of a `String` too.
pub open spec fn bytes_of(s: Seq<char>) -> Seq<u8> {
    vstd::utf8::encode_utf8(s)
}

/// The lowercase hexadecimal digit for a nibble.
pub open spec fn hex_digit_lower(n: u8) -> u8
    recommends
        n < 16,
{
    if n < 10 {
        (0x30 + n) as u8
    } else {
        (0x57 + n) as u8
    }
}

/// The uppercase hexadecimal digit for a nibble.
pub open spec fn hex_digit_upper(n: u8) -> u8
    recommends
        n < 16,
{
    if n < 10 {
        (0x30 + n) as u8
    } else {
        (0x37 + n) as u8
    }
}

/// Lowercase hex expansion of a byte string: two digits per byte.
pub open spec fn hex_lower_of(s: Seq<u8>) -> Seq<u8>
    decreases s.len(),
{
    if s.len() == 0 {
        Seq::empty()
    } else {
        seq![hex_digit_lower(s[0] / 16), hex_digit_lower(s[0] % 16)] + hex_lower_of(
            s.drop_first(),
        )
    }
}

/// The character of the standard base64 alphabet for a 6-bit value.
pub open spec fn base64_char(n: u8) -> u8
    recommends
        n < 64,
{
    if n < 26 {
        (0x41 + n) as u8  // 'A'..='Z'
    } else if n < 52 {
        (0x47 + n) as u8  // 'a'..='z'
    } else if n < 62 {
        (n - 52 + 0x30) as u8  // '0'..='9'
    } else if n == 62 {
        0x2b  // '+'
    } else {
        0x2f  // '/'
    }
}

/// Standard base64 with `=` padding (RFC 4648 section 4): each group of
/// three input bytes becomes four alphabet characters; a trailing group of
/// one or two bytes is padded with `=`.
pub open spec fn base64_of(s: Seq<u8>) -> Seq<u8>
    decreases s.len(),
{
    if s.len() == 0 {
        Seq::empty()
    } else if s.len() == 1 {
        seq![
            base64_char(s[0] / 4),
            base64_char(((s[0] % 4) * 16) as u8),
            0x3d,
            0x3d,
        ]
    } else if s.len() == 2 {
        seq![
            base64_char(s[0] / 4),
            base64_char(((s[0] % 4) * 16 + s[1] / 16) as u8),
            base64_char(((s[1] % 16) * 4) as u8),
            0x3d,
        ]
    } else {
        seq![
            base64_char(s[0] / 4),
            base64_char(((s[0] % 4) * 16 + s[1] / 16) as u8),
            base64_char(((s[1] % 16) * 4 + s[2] / 64) as u8),
            base64_char(s[2] % 64),
        ] + base64_of(s.skip(3))
    }
}

/// Whether the form-urlencoded byte serializer passes a byte through
/// unchanged: `*`, `-`, `.`, `_`, ASCII digits and ASCII letters.
pub open spec fn form_unchanged(b: u8) -> bool {
    b == 0x2a || b == 0x2d || b == 0x2e || b == 0x5f || (0x30 <= b && b <= 0x39) || (0x41 <= b
        && b <= 0x5a) || (0x61 <= b && b <= 0x7a)
}

/// Form-urlencoding of one byte: unchanged bytes stay, a space becomes `+`,
/// every other byte becomes `%` followed by two uppercase hex digits.
pub open spec fn form_byte(b: u8) -> Seq<u8> {
    if form_unchanged(b) {
        seq![b]
    } else if b == 0x20 {
        seq![0x2b]
    } else {
        seq![0x25, hex_digit_upper(b / 16), hex_digit_upper(b % 16)]
    }
}

/// The `application/x-www-form-urlencoded` byte serialization of a byte
/// string.
pub open spec fn form_encoded_of(s: Seq<u8>) -> Seq<u8>
    decreases s.len(),
{
    if s.len() == 0 {
        Seq::empty()
    } else {
        form_byte(s[0]) + form_encoded_of(s.drop_first())
    }
}

/// Hex digits are ASCII.
pub proof fn lemma_hex_lower_ascii(s: Seq<u8>)
    ensures
        ascii_bytes(hex_lower_of(s)),
    decreases s.len(),
{
    if s.len() > 0 {
        lemma_hex_lower_ascii(s.drop_first());
    }
}

/// The base64 alphabet and its padding are ASCII.
pub proof fn lemma_base64_ascii(s: Seq<u8>)
    ensures
        ascii_bytes(base64_of(s)),
    decreases s.len(),
{
    if s.len() > 2 {
        lemma_base64_ascii(s.skip(3));
    }
}

/// Form-urlencoded output is ASCII.
pub proof fn lemma_form_encoded_ascii(s: Seq<u8>)
    ensures
        ascii_bytes(form_encoded_of(s)),
    decreases s.len(),
{
    if s.len() > 0 {
        lemma_form_encoded_ascii(s.drop_first());
    }
}

/// Uppercasing keeps bytes ASCII.
pub proof fn lemma_ascii_upper_ascii(s: Seq<u8>)
    requires
        ascii_bytes(s),
    ensures
        ascii_bytes(ascii_upper(s)),
{
    assert forall|i: int| 0 <= i < ascii_upper(s).len() implies ascii_upper(s)[i] < 128 by {
        assert(ascii_upper(s)[i] == ascii_upper_byte(s[i]));
    }
}

/// UTF-8 encoding is injective: equal bytes mean equal strings.
pub proof fn lemma_bytes_of_injective(a: Seq<char>, b: Seq<char>)
    requires
        bytes_of(a) == bytes_of(b),
    ensures
        a == b,
{
    vstd::utf8::encode_utf8_decode_utf8(a);
    vstd::utf8::encode_utf8_decode_utf8(b);
}

/// The UTF-8 bytes of an ASCII string are ASCII bytes.
pub proof fn lemma_ascii_chars_bytes(s: Seq<char>)
    requires
        vstd::utf8::is_ascii_chars(s),
    ensures
        ascii_bytes(bytes_of(s)),
        bytes_of(s).len() == s.len(),
        forall|i: int| 0 <= i < s.len() ==> bytes_of(s)[i] == s[i] as u8,
{
    vstd::utf8::is_ascii_chars_encode_utf8(s);
}

/// Relies on `hex::encode`: two lowercase hexadecimal digits for each input
/// byte, in order.
#[verifier::external_body]
pub fn hex_encode(bytes: &[u8]) -> (r: Vec<u8>)
    ensures
        r@ == hex_lower_of(bytes@),
{
    hex::encode(bytes).into_bytes()
}

/// Relies on `base64::Engine::encode` with the `STANDARD` engine: base64 of
/// the input bytes in the standard alphabet, padded with `=`.
#[verifier::external_body]
pub fn base64_encode(bytes: &[u8]) -> (r: Vec<u8>)
    ensures
        r@ == base64_of(bytes@),
{
    base64::Engine::encode(&base64::engine::general_purpose::STANDARD, bytes).into_bytes()
}

/// Relies on `url::form_urlencoded::byte_serialize`: alphanumerics and
/// `*-._` pass through, space becomes `+`, every other byte becomes a
/// percent escape with uppercase hex digits.
#[verifier::external_body]
pub fn form_urlencode(bytes: &[u8]) -> (r: Vec<u8>)
    ensures
        r@ == form_encoded_of(bytes@),
{
    let s: String = url::form_urlencoded::byte_serialize(bytes).collect();
    s.into_bytes()
}

/// All bytes of the sequence are ASCII.
pub open spec fn ascii_bytes(s: Seq<u8>) -> bool {
    forall|i: int| 0 <= i < s.len() ==> s[i] < 128
}

/// The characters an ASCII byte string denotes, one per byte.
pub open spec fn chars_of_bytes(s: Seq<u8>) -> Seq<char> {
    s.map_values(|b: u8| b as char)
}

/// Relies on `String::from_utf8`: ASCII bytes are valid UTF-8, and the
/// resulting string views exactly the input bytes, one character per byte.
#[verifier::external_body]
pub fn ascii_string(v: &[u8]) -> (r: String)
    requires
        ascii_bytes(v@),
    ensures
        bytes_of(r@) == v@,
        r@ == chars_of_bytes(v@),
{
    String::from_utf8(v.to_vec()).expect("ASCII bytes are valid UTF-8")
}

/// The bytes of a string, as an owned vector.
pub fn str_bytes(s: &str) -> (r: Vec<u8>)
    ensures
        r@ == s.spec_bytes(),
{
    vstd::slice::slice_to_vec(s.as_bytes())
}

/// Byte-string equality.
pub fn bytes_eq(a: &[u8], b: &[u8]) -> (r: bool)
    ensures
        r == (a@ == b@),
{
    let an = a.len();
    let bn = b.len();
    if an != bn {
        proof {
            assert(a@ != b@);
        }
        return false;
    }
    let mut i: usize = 0;
    while i < an
        invariant
            0 <= i <= an == a@.len() == b@.len(),
            forall|j: int| 0 <= j < i ==> a@[j] == b@[j],
        decreases an - i,
    {
        if *vstd::slice::slice_index_get(a, i) != *vstd::slice::slice_index_get(b, i) {
            return false;
        }
        i = i + 1;
    }
    proof {
        assert(a@ =~= b@);
    }
    true
}

/// Equality of two strings, decided on their UTF-8 bytes.
pub fn str_bytes_eq(s: &str, t: &str) -> (r: bool)
    ensures
        r == (s.spec_bytes() == t.spec_bytes()),
{
    bytes_eq(s.as_bytes(), t.as_bytes())
}

/// ASCII uppercasing of one byte: lowercase letters move down by 32,
/// everything else stays.
pub open spec fn ascii_upper_byte(b: u8) -> u8 {
    if 0x61 <= b && b <= 0x7a {
        (b - 0x20) as u8
    } else {
        b
    }
}

/// ASCII lowercasing of one byte.
pub open spec fn ascii_lower_byte(b: u8) -> u8 {
    if 0x41 <= b && b <= 0x5a {
        (b + 0x20) as u8
    } else {
        b
    }
}

/// ASCII uppercasing of a byte string.
pub open spec fn ascii_upper(s: Seq<u8>) -> Seq<u8> {
    s.map_values(|b: u8| ascii_upper_byte(b))
}

/// ASCII lowercasing of a byte string.
pub open spec fn ascii_lower(s: Seq<u8>) -> Seq<u8> {
    s.map_values(|b: u8| ascii_lower_byte(b))
}

/// Uppercasing keeps the length.
pub proof fn lemma_upper_len(s: Seq<u8>)
    ensures
        ascii_upper(s).len() == s.len(),
{
}

/// Uppercase a byte string, ASCII-wise.
pub fn to_ascii_upper(s: &[u8]) -> (r: Vec<u8>)
    ensures
        r@ == ascii_upper(s@),
{
    let n = s.len();
    let mut r: Vec<u8> = Vec::new();
    let mut i: usize = 0;
    while i < n
        invariant
            0 <= i <= n == s@.len(),
            r@ =~= ascii_upper(s@).take(i as int),
        decreases n - i,
    {
        let b = *vstd::slice::slice_index_get(s, i);
        if 0x61 <= b && b <= 0x7a {
            r.push(b - 0x20);
        } else {
            r.push(b);
        }
        i = i + 1;
    }
    proof {
        assert(ascii_upper(s@).take(n as int) =~= ascii_upper(s@));
    }
    r
}

/// Lowercase a byte string, ASCII-wise.
pub fn to_ascii_lower(s: &[u8]) -> (r: Vec<u8>)
    ensures
        r@ == ascii_lower(s@),
{
    let n = s.len();
    let mut r: Vec<u8> = Vec::new();
    let mut i: usize = 0;
    while i < n
        invariant
            0 <= i <= n == s@.len(),
            r@ =~= ascii_lower(s@).take(i as int),
        decreases n - i,
    {
        let b = *vstd::slice::slice_index_get(s, i);
        if 0x41 <= b && b <= 0x5a {
            r.push(b + 0x20);
        } else {
            r.push(b);
        }
        i = i + 1;
    }
    proof {
        assert(ascii_lower(s@).take(n as int) =~= ascii_lower(s@));
    }
    r
}

} // verus!
