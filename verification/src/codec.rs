//! Byte-level building blocks for the wire formats: JSON string escaping,
//! decimal rendering and parsing of job ids, and the
//! `application/x-www-form-urlencoded` byte serialisation used in download
//! URLs.
//!
//! Everything is specified over byte sequences, so that two encodings are
//! equal exactly when the transmitted bytes are equal.
use vstd::prelude::*;
use vstd::string::StrSliceExecFns;
use vstd::string::StringSliceAdditionalSpecFns;
use vstd::utf8::{encode_utf8, is_ascii_chars, is_ascii_chars_encode_utf8};

verus! {

/// Lowercase hex digit for a value below 16.
pub open spec fn hex_digit(n: u8) -> u8
    recommends
        n < 16,
{
    if n < 10 {
        (0x30 + n) as u8
    } else {
        (0x57 + n) as u8
    }
}

/// Uppercase hex digit for a value below 16.
pub open spec fn hex_digit_upper(n: u8) -> u8
    recommends
        n < 16,
{
    if n < 10 {
        (0x30 + n) as u8
    } else {
        (0x37 + n) as u8
    }
}

/// How one byte of a string appears inside a JSON string literal: the two
/// quote and backslash characters and the control bytes are escaped, the
/// common control characters by their short forms, the rest of the control
/// range as `\u00` plus two lowercase hex digits; every other byte is passed
/// through, so multi-byte UTF-8 sequences survive unchanged.
pub open spec fn json_escaped_byte(b: u8) -> Seq<u8> {
    if b == 0x22 {
        seq![0x5c_u8, 0x22_u8]
    } else if b == 0x5c {
        seq![0x5c_u8, 0x5c_u8]
    } else if b == 0x08 {
        seq![0x5c_u8, 0x62_u8]
    } else if b == 0x09 {
        seq![0x5c_u8, 0x74_u8]
    } else if b == 0x0a {
        seq![0x5c_u8, 0x6e_u8]
    } else if b == 0x0c {
        seq![0x5c_u8, 0x66_u8]
    } else if b == 0x0d {
        seq![0x5c_u8, 0x72_u8]
    } else if b < 0x20 {
        seq![0x5c_u8, 0x75_u8, 0x30_u8, 0x30_u8, hex_digit(b / 16), hex_digit(b % 16)]
    } else {
        seq![b]
    }
}

/// A byte sequence escaped for use inside a JSON string literal.
pub open spec fn json_escaped(s: Seq<u8>) -> Seq<u8>
    decreases s.len(),
{
    if s.len() == 0 {
        Seq::empty()
    } else {
        json_escaped(s.drop_last()) + json_escaped_byte(s.last())
    }
}

/// A JSON string literal: a quote, the escaped bytes, a quote.
pub open spec fn json_string(s: Seq<u8>) -> Seq<u8> {
    seq![0x22_u8] + json_escaped(s) + seq![0x22_u8]
}

/// The decimal digits of `n`, most significant first, with no sign and no
/// leading zero.
pub open spec fn dec_digits(n: nat) -> Seq<u8>
    decreases n,
{
    if n < 10 {
        seq![(0x30 + n) as u8]
    } else {
        dec_digits(n / 10).push((0x30 + n % 10) as u8)
    }
}

/// Append the JSON-escaped form of `bytes` to `out`.
pub fn push_json_escaped_bytes(out: &mut Vec<u8>, bytes: &[u8])
    ensures
        final(out)@ == old(out)@ + json_escaped(bytes@),
{
    let n: usize = bytes.len();
    let mut i: usize = 0;
    proof {
        assert(out@ =~= old(out)@ + json_escaped(bytes@.subrange(0, 0)));
    }
    while i < n
        invariant
            i <= n,
            n == bytes@.len(),
            out@ == old(out)@ + json_escaped(bytes@.subrange(0, i as int)),
        decreases n - i,
    {
        let b = bytes[i];
        if b == 0x22 {
            out.push(0x5c);
            out.push(0x22);
        } else if b == 0x5c {
            out.push(0x5c);
            out.push(0x5c);
        } else if b == 0x08 {
            out.push(0x5c);
            out.push(0x62);
        } else if b == 0x09 {
            out.push(0x5c);
            out.push(0x74);
        } else if b == 0x0a {
            out.push(0x5c);
            out.push(0x6e);
        } else if b == 0x0c {
            out.push(0x5c);
            out.push(0x66);
        } else if b == 0x0d {
            out.push(0x5c);
            out.push(0x72);
        } else if b < 0x20 {
            out.push(0x5c);
            out.push(0x75);
            out.push(0x30);
            out.push(0x30);
            out.push(if b / 16 < 10 {
                0x30 + b / 16
            } else {
                0x57 + b / 16
            });
            out.push(if b % 16 < 10 {
                0x30 + b % 16
            } else {
                0x57 + b % 16
            });
        } else {
            out.push(b);
        }
        proof {
            let ext = bytes@.subrange(0, i + 1);
            assert(ext.drop_last() =~= bytes@.subrange(0, i as int));
            assert(ext.last() == b);
            assert(out@ =~= old(out)@ + json_escaped(ext));
        }
        i = i + 1;
    }
    proof {
        assert(bytes@.subrange(0, n as int) =~= bytes@);
    }
}

/// Append a whole JSON string literal holding the UTF-8 bytes of `s`.
pub fn push_json_string(out: &mut Vec<u8>, s: &str)
    ensures
        final(out)@ == old(out)@ + json_string(s.spec_bytes()),
{
    out.push(0x22);
    push_json_escaped_bytes(out, s.as_bytes());
    out.push(0x22);
    proof {
        assert(out@ =~= old(out)@ + json_string(s.spec_bytes()));
    }
}

/// Append the decimal digits of `n`.
pub fn push_dec_u32(out: &mut Vec<u8>, n: u32)
    ensures
        final(out)@ == old(out)@ + dec_digits(n as nat),
    decreases n,
{
    if n >= 10 {
        push_dec_u32(out, n / 10);
    }
    out.push(0x30 + (n % 10) as u8);
    proof {
        assert(out@ =~= old(out)@ + dec_digits(n as nat));
    }
}

/// The decimal form of a signed value: a minus sign before the digits of the
/// magnitude when it is negative.
pub open spec fn dec_digits_i32(n: int) -> Seq<u8> {
    if n < 0 {
        seq![0x2d_u8] + dec_digits((-n) as nat)
    } else {
        dec_digits(n as nat)
    }
}

/// Append the decimal digits of a signed value.
pub fn push_dec_i32(out: &mut Vec<u8>, n: i32)
    ensures
        final(out)@ == old(out)@ + dec_digits_i32(n as int),
{
    if n < 0 {
        out.push(0x2d);
        let magnitude: u32 = (-(n as i64)) as u32;
        assert(magnitude as nat == (-(n as int)) as nat);
        push_dec_u32(out, magnitude);
        proof {
            assert(out@ =~= old(out)@ + dec_digits_i32(n as int));
        }
    } else {
        push_dec_u32(out, n as u32);
    }
}

/// The numeric value of a sequence of decimal digit bytes.
pub open spec fn dec_value(s: Seq<u8>) -> nat
    decreases s.len(),
{
    if s.len() == 0 {
        0
    } else {
        dec_value(s.drop_last()) * 10 + (s.last() - 0x30) as nat
    }
}

/// Whether every byte of `s` is a decimal digit.
pub open spec fn all_dec_digits(s: Seq<u8>) -> bool {
    forall|i: int| 0 <= i < s.len() ==> 0x30 <= #[trigger] s[i] <= 0x39
}

/// The canonical decimal form: non-empty, digits only, and no leading zero.
/// These are exactly the strings `dec_digits` produces.
pub open spec fn is_canonical_dec(s: Seq<u8>) -> bool {
    &&& s.len() > 0
    &&& all_dec_digits(s)
    &&& (s[0] != 0x30 || s.len() == 1)
}

/// What parsing a job id must return: the value of a canonical decimal string
/// that fits in 32 bits, and nothing else.
pub open spec fn parse_dec_u32(s: Seq<u8>) -> Option<u32> {
    if is_canonical_dec(s) && dec_value(s) <= u32::MAX {
        Some(dec_value(s) as u32)
    } else {
        None
    }
}

/// `dec_digits` renders only digits, without a leading zero.
pub proof fn lemma_dec_digits_canonical(n: nat)
    ensures
        is_canonical_dec(dec_digits(n)),
        dec_value(dec_digits(n)) == n,
    decreases n,
{
    if n < 10 {
        let s = dec_digits(n);
        assert(s =~= seq![(0x30 + n) as u8]);
        assert(s[0] == (0x30 + n) as u8);
        assert(forall|i: int| 0 <= i < s.len() ==> 0x30 <= #[trigger] s[i] <= 0x39);
        assert(s.drop_last() =~= Seq::<u8>::empty());
        assert(dec_value(Seq::<u8>::empty()) == 0);
        assert(s.last() == (0x30 + n) as u8);
        assert(dec_value(s) == (s.last() - 0x30) as nat);
    } else {
        lemma_dec_digits_canonical(n / 10);
        let p = dec_digits(n / 10);
        let s = dec_digits(n);
        assert(s =~= p.push((0x30 + n % 10) as u8));
        assert(s.drop_last() =~= p);
        assert(s.last() == (0x30 + n % 10) as u8);
        assert(dec_value(s) == (n / 10) * 10 + n % 10);
        assert((n / 10) * 10 + n % 10 == n) by (nonlinear_arith);
        assert(forall|i: int| 0 <= i < s.len() ==> 0x30 <= #[trigger] s[i] <= 0x39) by {
            assert(forall|i: int| 0 <= i < s.len() - 1 ==> s[i] == #[trigger] p[i]);
        }
        assert(s[0] == p[0]);
        if p.len() == 1 {
            assert(p.drop_last() =~= Seq::<u8>::empty());
            assert(dec_value(Seq::<u8>::empty()) == 0);
            assert(dec_value(p) == (p.last() - 0x30) as nat);
            assert(p[0] == p.last());
            assert(n / 10 >= 1);
            assert(p[0] != 0x30);
        }
        assert(s[0] != 0x30);
    }
}

/// Two canonical decimal strings with the same value are the same string, so
/// rendering and parsing are inverse to each other.
pub proof fn lemma_canonical_dec_unique(a: Seq<u8>, b: Seq<u8>)
    requires
        is_canonical_dec(a),
        is_canonical_dec(b),
        dec_value(a) == dec_value(b),
    ensures
        a == b,
    decreases a.len() + b.len(),
{
    lemma_dec_value_bounds(a);
    lemma_dec_value_bounds(b);
    if a.len() == 1 && b.len() == 1 {
        assert(a =~= b);
    } else if a.len() > 1 && b.len() > 1 {
        assert(dec_value(a) == dec_value(a.drop_last()) * 10 + (a.last() - 0x30) as nat);
        assert(dec_value(b) == dec_value(b.drop_last()) * 10 + (b.last() - 0x30) as nat);
        lemma_dec_step_unique(
            dec_value(a.drop_last()),
            (a.last() - 0x30) as nat,
            dec_value(b.drop_last()),
            (b.last() - 0x30) as nat,
        );
        assert(is_canonical_dec(a.drop_last())) by {
            assert(forall|i: int|
                0 <= i < a.len() - 1 ==> a.drop_last()[i] == #[trigger] a[i]);
        }
        assert(is_canonical_dec(b.drop_last())) by {
            assert(forall|i: int|
                0 <= i < b.len() - 1 ==> b.drop_last()[i] == #[trigger] b[i]);
        }
        lemma_canonical_dec_unique(a.drop_last(), b.drop_last());
        assert(a.last() == b.last());
        assert(a =~= a.drop_last().push(a.last()));
        assert(b =~= b.drop_last().push(b.last()));
        assert(a =~= b);
    } else {
        // One has a single digit and the other more: the longer one's value
        // is at least 10 while the shorter one's is below 10.
        assert(false);
    }
}

/// A positive value scaled by the base is at least the base.
proof fn lemma_mul_at_least_ten(v: nat)
    by (nonlinear_arith)
    requires
        v >= 1,
    ensures
        v * 10 >= 10,
{
}

/// Rendering an id and parsing it back returns the id: the decimal form is
/// canonical and parsing accepts exactly the canonical forms.
pub proof fn lemma_id_round_trip(n: u32)
    ensures
        parse_dec_u32(dec_digits(n as nat)) == Some(n),
{
    lemma_dec_digits_canonical(n as nat);
}

/// A value and final digit determine each other under base-10 composition.
proof fn lemma_dec_step_unique(a1: nat, d1: nat, a2: nat, d2: nat)
    by (nonlinear_arith)
    requires
        a1 * 10 + d1 == a2 * 10 + d2,
        d1 < 10,
        d2 < 10,
    ensures
        a1 == a2,
        d1 == d2,
{
}

/// A canonical decimal string of more than one digit has value at least 10,
/// and a single digit has value below 10.
proof fn lemma_dec_value_bounds(s: Seq<u8>)
    requires
        is_canonical_dec(s),
    ensures
        s.len() == 1 ==> dec_value(s) < 10,
        s.len() > 1 ==> dec_value(s) >= 10,
    decreases s.len(),
{
    if s.len() == 1 {
        assert(dec_value(s.drop_last()) == 0);
    } else {
        let p = s.drop_last();
        assert(is_canonical_dec(p)) by {
            assert(forall|i: int| 0 <= i < p.len() ==> p[i] == #[trigger] s[i]);
        }
        lemma_dec_value_bounds(p);
        assert(dec_value(p) >= 1) by {
            if p.len() == 1 {
                assert(p[0] != 0x30);
                assert(dec_value(p) == (p.last() - 0x30) as nat);
            }
        }
        assert(dec_value(s) == dec_value(p) * 10 + (s.last() - 0x30) as nat);
        lemma_mul_at_least_ten(dec_value(p));
    }
}

/// Parse a canonical decimal job id. Returns the value exactly when the
/// bytes are the canonical decimal form of a 32-bit value; every other string
/// (empty, signs, leading zeros, non-digits, overflow) is rejected.
pub fn parse_u32_dec(bytes: &[u8]) -> (r: Option<u32>)
    ensures
        r == parse_dec_u32(bytes@),
{
    let n: usize = bytes.len();
    if n == 0 {
        return None;
    }
    if bytes[0] == 0x30 && n > 1 {
        return None;
    }
    let mut acc: u32 = 0;
    let mut i: usize = 0;
    proof {
        assert(bytes@.subrange(0, 0) =~= Seq::<u8>::empty());
    }
    while i < n
        invariant
            0 < n == bytes@.len(),
            i <= n,
            all_dec_digits(bytes@.subrange(0, i as int)),
            acc as nat == dec_value(bytes@.subrange(0, i as int)),
            bytes@[0] == 0x30 ==> n == 1,
        decreases n - i,
    {
        let b = bytes[i];
        if b < 0x30 || b > 0x39 {
            proof {
                lemma_not_all_digits(bytes@, i as int);
            }
            return None;
        }
        let d: u32 = (b - 0x30) as u32;
        if acc > (u32::MAX - d) / 10 {
            proof {
                assert(bytes@.subrange(0, i + 1) =~= bytes@.subrange(0, i as int).push(b));
                lemma_dec_value_overflow(bytes@, i as int, acc as nat, d as nat);
            }
            return None;
        }
        acc = acc * 10 + d;
        proof {
            assert(bytes@.subrange(0, i + 1) =~= bytes@.subrange(0, i as int).push(b));
            assert(bytes@.subrange(0, i + 1).drop_last() =~= bytes@.subrange(0, i as int));
        }
        i = i + 1;
    }
    proof {
        assert(bytes@.subrange(0, n as int) =~= bytes@);
    }
    Some(acc)
}

/// If one byte is not a digit, the whole string is not canonical decimal.
proof fn lemma_not_all_digits(s: Seq<u8>, i: int)
    requires
        0 <= i < s.len(),
        !(0x30 <= s[i] <= 0x39),
    ensures
        parse_dec_u32(s) is None,
{
}

/// Once a digit prefix exceeds what can be extended within `u32::MAX`, the
/// value of the whole digit string exceeds `u32::MAX`.
proof fn lemma_dec_value_overflow(s: Seq<u8>, i: int, acc: nat, d: nat)
    requires
        0 <= i < s.len(),
        acc == dec_value(s.subrange(0, i)),
        d == (s[i] - 0x30) as nat,
        0x30 <= s[i] <= 0x39,
        acc * 10 + d > u32::MAX,
    ensures
        all_dec_digits(s) ==> dec_value(s) > u32::MAX,
    decreases s.len() - i,
{
    if all_dec_digits(s) {
        lemma_dec_value_prefix_monotonic(s, i + 1);
        assert(s.subrange(0, i + 1).drop_last() =~= s.subrange(0, i));
        assert(dec_value(s.subrange(0, i + 1)) == acc * 10 + d);
    }
}

/// The value of a digit string is at least the value of any of its prefixes.
proof fn lemma_dec_value_prefix_monotonic(s: Seq<u8>, i: int)
    requires
        0 <= i <= s.len(),
        all_dec_digits(s),
    ensures
        dec_value(s) >= dec_value(s.subrange(0, i)),
    decreases s.len() - i,
{
    if i < s.len() {
        lemma_dec_value_prefix_monotonic(s, i + 1);
        assert(s.subrange(0, i + 1).drop_last() =~= s.subrange(0, i));
        assert(dec_value(s.subrange(0, i + 1)) == dec_value(s.subrange(0, i)) * 10 + (s[i]
            - 0x30) as nat);
        assert(dec_value(s.subrange(0, i)) * 10 >= dec_value(s.subrange(0, i))) by (nonlinear_arith);
    } else {
        assert(s.subrange(0, s.len() as int) =~= s);
    }
}

/// Whether a byte passes through the `application/x-www-form-urlencoded`
/// serialiser unchanged: ASCII alphanumerics and `* - . _`.
pub open spec fn form_unchanged(b: u8) -> bool {
    ||| b == 0x2a
    ||| b == 0x2d
    ||| b == 0x2e
    ||| 0x30 <= b <= 0x39
    ||| 0x41 <= b <= 0x5a
    ||| b == 0x5f
    ||| 0x61 <= b <= 0x7a
}

/// One byte under the `application/x-www-form-urlencoded` byte serialiser:
/// unchanged bytes pass, a space becomes `+`, everything else becomes `%`
/// plus two uppercase hex digits.
pub open spec fn form_encoded_byte(b: u8) -> Seq<u8> {
    if form_unchanged(b) {
        seq![b]
    } else if b == 0x20 {
        seq![0x2b_u8]
    } else {
        seq![0x25_u8, hex_digit_upper(b / 16), hex_digit_upper(b % 16)]
    }
}

/// A byte sequence under the `application/x-www-form-urlencoded` serialiser.
pub open spec fn form_encoded(s: Seq<u8>) -> Seq<u8>
    decreases s.len(),
{
    if s.len() == 0 {
        Seq::empty()
    } else {
        form_encoded(s.drop_last()) + form_encoded_byte(s.last())
    }
}

/// Append the form-urlencoded serialisation of `bytes` to `out`.
pub fn push_form_encoded(out: &mut Vec<u8>, bytes: &[u8])
    ensures
        final(out)@ == old(out)@ + form_encoded(bytes@),
{
    let n: usize = bytes.len();
    let mut i: usize = 0;
    proof {
        assert(out@ =~= old(out)@ + form_encoded(bytes@.subrange(0, 0)));
    }
    while i < n
        invariant
            i <= n,
            n == bytes@.len(),
            out@ == old(out)@ + form_encoded(bytes@.subrange(0, i as int)),
        decreases n - i,
    {
        let b = bytes[i];
        let unchanged = b == 0x2a || b == 0x2d || b == 0x2e || (0x30 <= b && b <= 0x39) || (0x41
            <= b && b <= 0x5a) || b == 0x5f || (0x61 <= b && b <= 0x7a);
        if unchanged {
            out.push(b);
        } else if b == 0x20 {
            out.push(0x2b);
        } else {
            out.push(0x25);
            out.push(if b / 16 < 10 {
                0x30 + b / 16
            } else {
                0x37 + b / 16
            });
            out.push(if b % 16 < 10 {
                0x30 + b % 16
            } else {
                0x37 + b % 16
            });
        }
        proof {
            let ext = bytes@.subrange(0, i + 1);
            assert(ext.drop_last() =~= bytes@.subrange(0, i as int));
            assert(ext.last() == b);
            assert(out@ =~= old(out)@ + form_encoded(ext));
        }
        i = i + 1;
    }
    proof {
        assert(bytes@.subrange(0, n as int) =~= bytes@);
    }
}

/// Append the ASCII bytes of a string literal of the wire format. The caller
/// states the literal's bytes; this keeps the encoders free of magic offsets.
pub fn push_str_bytes(out: &mut Vec<u8>, s: &str)
    ensures
        final(out)@ == old(out)@ + s.spec_bytes(),
{
    let mut bytes = s.as_bytes_vec();
    out.append(&mut bytes);
}

/// The inside of a JSON array of strings: the string literals joined by
/// commas.
pub open spec fn json_str_array_inner(items: Seq<Seq<char>>) -> Seq<u8>
    decreases items.len(),
{
    if items.len() == 0 {
        Seq::empty()
    } else if items.len() == 1 {
        json_string(encode_utf8(items[0]))
    } else {
        json_str_array_inner(items.drop_last()) + ",".spec_bytes() + json_string(
            encode_utf8(items.last()),
        )
    }
}

/// A JSON array of string literals.
pub open spec fn json_str_array(items: Seq<Seq<char>>) -> Seq<u8> {
    "[".spec_bytes() + json_str_array_inner(items) + "]".spec_bytes()
}

/// Append a JSON array holding each string of `items`.
pub fn push_json_str_array(out: &mut Vec<u8>, items: &Vec<String>)
    ensures
        final(out)@ == old(out)@ + json_str_array(items@.map(|i: int, s: String| s@)),
{
    let ghost views = items@.map(|i: int, s: String| s@);
    push_str_bytes(out, "[");
    let n = items.len();
    let mut i: usize = 0;
    proof {
        assert(out@ =~= old(out)@ + "[".spec_bytes() + json_str_array_inner(
            views.subrange(0, 0),
        ));
    }
    while i < n
        invariant
            i <= n,
            n == items@.len(),
            views == items@.map(|i: int, s: String| s@),
            out@ == old(out)@ + "[".spec_bytes() + json_str_array_inner(views.subrange(0, i as int)),
        decreases n - i,
    {
        if i > 0 {
            push_str_bytes(out, ",");
        }
        push_json_string(out, items[i].as_str());
        proof {
            let ext = views.subrange(0, i + 1);
            assert(ext.drop_last() =~= views.subrange(0, i as int));
            assert(ext.last() == items@[i as int]@);
            assert(out@ =~= old(out)@ + "[".spec_bytes() + json_str_array_inner(ext));
        }
        i = i + 1;
    }
    push_str_bytes(out, "]");
    proof {
        assert(views.subrange(0, n as int) =~= views);
        assert(out@ =~= old(out)@ + json_str_array(views));
    }
}

/// Whether two strings hold the same characters.
pub fn str_eq(a: &str, b: &str) -> (r: bool)
    ensures
        r == (a@ == b@),
{
    let owned_a = a.to_owned();
    let owned_b = b.to_owned();
    owned_a == owned_b
}

/// Relies on `String::from_utf8`: bytes below 0x80 are valid UTF-8 and decode
/// to one character per byte.
#[verifier::external_body]
pub(crate) fn ascii_to_string(bytes: Vec<u8>) -> (r: String)
    requires
        forall|i: int| 0 <= i < bytes@.len() ==> bytes@[i] < 0x80,
    ensures
        r@ == bytes@.map(|i: int, b: u8| b as char),
{
    String::from_utf8(bytes).unwrap_or_default()
}

/// The decimal string of a job id: the characters are the decimal digits, and
/// the UTF-8 bytes are exactly `dec_digits(n)`.
pub fn id_string(n: u32) -> (r: String)
    ensures
        r@ == dec_digits(n as nat).map(|i: int, b: u8| b as char),
        encode_utf8(r@) == dec_digits(n as nat),
{
    let mut digits: Vec<u8> = Vec::new();
    push_dec_u32(&mut digits, n);
    proof {
        lemma_dec_digits_canonical(n as nat);
        assert(digits@ =~= dec_digits(n as nat));
        assert(forall|i: int| 0 <= i < digits@.len() ==> digits@[i] < 0x80);
    }
    let r = ascii_to_string(digits);
    proof {
        let chars = dec_digits(n as nat).map(|i: int, b: u8| b as char);
        assert(is_ascii_chars(chars));
        is_ascii_chars_encode_utf8(chars);
        assert(encode_utf8(r@) =~= dec_digits(n as nat));
    }
    r
}

} // verus!
