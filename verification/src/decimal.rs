//! Canonical base-10 text for unsigned 64-bit integers.
//!
//! The canonical form of a value is its decimal digit string with no sign,
//! no separators and no leading zeros (`0` itself is written `"0"`).
//! `decimal_digits` gives that form; `decimal_value` reads an arbitrary
//! digit string back. The lemmas tie the two together.

use vstd::prelude::*;

verus! {

use vstd::string::StringSliceAdditionalSpecFns;

/// `c` is one of the ten decimal digit characters `'0'..='9'`.
pub open spec fn is_digit_char(c: char) -> bool {
    48 <= c as int <= 57
}

/// The numeric value of a digit character (meaningful when `is_digit_char(c)`).
pub open spec fn digit_value(c: char) -> int {
    c as int - 48
}

/// The digit character for a value (meaningful when `0 <= d < 10`).
pub open spec fn digit_char(d: int) -> char {
    if d == 0 {
        '0'
    } else if d == 1 {
        '1'
    } else if d == 2 {
        '2'
    } else if d == 3 {
        '3'
    } else if d == 4 {
        '4'
    } else if d == 5 {
        '5'
    } else if d == 6 {
        '6'
    } else if d == 7 {
        '7'
    } else if d == 8 {
        '8'
    } else {
        '9'
    }
}

/// Every character of `s` is a decimal digit.
pub open spec fn all_digit_chars(s: Seq<char>) -> bool {
    forall|i: int| 0 <= i < s.len() ==> is_digit_char(#[trigger] s[i])
}

/// The integer a digit string denotes, most significant digit first
/// (meaningful when `all_digit_chars(s)`; the empty string denotes `0`).
pub open spec fn decimal_value(s: Seq<char>) -> int
    decreases s.len(),
{
    if s.len() == 0 {
        0
    } else {
        decimal_value(s.drop_last()) * 10 + digit_value(s.last())
    }
}

/// The canonical decimal digit string of `v`: nonempty, digits only,
/// and no leading zero except for `v == 0` itself.
pub open spec fn decimal_digits(v: nat) -> Seq<char>
    decreases v,
{
    if v < 10 {
        seq![digit_char(v as int)]
    } else {
        decimal_digits(v / 10).push(digit_char((v % 10) as int))
    }
}

/// `s` is the canonical decimal form of some value: digits only, nonempty,
/// and no leading zero unless `s` is exactly `"0"`.
pub open spec fn is_canonical_decimal(s: Seq<char>) -> bool {
    &&& s.len() > 0
    &&& all_digit_chars(s)
    &&& (s.len() > 1 ==> s[0] != '0')
}

/// `s` is a digit string that a 64-bit unsigned integer can hold:
/// exactly the strings the strict parser accepts.
pub open spec fn valid_decimal_u64(s: Seq<char>) -> bool {
    &&& s.len() > 0
    &&& all_digit_chars(s)
    &&& decimal_value(s) <= u64::MAX
}

/// Relies on `String::push`: appends the given character at the end of
/// the string and changes nothing else.
#[verifier::external_body]
fn push_char(s: &mut String, c: char)
    ensures
        final(s)@ == old(s)@.push(c),
{
    s.push(c);
}

/// The digit character for a value below ten, as executable code.
fn to_digit_char(d: u64) -> (c: char)
    requires
        d < 10,
    ensures
        c == digit_char(d as int),
{
    if d == 0 {
        '0'
    } else if d == 1 {
        '1'
    } else if d == 2 {
        '2'
    } else if d == 3 {
        '3'
    } else if d == 4 {
        '4'
    } else if d == 5 {
        '5'
    } else if d == 6 {
        '6'
    } else if d == 7 {
        '7'
    } else if d == 8 {
        '8'
    } else {
        '9'
    }
}

/// Appends the canonical decimal digits of `v` to `out`.
fn push_decimal(v: u64, out: &mut String)
    ensures
        final(out)@ == old(out)@ + decimal_digits(v as nat),
    decreases v,
{
    if v >= 10 {
        proof {
            assert(v / 10 < v) by (nonlinear_arith)
                requires
                    v >= 10,
            ;
        }
        push_decimal(v / 10, out);
        let c = to_digit_char(v % 10);
        push_char(out, c);
        proof {
            assert((v as nat) / 10 == (v / 10) as nat);
            assert((v as nat) % 10 == (v % 10) as nat);
            assert(old(out)@ + decimal_digits(v as nat) =~= (old(out)@ + decimal_digits(
                (v / 10) as nat,
            )).push(digit_char((v % 10) as int)));
        }
    } else {
        let c = to_digit_char(v);
        push_char(out, c);
        proof {
            assert(old(out)@ + decimal_digits(v as nat) =~= old(out)@.push(
                digit_char(v as int),
            ));
        }
    }
}

/// The canonical decimal string of `v`: digits only, no sign, no leading
/// zeros (`0` becomes `"0"`).
pub fn u64_to_decimal(v: u64) -> (r: String)
    ensures
        r@ == decimal_digits(v as nat),
{
    let mut r = String::new();
    push_decimal(v, &mut r);
    proof {
        assert(Seq::<char>::empty() + decimal_digits(v as nat) =~= decimal_digits(v as nat));
    }
    r
}

/// Strict decimal parse: `Some` exactly on nonempty all-digit strings whose
/// value fits in a `u64`, and then the value parsed.
pub fn u64_from_decimal(s: &str) -> (r: Option<u64>)
    ensures
        r is Some <==> valid_decimal_u64(s@),
        r is Some ==> r->0 == decimal_value(s@),
{
    broadcast use vstd::string::is_ascii_spec_bytes;
    broadcast use vstd::utf8::is_ascii_chars_nat_bound;

    if s.is_empty() {
        return None;
    }
    if !s.is_ascii() {
        proof {
            let i = choose|i: int| 0 <= i < s@.len() && !('\0' <= #[trigger] s@[i] <= '\u{7f}');
            assert(!is_digit_char(s@[i]));
        }
        return None;
    }
    let b = s.as_bytes();
    let n = b.len();
    proof {
        assert(b@.len() == s@.len());
    }
    let mut val: u64 = 0;
    let mut i: usize = 0;
    while i < n
        invariant
            0 < n == s@.len() == b@.len(),
            0 <= i <= n,
            vstd::string::is_ascii(s),
            b@ == s.spec_bytes(),
            forall|j: int| 0 <= j < b@.len() ==> #[trigger] b@[j] == s@[j] as u8,
            forall|j: int| 0 <= j < i ==> is_digit_char(#[trigger] s@[j]),
            val == decimal_value(s@.subrange(0, i as int)),
        decreases n - i,
    {
        let byte = b[i];
        proof {
            assert((s@[i as int] as nat) < 128);
            assert(byte as int == s@[i as int] as int);
        }
        if byte < 48 || byte > 57 {
            proof {
                assert(!is_digit_char(s@[i as int]));
            }
            return None;
        }
        let d = (byte - 48) as u64;
        proof {
            assert(is_digit_char(s@[i as int]));
            assert(d as int == digit_value(s@[i as int]));
            assert(s@.subrange(0, i + 1 as int).drop_last() =~= s@.subrange(0, i as int));
            assert(s@.subrange(0, i + 1 as int).last() == s@[i as int]);
        }
        if val > 1844674407370955161 || (val == 1844674407370955161 && d > 5) {
            proof {
                assert(decimal_value(s@.subrange(0, i + 1 as int)) > u64::MAX);
                if all_digit_chars(s@) {
                    lemma_decimal_value_prefix(s@, i + 1 as int);
                }
            }
            return None;
        }
        val = val * 10 + d;
        i = i + 1;
    }
    proof {
        assert(s@.subrange(0, n as int) =~= s@);
    }
    Some(val)
}

/// Reading back the digit character of a value gives the value back.
proof fn lemma_digit_char_value(d: int)
    requires
        0 <= d < 10,
    ensures
        is_digit_char(digit_char(d)),
        digit_value(digit_char(d)) == d,
{
}

/// A pure digit string denotes a nonnegative integer.
pub proof fn lemma_decimal_value_nonneg(s: Seq<char>)
    requires
        all_digit_chars(s),
    ensures
        decimal_value(s) >= 0,
    decreases s.len(),
{
    if s.len() > 0 {
        assert(all_digit_chars(s.drop_last()));
        lemma_decimal_value_nonneg(s.drop_last());
    }
}

/// Extending a digit string can only grow the value it denotes.
proof fn lemma_decimal_value_prefix(s: Seq<char>, i: int)
    requires
        all_digit_chars(s),
        0 <= i <= s.len(),
    ensures
        decimal_value(s.subrange(0, i)) <= decimal_value(s),
    decreases s.len() - i,
{
    if i == s.len() {
        assert(s.subrange(0, i) =~= s);
    } else {
        let t = s.subrange(0, i + 1);
        assert(all_digit_chars(t));
        assert(t.drop_last() =~= s.subrange(0, i));
        lemma_decimal_value_nonneg(s.subrange(0, i));
        lemma_decimal_value_prefix(s, i + 1);
    }
}

/// The canonical digit string of `v` is canonical and denotes `v`.
pub proof fn lemma_decimal_digits(v: nat)
    ensures
        is_canonical_decimal(decimal_digits(v)),
        decimal_value(decimal_digits(v)) == v,
        v == 0 ==> decimal_digits(v) =~= seq!['0'],
        v > 0 ==> decimal_digits(v)[0] != '0',
    decreases v,
{
    if v < 10 {
        lemma_digit_char_value(v as int);
        let s = decimal_digits(v);
        assert(s.len() == 1);
        assert(s.last() == digit_char(v as int));
        assert(s.drop_last() =~= Seq::<char>::empty());
        assert(decimal_value(s.drop_last()) == 0);
        assert(decimal_value(s) == digit_value(digit_char(v as int)));
    } else {
        lemma_decimal_digits(v / 10);
        lemma_digit_char_value((v % 10) as int);
        let p = decimal_digits(v / 10);
        let s = decimal_digits(v);
        assert(s.drop_last() =~= p);
        assert(decimal_value(s) == decimal_value(p) * 10 + (v % 10));
        assert(v / 10 * 10 + v % 10 == v) by (nonlinear_arith);
        assert(s[0] == p[0]);
        assert(v / 10 > 0);
    }
}

} // verus!
