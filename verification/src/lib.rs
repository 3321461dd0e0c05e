use vstd::prelude::*;

pub mod decimal;

verus! {

use crate::decimal::{decimal_digits, decimal_value, valid_decimal_u64};
use vstd::string::StringExecFns;
use vstd::std_specs::cmp::PartialOrdSpec;

/// Failure of the strict string-to-identifier parse: the text was not a
/// decimal unsigned 64-bit integer. Carries no further detail, since that
/// is the only possible cause.
#[derive(Clone, Copy, Debug, PartialEq, Eq, Structural)]
pub struct ParseError;

/// A 64-bit numeric identifier with value semantics.
///
/// The wrapped integer is the whole state: equality, ordering and hashing
/// all go by it. The value `0` is reserved as a sentinel meaning
/// "absent / no identifier".
#[derive(Clone, Copy, Debug, PartialEq, Eq, Structural, Hash, Ord)]
pub struct Snowflake(pub u64);

impl PartialOrd for Snowflake {
    /// Total order on identifiers: plain unsigned integer order of the
    /// wrapped values, with no further structure.
    fn partial_cmp(&self, other: &Self) -> (r: Option<core::cmp::Ordering>) {
        if self.0 < other.0 {
            Option::Some(core::cmp::Ordering::Less)
        } else if self.0 == other.0 {
            Option::Some(core::cmp::Ordering::Equal)
        } else {
            Option::Some(core::cmp::Ordering::Greater)
        }
    }
}

impl vstd::std_specs::cmp::PartialOrdSpecImpl for Snowflake {
    open spec fn obeys_partial_cmp_spec() -> bool {
        true
    }

    open spec fn partial_cmp_spec(&self, other: &Self) -> Option<core::cmp::Ordering> {
        if self.0 < other.0 {
            Option::Some(core::cmp::Ordering::Less)
        } else if self.0 == other.0 {
            Option::Some(core::cmp::Ordering::Equal)
        } else {
            Option::Some(core::cmp::Ordering::Greater)
        }
    }
}

impl From<u64> for Snowflake {
    /// Wraps a raw integer unchanged.
    fn from(value: u64) -> (r: Self) {
        Snowflake(value)
    }
}

impl vstd::std_specs::convert::FromSpecImpl<u64> for Snowflake {
    open spec fn obeys_from_spec() -> bool {
        true
    }

    open spec fn from_spec(v: u64) -> Self {
        Snowflake(v)
    }
}

impl From<Snowflake> for u64 {
    /// Unwraps the identifier to its raw integer, losslessly.
    fn from(value: Snowflake) -> (r: u64) {
        value.0
    }
}

impl vstd::std_specs::convert::FromSpecImpl<Snowflake> for u64 {
    open spec fn obeys_from_spec() -> bool {
        true
    }

    open spec fn from_spec(v: Snowflake) -> u64 {
        v.0
    }
}

impl Snowflake {
    /// Wraps a raw 64-bit integer unchanged.
    pub fn from_u64(value: u64) -> (r: Snowflake)
        ensures
            r.0 == value,
    {
        Snowflake(value)
    }

    /// Returns the wrapped integer unchanged.
    pub fn to_u64(self) -> (r: u64)
        ensures
            r == self.0,
    {
        self.0
    }

    /// The canonical decimal text of the identifier: base-10 digits only,
    /// no sign, no separators, no leading zeros (`0` becomes `"0"`).
    /// This single form serves both display and serialization.
    pub fn to_string(&self) -> (r: String)
        ensures
            r@ == decimal_digits(self.0 as nat),
    {
        crate::decimal::u64_to_decimal(self.0)
    }

    /// Strict parse of a decimal unsigned 64-bit integer. Succeeds exactly
    /// on nonempty all-digit strings whose value fits in 64 bits; empty
    /// text, signs, other characters and overflow are all rejected.
    pub fn parse(text: &str) -> (r: Result<Snowflake, ParseError>)
        ensures
            r is Ok <==> valid_decimal_u64(text@),
            r is Ok ==> r->Ok_0.0 == decimal_value(text@),
            r is Err ==> r == Err::<Snowflake, ParseError>(ParseError),
    {
        match crate::decimal::u64_from_decimal(text) {
            Some(v) => Ok(Snowflake(v)),
            None => Err(ParseError),
        }
    }

    /// The sentinel-zero convention: `0` means "absent / no identifier",
    /// so it maps to `None`; any other value is returned unchanged in
    /// `Some`.
    pub fn into_option(self) -> (r: Option<Snowflake>)
        ensures
            self.0 == 0 ==> r is None,
            self.0 != 0 ==> r == Some(self),
    {
        if self.0 == 0 {
            Option::None
        } else {
            Option::Some(self)
        }
    }
}

impl Default for Snowflake {
    /// The default identifier is the absent sentinel `0`.
    fn default() -> (r: Self)
        ensures
            r.0 == 0,
    {
        Snowflake(0)
    }
}

impl core::str::FromStr for Snowflake {
    type Err = ParseError;

    /// Same contract as [`Snowflake::parse`], for `text.parse()` callers.
    fn from_str(s: &str) -> (r: Result<Self, ParseError>)
        ensures
            r is Ok <==> valid_decimal_u64(s@),
            r is Ok ==> r->Ok_0.0 == decimal_value(s@),
    {
        Snowflake::parse(s)
    }
}

/// Failure of the decode path of the wire format: the input token was
/// neither a native unsigned 64-bit integer nor a string holding one.
#[derive(Clone, Copy, Debug, PartialEq, Eq, Structural)]
pub struct DecodeError;

impl DecodeError {
    /// A human-readable description of the two token shapes the decoder
    /// accepts, for the embedding format's diagnostics.
    pub fn message(&self) -> (r: String)
        ensures
            r@ == "a snowflake (either as a string containing a u64, or a u64)"@,
    {
        String::from_str("a snowflake (either as a string containing a u64, or a u64)")
    }
}

/// One token of a structured interchange document, reduced to what
/// identifier decoding distinguishes: a native unsigned integer token, a
/// string token, or any other shape (signed or fractional number, boolean,
/// null, array, object, ...).
pub enum Token {
    Unsigned(u64),
    Text(String),
    Other,
}

/// The identifier a wire token denotes, if any: a native unsigned integer
/// is taken as the value itself; a string must hold a decimal unsigned
/// 64-bit integer; every other shape denotes nothing.
pub open spec fn decoded_token(t: Token) -> Option<Snowflake> {
    match t {
        Token::Unsigned(v) => Option::Some(Snowflake(v)),
        Token::Text(s) => if valid_decimal_u64(s@) {
            Option::Some(Snowflake(decimal_value(s@) as u64))
        } else {
            Option::None
        },
        Token::Other => Option::None,
    }
}

/// Decodes one wire token into an identifier: succeeds exactly when the
/// token denotes one, and then returns it; every other token shape is a
/// [`DecodeError`].
pub fn decode_token(t: &Token) -> (r: Result<Snowflake, DecodeError>)
    ensures
        decoded_token(*t) is Some ==> r == Ok::<Snowflake, DecodeError>(decoded_token(*t)->0),
        decoded_token(*t) is None ==> r == Err::<Snowflake, DecodeError>(DecodeError),
{
    match t {
        Token::Unsigned(v) => Ok(Snowflake(*v)),
        Token::Text(s) => match Snowflake::parse(s.as_str()) {
            Ok(id) => {
                proof {
                    crate::decimal::lemma_decimal_value_nonneg(s@);
                }
                Ok(id)
            },
            Err(_) => Err(DecodeError),
        },
        Token::Other => Err(DecodeError),
    }
}

/// Law (round trip): the canonical encoding of any identifier: every
/// string [`Snowflake::to_string`] can return, is accepted by
/// [`Snowflake::parse`] and denotes that same identifier, for the whole
/// 64-bit range.
pub proof fn lemma_encode_decode_round_trip(id: Snowflake, text: String)
    requires
        text@ == decimal_digits(id.0 as nat),
    ensures
        valid_decimal_u64(text@),
        decimal_value(text@) == id.0,
{
    crate::decimal::lemma_decimal_digits(id.0 as nat);
}

/// Law (canonical output): every string [`Snowflake::to_string`] can
/// return is in canonical decimal form: nonempty, digits only (so no
/// sign and no separators), no leading zeros, and the identifier `0`
/// encodes exactly as `"0"`.
pub proof fn lemma_canonical_encoding(id: Snowflake, text: String)
    requires
        text@ == decimal_digits(id.0 as nat),
    ensures
        crate::decimal::is_canonical_decimal(text@),
        id.0 == 0 ==> text@ =~= seq!['0'],
{
    crate::decimal::lemma_decimal_digits(id.0 as nat);
}

/// Law (dual input): a native unsigned integer token and a string token
/// that parses to the same value decode to equal identifiers.
pub proof fn lemma_dual_input_equivalence(v: u64, text: String)
    requires
        valid_decimal_u64(text@),
        decimal_value(text@) == v,
    ensures
        decoded_token(Token::Text(text)) == decoded_token(Token::Unsigned(v)),
{
    crate::decimal::lemma_decimal_value_nonneg(text@);
}

/// Law (ordering): identifiers compare exactly as their wrapped integers
/// do; since `Snowflake` obeys its comparison specification, `<` on two
/// identifiers returns `a.0 < b.0`.
pub proof fn lemma_ordering_consistent(a: Snowflake, b: Snowflake)
    ensures
        Snowflake::obeys_partial_cmp_spec(),
        (a.partial_cmp_spec(&b) == Option::Some(core::cmp::Ordering::Less)) <==> a.0 < b.0,
        (a.partial_cmp_spec(&b) == Option::Some(core::cmp::Ordering::Equal)) <==> a.0 == b.0,
        (a.partial_cmp_spec(&b) == Option::Some(core::cmp::Ordering::Greater)) <==> a.0 > b.0,
{
}

} // verus!
