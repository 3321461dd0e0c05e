use snowflake::{decode_token, DecodeError, ParseError, Snowflake, Token};
use std::collections::hash_map::DefaultHasher;
use std::collections::HashMap;
use std::hash::{Hash, Hasher};

#[test]
fn round_trip_zero() {
    let id = Snowflake::from_u64(0);
    let text = id.to_string();
    assert_eq!(Snowflake::parse(&text), Ok(id));
}

#[test]
fn round_trip_one() {
    let id = Snowflake::from_u64(1);
    let text = id.to_string();
    assert_eq!(Snowflake::parse(&text), Ok(id));
}

#[test]
fn round_trip_max() {
    let id = Snowflake::from_u64(u64::MAX);
    let text = id.to_string();
    assert_eq!(text, "18446744073709551615");
    assert_eq!(Snowflake::parse(&text), Ok(id));
}

#[test]
fn round_trip_ordinary_value() {
    let id = Snowflake::from_u64(123456789012345678);
    assert_eq!(Snowflake::parse(&id.to_string()), Ok(id));
}

#[test]
fn dual_input_equivalence() {
    let from_number = decode_token(&Token::Unsigned(123));
    let from_text = decode_token(&Token::Text(String::from("123")));
    assert_eq!(from_number, from_text);
    assert_eq!(from_number, Ok(Snowflake(123)));
}

#[test]
fn canonical_output_zero() {
    assert_eq!(Snowflake::from_u64(0).to_string(), "0");
}

#[test]
fn canonical_output_digits_only() {
    let text = Snowflake::from_u64(10002000).to_string();
    assert_eq!(text, "10002000");
    assert!(text.chars().all(|c| c.is_ascii_digit()));
    assert!(!text.starts_with('0'));
}

#[test]
fn sentinel_zero_is_absent() {
    assert_eq!(Snowflake::from_u64(0).into_option(), None);
}

#[test]
fn sentinel_nonzero_is_present() {
    assert_eq!(Snowflake::from_u64(1).into_option(), Some(Snowflake(1)));
}

#[test]
fn ordering_matches_integer_ordering() {
    let pairs = [(0u64, 1u64), (1, 2), (41, 42), (u64::MAX - 1, u64::MAX), (7, 7)];
    for &(a, b) in pairs.iter() {
        assert_eq!(Snowflake::from_u64(a) < Snowflake::from_u64(b), a < b);
        assert_eq!(Snowflake::from_u64(b) < Snowflake::from_u64(a), b < a);
        assert_eq!(Snowflake::from_u64(a) == Snowflake::from_u64(b), a == b);
    }
}

#[test]
fn sorting_by_derived_order() {
    let mut ids = vec![
        Snowflake::from_u64(42),
        Snowflake::from_u64(0),
        Snowflake::from_u64(u64::MAX),
        Snowflake::from_u64(7),
    ];
    ids.sort();
    assert_eq!(
        ids,
        vec![
            Snowflake::from_u64(0),
            Snowflake::from_u64(7),
            Snowflake::from_u64(42),
            Snowflake::from_u64(u64::MAX),
        ]
    );
}

#[test]
fn hash_consistent_with_equality() {
    let a = Snowflake::from_u64(987654321098765432);
    let b = Snowflake::from_u64(987654321098765432);
    assert_eq!(a, b);
    let mut ha = DefaultHasher::new();
    a.hash(&mut ha);
    let mut hb = DefaultHasher::new();
    b.hash(&mut hb);
    assert_eq!(ha.finish(), hb.finish());
}

#[test]
fn usable_as_map_key() {
    let mut names: HashMap<Snowflake, &str> = HashMap::new();
    names.insert(Snowflake::from_u64(1), "first");
    names.insert(Snowflake::from_u64(2), "second");
    assert_eq!(names.get(&Snowflake::from_u64(1)), Some(&"first"));
    assert_eq!(names.get(&Snowflake::from_u64(3)), None);
}

#[test]
fn parse_rejects_empty() {
    assert_eq!(Snowflake::parse(""), Err(ParseError));
}

#[test]
fn parse_rejects_letters() {
    assert_eq!(Snowflake::parse("abc"), Err(ParseError));
}

#[test]
fn parse_rejects_sign() {
    assert_eq!(Snowflake::parse("-1"), Err(ParseError));
    assert_eq!(Snowflake::parse("+1"), Err(ParseError));
}

#[test]
fn parse_rejects_overflow() {
    assert_eq!(Snowflake::parse("18446744073709551616"), Err(ParseError));
    assert_eq!(Snowflake::parse("99999999999999999999999"), Err(ParseError));
}

#[test]
fn parse_accepts_max() {
    assert_eq!(
        Snowflake::parse("18446744073709551615"),
        Ok(Snowflake(u64::MAX))
    );
}

#[test]
fn parse_rejects_fraction_and_spaces() {
    assert_eq!(Snowflake::parse("12.5"), Err(ParseError));
    assert_eq!(Snowflake::parse(" 12"), Err(ParseError));
    assert_eq!(Snowflake::parse("12 "), Err(ParseError));
}

#[test]
fn parse_rejects_non_ascii() {
    // A fullwidth digit one (U+FF11) is not an ASCII digit.
    let mut text = String::new();
    text.push(char::from_u32(0xFF11).unwrap());
    assert_eq!(Snowflake::parse(&text), Err(ParseError));
}

#[test]
fn decode_rejects_other_token_shapes() {
    // Booleans, null, fractional numbers, objects and arrays all reach the
    // decoder as a token of some other shape.
    assert_eq!(decode_token(&Token::Other), Err(DecodeError));
}

#[test]
fn decode_rejects_bad_text() {
    assert_eq!(
        decode_token(&Token::Text(String::from("12.5"))),
        Err(DecodeError)
    );
    assert_eq!(
        decode_token(&Token::Text(String::from("abc"))),
        Err(DecodeError)
    );
    assert_eq!(decode_token(&Token::Text(String::new())), Err(DecodeError));
}

#[test]
fn decode_error_names_the_accepted_shapes() {
    assert_eq!(
        DecodeError.message(),
        "a snowflake (either as a string containing a u64, or a u64)"
    );
}

#[test]
fn numeric_id_field_re_encodes_as_string() {
    // An input document field `"id": 42` arrives as a native number token.
    let id = decode_token(&Token::Unsigned(42)).unwrap();
    assert_eq!(id, Snowflake(42));
    // Re-encoding always yields the canonical string form: `"id": "42"`.
    assert_eq!(id.to_string(), "42");
}

#[test]
fn string_id_field_decodes_exactly() {
    // An input document field `"id": "987654321098765432"`.
    let id = decode_token(&Token::Text(String::from("987654321098765432"))).unwrap();
    assert_eq!(id, Snowflake(987654321098765432));
    assert_eq!(id.to_u64(), 987654321098765432u64);
}

#[test]
fn default_is_sentinel() {
    assert_eq!(Snowflake::default(), Snowflake(0));
    assert_eq!(Snowflake::default().into_option(), None);
}

#[test]
fn conversions_are_lossless() {
    let id: Snowflake = Snowflake::from(987654321098765432u64);
    assert_eq!(id.to_u64(), 987654321098765432);
    let raw: u64 = u64::from(id);
    assert_eq!(raw, 987654321098765432);
    assert_eq!(Snowflake::from_u64(u64::MAX).to_u64(), u64::MAX);
}

#[test]
fn from_str_parses_like_parse() {
    let id: Snowflake = "123".parse().unwrap();
    assert_eq!(id, Snowflake(123));
    assert!("".parse::<Snowflake>().is_err());
    assert!("x1".parse::<Snowflake>().is_err());
}
