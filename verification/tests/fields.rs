use wynn_api::decode::{Decode, DecodeError, ErrorKind};
use wynn_api::fields::{
    aliased, defaulted, deserialize_from_string, deserialize_with_default, filled, optional, quoted, required, Scalar,
    WriteScalar,
};
use wynn_api::json::{Json, JsonNumber};
use wynn_api::reader::parse;
use wynn_api::text::{chars_of, parse_signed, parse_unsigned};

fn num(n: u64) -> Json {
    Json::Number(JsonNumber::Unsigned(n))
}

fn text(s: &str) -> Json {
    Json::String(s.to_string())
}

fn object(members: Vec<(&str, Json)>) -> Json {
    Json::Object(members.into_iter().map(|(name, value)| (name.to_string(), value)).collect())
}

fn error(kind: ErrorKind, subject: &str) -> DecodeError {
    error_at(kind, subject, &[])
}

fn error_at(kind: ErrorKind, subject: &str, path: &[usize]) -> DecodeError {
    DecodeError { kind, subject: subject.to_string(), path: path.to_vec() }
}

#[test]
fn a_quoted_number_is_read() {
    assert_eq!(deserialize_from_string::<u64>(&text("42"), "comments"), Ok(42));
    assert_eq!(deserialize_from_string::<i64>(&text("-1234"), "x"), Ok(-1234));
    assert_eq!(deserialize_from_string::<i64>(&text("+7"), "x"), Ok(7));
}

#[test]
fn a_quoted_word_is_no_number() {
    assert_eq!(
        deserialize_from_string::<u64>(&text("abc"), "comments"),
        Err(error(ErrorKind::InvalidScalar, "comments"))
    );
    assert_eq!(deserialize_from_string::<u64>(&text(""), "comments"), Err(error(ErrorKind::InvalidScalar, "comments")));
    assert_eq!(deserialize_from_string::<u64>(&text("-1"), "comments"), Err(error(ErrorKind::InvalidScalar, "comments")));
}

#[test]
fn a_quoted_number_out_of_range_is_refused() {
    assert_eq!(deserialize_from_string::<u64>(&text("18446744073709551615"), "n"), Ok(u64::MAX));
    assert_eq!(
        deserialize_from_string::<u64>(&text("18446744073709551616"), "n"),
        Err(error(ErrorKind::InvalidScalar, "n"))
    );
    assert_eq!(deserialize_from_string::<i64>(&text("-9223372036854775808"), "n"), Ok(i64::MIN));
    assert_eq!(
        deserialize_from_string::<i64>(&text("-9223372036854775809"), "n"),
        Err(error(ErrorKind::InvalidScalar, "n"))
    );
    assert_eq!(deserialize_from_string::<i64>(&text("9223372036854775807"), "n"), Ok(i64::MAX));
    assert_eq!(
        deserialize_from_string::<i64>(&text("9223372036854775808"), "n"),
        Err(error(ErrorKind::InvalidScalar, "n"))
    );
}

#[test]
fn a_native_number_where_a_string_is_expected_is_a_mismatch() {
    assert_eq!(deserialize_from_string::<u64>(&num(42), "comments"), Err(error(ErrorKind::WrongType, "")));
    assert_eq!(deserialize_from_string::<u64>(&Json::Null, "comments"), Err(error(ErrorKind::WrongType, "")));
}

#[test]
fn a_missing_field_gives_the_default() {
    assert_eq!(deserialize_with_default::<u64>(None), Ok(0));
    assert_eq!(deserialize_with_default::<String>(None), Ok(String::new()));
    assert_eq!(deserialize_with_default::<bool>(None), Ok(false));
    assert_eq!(deserialize_with_default::<Vec<String>>(None), Ok(vec![]));
}

#[test]
fn a_null_gives_the_default() {
    assert_eq!(deserialize_with_default::<u64>(Some(&Json::Null)), Ok(0));
    assert_eq!(deserialize_with_default::<String>(Some(&Json::Null)), Ok(String::new()));
}

#[test]
fn a_value_that_is_there_is_read() {
    assert_eq!(deserialize_with_default::<u64>(Some(&num(7))), Ok(7));
    assert_eq!(deserialize_with_default::<String>(Some(&text("AVO"))), Ok("AVO".to_string()));
}

#[test]
fn a_value_that_is_there_and_malformed_fails() {
    assert_eq!(deserialize_with_default::<u64>(Some(&text("7"))), Err(error(ErrorKind::WrongType, "")));
    assert_eq!(
        deserialize_with_default::<u8>(Some(&num(256))),
        Err(error(ErrorKind::OutOfRange, ""))
    );
}

#[test]
fn the_ways_to_read_a_member() {
    let j = object(vec![("a", num(1)), ("b", Json::Null), ("c", text("5"))]);
    assert_eq!(required::<u64>(&j, "a"), Ok(1));
    assert_eq!(required::<u64>(&j, "z"), Err(error(ErrorKind::MissingField, "z")));
    assert_eq!(required::<u64>(&j, "b"), Err(error_at(ErrorKind::WrongType, "", &[1])));
    assert_eq!(optional::<u64>(&j, "a"), Ok(Some(1)));
    assert_eq!(optional::<u64>(&j, "b"), Ok(None));
    assert_eq!(optional::<u64>(&j, "z"), Ok(None));
    assert_eq!(optional::<u64>(&j, "c"), Err(error_at(ErrorKind::WrongType, "", &[2])));
    assert_eq!(defaulted::<u64>(&j, "a"), Ok(1));
    assert_eq!(defaulted::<u64>(&j, "z"), Ok(0));
    assert_eq!(defaulted::<u64>(&j, "b"), Err(error_at(ErrorKind::WrongType, "", &[1])));
    assert_eq!(filled::<u64>(&j, "a"), Ok(1));
    assert_eq!(filled::<u64>(&j, "z"), Ok(0));
    assert_eq!(filled::<u64>(&j, "b"), Ok(0));
    assert_eq!(quoted::<u64>(&j, "c"), Ok(5));
    assert_eq!(quoted::<u64>(&j, "a"), Err(error_at(ErrorKind::WrongType, "", &[0])));
    assert_eq!(quoted::<u64>(&j, "z"), Err(error(ErrorKind::MissingField, "z")));
    assert_eq!(aliased::<u64>(&j, "z", "a"), Ok(1));
    assert_eq!(aliased::<u64>(&j, "a", "z"), Ok(1));
    assert_eq!(aliased::<u64>(&j, "y", "z"), Err(error(ErrorKind::MissingField, "y")));
}

#[test]
fn a_member_of_what_is_no_object_cannot_be_read() {
    let j = Json::Array(vec![]);
    assert_eq!(required::<u64>(&j, "a"), Err(error(ErrorKind::WrongType, "")));
    assert_eq!(optional::<u64>(&j, "a"), Err(error(ErrorKind::WrongType, "")));
    assert_eq!(defaulted::<u64>(&j, "a"), Err(error(ErrorKind::WrongType, "")));
    assert_eq!(filled::<u64>(&j, "a"), Err(error(ErrorKind::WrongType, "")));
    assert_eq!(quoted::<u64>(&j, "a"), Err(error(ErrorKind::WrongType, "")));
}

#[test]
fn the_first_member_of_a_name_is_the_one_that_counts() {
    let j = object(vec![("a", num(1)), ("a", num(2))]);
    assert_eq!(j.get("a"), Some(&num(1)));
    assert_eq!(required::<u64>(&j, "a"), Ok(1));
}

#[test]
fn integers_are_read_within_their_range() {
    assert_eq!(u8::decode(&num(255)), Ok(255));
    assert_eq!(u8::decode(&num(256)), Err(error(ErrorKind::OutOfRange, "")));
    assert_eq!(u8::decode(&Json::Number(JsonNumber::Signed(-1))), Err(error(ErrorKind::OutOfRange, "")));
    assert_eq!(u64::decode(&Json::Number(JsonNumber::Signed(-1))), Err(error(ErrorKind::OutOfRange, "")));
    assert_eq!(i64::decode(&Json::Number(JsonNumber::Signed(-5))), Ok(-5));
    assert_eq!(i64::decode(&num(9223372036854775807)), Ok(i64::MAX));
    assert_eq!(i64::decode(&num(9223372036854775808)), Err(error(ErrorKind::OutOfRange, "")));
    assert_eq!(i64::decode(&Json::Number(JsonNumber::Real(0))), Err(error(ErrorKind::WrongType, "")));
    assert_eq!(u64::decode(&text("1")), Err(error(ErrorKind::WrongType, "")));
}

#[test]
fn numbers_with_a_fraction_are_kept_as_bits() {
    let j = parse(b"[1.5, -2, 3, 1e2]").unwrap();
    let expected = Json::Array(vec![
        Json::Number(JsonNumber::Real(1.5f64.to_bits())),
        Json::Number(JsonNumber::Signed(-2)),
        Json::Number(JsonNumber::Unsigned(3)),
        Json::Number(JsonNumber::Real(100f64.to_bits())),
    ]);
    assert_eq!(j, expected);
    assert_eq!(JsonNumber::decode(&Json::Number(JsonNumber::Real(1.5f64.to_bits()))), Ok(JsonNumber::Real(1.5f64.to_bits())));
    assert_eq!(JsonNumber::decode(&text("1.5")), Err(error(ErrorKind::WrongType, "")));
}

#[test]
fn decimal_texts() {
    assert_eq!(parse_unsigned("0", 10), Some(0));
    assert_eq!(parse_unsigned("007", 10), Some(7));
    assert_eq!(parse_unsigned("10", 10), Some(10));
    assert_eq!(parse_unsigned("11", 10), None);
    assert_eq!(parse_unsigned("+3", 10), Some(3));
    assert_eq!(parse_unsigned("++3", 10), None);
    assert_eq!(parse_unsigned("3 ", 10), None);
    assert_eq!(parse_unsigned("٣", 10), None);
    assert_eq!(parse_signed("-0"), Some(0));
    assert_eq!(parse_signed("-"), None);
    assert_eq!(parse_signed("--1"), None);
    assert_eq!(parse_signed("12"), Some(12));
    assert_eq!(chars_of("a’b"), vec!['a', '’', 'b']);
    assert_eq!(0u64.to_text(), "0");
    assert_eq!(1203u64.to_text(), "1203");
    assert_eq!(u64::MAX.to_text(), "18446744073709551615");
    assert_eq!((-45i64).to_text(), "-45");
    assert_eq!(i64::MIN.to_text(), "-9223372036854775808");
    assert_eq!(i64::from_text(&i64::MIN.to_text()), Some(i64::MIN));
    assert_eq!(usize::from_text(&12usize.to_text()), Some(12));
    assert_eq!(u8::from_text("255"), Some(255));
    assert_eq!(u8::from_text("256"), None);
}
