use wynn_api::decode::{DecodeError, ErrorKind};
use wynn_api::json::{Json, JsonNumber};
use wynn_api::leaderboard::Leaderboard;
use wynn_api::ordered::{deserialize_to_vec, encode_sequence};
use wynn_api::reader::parse;

fn num(n: u64) -> Json {
    Json::Number(JsonNumber::Unsigned(n))
}

fn object(members: Vec<(&str, Json)>) -> Json {
    Json::Object(members.into_iter().map(|(name, value)| (name.to_string(), value)).collect())
}

fn error(kind: ErrorKind, subject: &str) -> DecodeError {
    error_at(kind, subject, &[])
}

fn error_at(kind: ErrorKind, subject: &str, path: &[usize]) -> DecodeError {
    DecodeError { kind, subject: subject.to_string(), path: path.to_vec() }
}

#[test]
fn indices_from_zero_give_the_values_in_order() {
    let j = object(vec![("0", num(10)), ("1", num(11)), ("2", num(12))]);
    assert_eq!(deserialize_to_vec::<u64>(&j), Ok(vec![10, 11, 12]));
}

#[test]
fn indices_from_any_base_in_any_order_give_the_values_by_index() {
    let j = object(vec![("7", num(70)), ("5", num(50)), ("8", num(80)), ("6", num(60))]);
    assert_eq!(deserialize_to_vec::<u64>(&j), Ok(vec![50, 60, 70, 80]));
}

#[test]
fn a_gap_is_refused() {
    let j = object(vec![("0", num(1)), ("1", num(2)), ("3", num(4))]);
    assert_eq!(deserialize_to_vec::<u64>(&j), Err(error(ErrorKind::IncompleteIndexRange, "")));
}

#[test]
fn an_index_given_twice_is_refused() {
    let j = object(vec![("0", num(1)), ("0", num(2))]);
    assert_eq!(deserialize_to_vec::<u64>(&j), Err(error_at(ErrorKind::DuplicateIndex, "0", &[1])));
}

#[test]
fn an_index_given_twice_in_the_text_is_refused() {
    let j = parse(br#"{"0":10,"0":11}"#).unwrap();
    assert_eq!(j, object(vec![("0", num(10)), ("0", num(11))]));
    assert_eq!(deserialize_to_vec::<i64>(&j), Err(error_at(ErrorKind::DuplicateIndex, "0", &[1])));
    let j = parse(br#"{"1":{"kills":1,"deaths":2},"2":{"kills":3,"deaths":4},"1":{"kills":5,"deaths":6}}"#).unwrap();
    assert_eq!(deserialize_to_vec::<Json>(&j), Err(error_at(ErrorKind::DuplicateIndex, "1", &[2])));
}

#[test]
fn two_names_of_one_index_are_refused() {
    let j = object(vec![("1", num(1)), ("0", num(0)), ("01", num(2))]);
    assert_eq!(deserialize_to_vec::<u64>(&j), Err(error_at(ErrorKind::DuplicateIndex, "01", &[2])));
}

#[test]
fn an_object_without_members_gives_the_empty_sequence() {
    assert_eq!(deserialize_to_vec::<u64>(&object(vec![])), Ok(vec![]));
}

#[test]
fn a_name_that_is_no_index_is_refused() {
    for name in ["x", "-1", "", "1.5", " 1", "+"] {
        let j = object(vec![(name, num(1))]);
        assert_eq!(deserialize_to_vec::<u64>(&j), Err(error_at(ErrorKind::InvalidIndexKey, name, &[0])));
    }
}

#[test]
fn a_plus_before_an_index_is_accepted() {
    let j = object(vec![("+1", num(11)), ("0", num(10))]);
    assert_eq!(deserialize_to_vec::<u64>(&j), Ok(vec![10, 11]));
}

#[test]
fn an_index_that_does_not_fit_is_refused() {
    let j = object(vec![("99999999999999999999999999", num(1))]);
    assert_eq!(
        deserialize_to_vec::<u64>(&j),
        Err(error_at(ErrorKind::InvalidIndexKey, "99999999999999999999999999", &[0]))
    );
}

#[test]
fn a_value_that_cannot_be_read_comes_before_its_name() {
    let j = object(vec![("x", Json::Bool(true))]);
    assert_eq!(deserialize_to_vec::<u64>(&j), Err(error_at(ErrorKind::WrongType, "", &[0])));
}

#[test]
fn the_first_faulty_member_decides() {
    let j = object(vec![("0", num(1)), ("0", num(2)), ("x", num(3))]);
    assert_eq!(deserialize_to_vec::<u64>(&j), Err(error_at(ErrorKind::DuplicateIndex, "0", &[1])));
    let j = object(vec![("0", num(1)), ("x", num(3)), ("0", num(2))]);
    assert_eq!(deserialize_to_vec::<u64>(&j), Err(error_at(ErrorKind::InvalidIndexKey, "x", &[1])));
}

#[test]
fn a_fault_of_a_member_comes_before_a_gap() {
    let j = object(vec![("0", num(1)), ("5", num(2)), ("5", num(3))]);
    assert_eq!(deserialize_to_vec::<u64>(&j), Err(error_at(ErrorKind::DuplicateIndex, "5", &[2])));
}

#[test]
fn what_is_no_object_is_refused() {
    assert_eq!(deserialize_to_vec::<u64>(&Json::Array(vec![num(1)])), Err(error(ErrorKind::WrongType, "")));
    assert_eq!(deserialize_to_vec::<u64>(&Json::Null), Err(error(ErrorKind::WrongType, "")));
}

#[test]
fn the_far_ends_of_the_index_range_do_not_overflow() {
    let last = usize::MAX.to_string();
    let j = object(vec![("0", num(1)), (last.as_str(), num(2))]);
    assert_eq!(deserialize_to_vec::<u64>(&j), Err(error(ErrorKind::IncompleteIndexRange, "")));
}

#[test]
fn a_text_is_read_as_a_sequence() {
    let j = parse(br#"{"2": "c", "1": "b", "3": "d"}"#).unwrap();
    assert_eq!(
        deserialize_to_vec::<String>(&j),
        Ok(vec!["b".to_string(), "c".to_string(), "d".to_string()])
    );
}

#[test]
fn a_sequence_is_written_with_its_places_as_names() {
    let items: Vec<u64> = vec![5, 6, 7];
    assert_eq!(encode_sequence(&items), object(vec![("0", num(5)), ("1", num(6)), ("2", num(7))]));
}

#[test]
fn a_sequence_that_was_written_is_read_back() {
    let items: Vec<u64> = (0..25).map(|n| n * n).collect();
    assert_eq!(deserialize_to_vec::<u64>(&encode_sequence(&items)), Ok(items));
}

#[test]
fn a_ranking_counts_from_one() {
    let board = Leaderboard { leaderboard: vec![10u64, 20, 30] };
    assert_eq!(board.get_ranking(0), None);
    assert_eq!(board.get_ranking(1), Some(&10));
    assert_eq!(board.get_ranking(3), Some(&30));
    assert_eq!(board.get_ranking(4), None);
    assert_eq!(board.get_ranking(usize::MAX), None);
}
