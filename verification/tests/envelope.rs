use wynn_api::classes::ClassDifficulty;
use wynn_api::decode::{DecodeError, ErrorKind};
use wynn_api::envelope::{
    classify, decode, deserialize_data, parsing_error, settle, DecodeFailure, DecodeOutcome, Mode, Resolution,
    StatusClass, WynnApiError,
};
use wynn_api::json::{Json, JsonNumber};
use wynn_api::leaderboard::Leaderboard;
use wynn_api::player::Pvp;
use wynn_api::reader::{locate, parse, read, Document, Marks, SyntaxError};

fn error(kind: ErrorKind, subject: &str) -> DecodeError {
    error_at(kind, subject, &[])
}

fn error_at(kind: ErrorKind, subject: &str, path: &[usize]) -> DecodeError {
    DecodeError { kind, subject: subject.to_string(), path: path.to_vec() }
}

fn failure(offset: usize, excerpt: &[u8], cause: DecodeError) -> DecodeFailure {
    DecodeFailure { offset, excerpt: excerpt.to_vec(), cause }
}

fn leaf(at: usize) -> Marks {
    Marks { at, parts: vec![] }
}

#[test]
fn a_redirection_lists_the_choices() {
    let body = br#"{"choice1":{"a":1}}"#;
    let outcome = decode::<ClassDifficulty>(StatusClass::Redirect, body);
    let choices = vec![(
        "choice1".to_string(),
        vec![("a".to_string(), Json::Number(JsonNumber::Unsigned(1)))],
    )];
    assert_eq!(outcome, DecodeOutcome::Ambiguous(choices));
}

#[test]
fn the_choices_are_kept_as_they_came() {
    let body = br#"{"b":{"name":"x","rank":[1,"two",null]},"a":{}}"#;
    let outcome = deserialize_data::<u64>(body, true);
    let choices = vec![
        (
            "b".to_string(),
            vec![
                ("name".to_string(), Json::String("x".to_string())),
                (
                    "rank".to_string(),
                    Json::Array(vec![
                        Json::Number(JsonNumber::Unsigned(1)),
                        Json::String("two".to_string()),
                        Json::Null,
                    ]),
                ),
            ],
        ),
        ("a".to_string(), vec![]),
    ];
    assert_eq!(outcome, DecodeOutcome::Ambiguous(choices));
}

#[test]
fn a_redirection_that_lists_no_choices_fails() {
    let body = br#"{"choice1":7}"#;
    let outcome = decode::<ClassDifficulty>(StatusClass::Redirect, body);
    assert_eq!(outcome, DecodeOutcome::DecodeFailure(failure(11, body, error_at(ErrorKind::WrongType, "", &[0]))));
    let outcome = decode::<ClassDifficulty>(StatusClass::Redirect, b"[1]");
    assert_eq!(outcome, DecodeOutcome::DecodeFailure(failure(0, b"[1]", error(ErrorKind::WrongType, ""))));
}

#[test]
fn a_success_with_a_matching_body_gives_the_value() {
    let body = br#"{"name":"Warrior","overallDifficulty":1}"#;
    let expected = ClassDifficulty { name: "Warrior".to_string(), overall_difficulty: 1 };
    assert_eq!(decode::<ClassDifficulty>(StatusClass::Success, body), DecodeOutcome::Value(expected.clone()));
    assert_eq!(deserialize_data::<ClassDifficulty>(body, false), DecodeOutcome::Value(expected));
}

#[test]
fn a_success_that_lacks_a_required_field_fails() {
    let body = br#" {"name":"Warrior"}"#;
    assert_eq!(
        decode::<ClassDifficulty>(StatusClass::Success, body),
        DecodeOutcome::DecodeFailure(failure(1, body, error(ErrorKind::MissingField, "overallDifficulty")))
    );
}

#[test]
fn an_index_given_twice_in_the_body_fails() {
    let body = br#"{"0":10,"0":11}"#;
    assert_eq!(
        decode::<Leaderboard<i64>>(StatusClass::Success, body),
        DecodeOutcome::DecodeFailure(failure(12, body, error_at(ErrorKind::DuplicateIndex, "0", &[1])))
    );
    assert_eq!(
        deserialize_data::<Leaderboard<i64>>(body, false),
        DecodeOutcome::DecodeFailure(failure(12, body, error_at(ErrorKind::DuplicateIndex, "0", &[1])))
    );
    let body = br#"{"1":{"kills":1,"deaths":2},"01":{"kills":1,"deaths":2}}"#;
    assert_eq!(
        decode::<Leaderboard<Pvp>>(StatusClass::Success, body),
        DecodeOutcome::DecodeFailure(failure(33, body, error_at(ErrorKind::DuplicateIndex, "01", &[1])))
    );
}

#[test]
fn a_fault_is_found_where_its_value_starts() {
    let body = b"{\n  \"name\": \"Warrior\",\n  \"overallDifficulty\": \"one\"\n}";
    assert_eq!(
        decode::<ClassDifficulty>(StatusClass::Success, body),
        DecodeOutcome::DecodeFailure(failure(46, body, error_at(ErrorKind::WrongType, "", &[1])))
    );
    let body = br#"{"1":{"kills":1,"deaths":2},"2":{"kills":3,"deaths":[4]}}"#;
    assert_eq!(
        decode::<Leaderboard<Pvp>>(StatusClass::Success, body),
        DecodeOutcome::DecodeFailure(failure(52, body, error_at(ErrorKind::WrongType, "", &[1, 1])))
    );
}

#[test]
fn a_fault_far_into_a_long_body_is_shown_with_what_is_around_it() {
    let mut body = String::from("[");
    for _ in 0..300 {
        body.push_str("1,");
    }
    body.push_str("true,2]");
    let bytes = body.as_bytes();
    assert_eq!(bytes.len(), 608);
    assert_eq!(
        decode::<Vec<u64>>(StatusClass::Success, bytes),
        DecodeOutcome::DecodeFailure(failure(601, &bytes[401..608], error_at(ErrorKind::WrongType, "", &[300])))
    );
}

#[test]
fn a_body_that_is_no_json_fails_where_it_stops_being_json() {
    let body = br#"{"name": }"#;
    assert_eq!(parse(body), Err(10));
    assert_eq!(
        decode::<ClassDifficulty>(StatusClass::Success, body),
        DecodeOutcome::DecodeFailure(failure(10, body, error(ErrorKind::Syntax, "")))
    );
    assert_eq!(
        decode::<ClassDifficulty>(StatusClass::Redirect, body),
        DecodeOutcome::DecodeFailure(failure(10, body, error(ErrorKind::Syntax, "")))
    );
    let body = b"{\n\"a\": 1,\n\"b\": }";
    assert_eq!(parse(body), Err(16));
}

#[test]
fn what_is_no_json() {
    assert_eq!(parse(b""), Err(0));
    assert_eq!(parse(b"   "), Err(3));
    assert_eq!(parse(b"{"), Err(1));
    assert_eq!(parse(b"{\"a\""), Err(4));
    assert_eq!(parse(b"{\"a\" 1}"), Err(5));
    assert_eq!(parse(b"{\"a\":1,}"), Err(8));
    assert_eq!(parse(b"{\"a\":1 \"b\":2}"), Err(7));
    assert_eq!(parse(b"{1:2}"), Err(1));
    assert_eq!(parse(b"{,}"), Err(2));
    assert_eq!(parse(b"["), Err(1));
    assert_eq!(parse(b"[1,]"), Err(4));
    assert_eq!(parse(b"[1 2]"), Err(3));
    assert_eq!(parse(b"[1,2"), Err(4));
    assert_eq!(parse(b"1 2"), Err(2));
    assert_eq!(parse(b"{} x"), Err(3));
    assert_eq!(parse(b"tru"), Err(3));
    assert_eq!(parse(b"\"open"), Err(5));
    assert_eq!(parse(b"}"), Err(1));
    assert_eq!(decode::<u64>(StatusClass::Success, b""), DecodeOutcome::DecodeFailure(failure(0, b"", error(ErrorKind::Syntax, ""))));
    let deep = "[".repeat(200) + &"]".repeat(200);
    assert_eq!(parse(deep.as_bytes()), Err(128));
    let not_so_deep = "[".repeat(128) + &"]".repeat(128);
    assert!(parse(not_so_deep.as_bytes()).is_ok());
}

#[test]
fn a_text_is_read_with_the_places_of_its_values() {
    let body = b" { \"a\" : [ 1 , \"x\" ] ,\n \"b\" : { } , \"a\" : null } ";
    let document = read(body).unwrap();
    assert_eq!(
        document.root,
        Json::Object(vec![
            (
                "a".to_string(),
                Json::Array(vec![Json::Number(JsonNumber::Unsigned(1)), Json::String("x".to_string())])
            ),
            ("b".to_string(), Json::Object(vec![])),
            ("a".to_string(), Json::Null),
        ])
    );
    assert_eq!(
        document.marks,
        Marks { at: 1, parts: vec![Marks { at: 9, parts: vec![leaf(11), leaf(15)] }, leaf(30), leaf(42)] }
    );
    assert_eq!(document.marks.place(&vec![]), 1);
    assert_eq!(document.marks.place(&vec![0]), 9);
    assert_eq!(document.marks.place(&vec![1, 0]), 15);
    assert_eq!(document.marks.place(&vec![2]), 42);
    assert_eq!(document.marks.place(&vec![7]), 1);
    assert_eq!(document.marks.place(&vec![0, 1]), 30);
    assert_eq!(document.marks.place(&vec![5, 0]), 9);
}

#[test]
fn a_line_and_a_column_point_at_a_byte() {
    let body = b"{\n\"a\": 1,\n\"b\": }";
    assert_eq!(locate(body, SyntaxError { line: 3, column: 6 }), 16);
    assert_eq!(locate(body, SyntaxError { line: 1, column: 0 }), 0);
    assert_eq!(locate(body, SyntaxError { line: 1, column: 1 }), 1);
    assert_eq!(locate(body, SyntaxError { line: 2, column: 0 }), 2);
    assert_eq!(locate(body, SyntaxError { line: 2, column: 3 }), 5);
    assert_eq!(locate(body, SyntaxError { line: 3, column: 0 }), 10);
    assert_eq!(locate(body, SyntaxError { line: 3, column: 7 }), 16);
    assert_eq!(locate(body, SyntaxError { line: 4, column: 0 }), 16);
    assert_eq!(locate(body, SyntaxError { line: 9, column: usize::MAX }), 16);
    assert_eq!(locate(body, SyntaxError { line: 0, column: 2 }), 2);
    assert_eq!(locate(b"", SyntaxError { line: 1, column: 1 }), 0);
}

#[test]
fn a_token_that_is_no_json_fails_inside_the_token() {
    assert_eq!(parse(b"[1, \"a\\qb\"]"), Err(8));
    assert_eq!(parse(b"[\"line\nbreak\"]"), Err(7));
    assert_eq!(parse(b"[1, 2e]"), Err(7));
    assert_eq!(parse(b"[1, nul]"), Err(8));
}

#[test]
fn a_short_body_is_its_own_excerpt() {
    let body = vec![b'x'; 400];
    let failure = parsing_error(error(ErrorKind::Syntax, ""), 399, &body);
    assert_eq!(failure.offset, 399);
    assert_eq!(failure.excerpt, body);
    assert_eq!(failure.cause, error(ErrorKind::Syntax, ""));
}

#[test]
fn a_long_body_is_cut_around_the_failure() {
    let body: Vec<u8> = (0..1000u32).map(|n| (n % 251) as u8).collect();
    let failure = parsing_error(error(ErrorKind::WrongType, ""), 500, &body);
    assert_eq!(failure.excerpt.len(), 400);
    assert_eq!(failure.excerpt, body[300..700].to_vec());
    let failure = parsing_error(error(ErrorKind::WrongType, ""), 0, &body);
    assert_eq!(failure.excerpt, body[0..200].to_vec());
    let failure = parsing_error(error(ErrorKind::WrongType, ""), 199, &body);
    assert_eq!(failure.excerpt, body[0..399].to_vec());
    let failure = parsing_error(error(ErrorKind::WrongType, ""), 200, &body);
    assert_eq!(failure.excerpt, body[0..400].to_vec());
    let failure = parsing_error(error(ErrorKind::WrongType, ""), 900, &body);
    assert_eq!(failure.excerpt, body[700..1000].to_vec());
    let failure = parsing_error(error(ErrorKind::WrongType, ""), 1000, &body);
    assert_eq!(failure.excerpt, body[800..1000].to_vec());
    let failure = parsing_error(error(ErrorKind::WrongType, ""), 5000, &body);
    assert_eq!(failure.offset, 5000);
    assert_eq!(failure.excerpt, body[800..1000].to_vec());
    let body = vec![b'x'; 401];
    let failure = parsing_error(error(ErrorKind::WrongType, ""), 0, &body);
    assert_eq!(failure.excerpt.len(), 200);
}

#[test]
fn a_failure_in_a_long_body_shows_where_it_is() {
    let mut body = String::from("[");
    for _ in 0..300 {
        body.push_str("1,");
    }
    body.push_str("x]");
    let bytes = body.as_bytes();
    assert_eq!(bytes.len(), 603);
    assert_eq!(parse(bytes), Err(602));
    assert_eq!(
        decode::<Vec<u64>>(StatusClass::Success, bytes),
        DecodeOutcome::DecodeFailure(failure(602, &bytes[402..603], error(ErrorKind::Syntax, "")))
    );
}

#[test]
fn what_a_body_was_read_as_decides_the_outcome() {
    let body = b"  7";
    let seven = Document { root: Json::Number(JsonNumber::Unsigned(7)), marks: leaf(2) };
    assert_eq!(classify::<u64>(body, Ok(seven), false), DecodeOutcome::Value(7));
    let none = Document { root: Json::Object(vec![]), marks: leaf(2) };
    assert_eq!(classify::<u64>(body, Ok(none), true), DecodeOutcome::Ambiguous(vec![]));
    assert_eq!(
        classify::<u64>(body, Err(1), false),
        DecodeOutcome::DecodeFailure(failure(1, b"  7", error(ErrorKind::Syntax, "")))
    );
    let null = Document { root: Json::Null, marks: leaf(2) };
    assert_eq!(
        classify::<u64>(body, Ok(null), false),
        DecodeOutcome::DecodeFailure(failure(2, b"  7", error(ErrorKind::WrongType, "")))
    );
}

#[test]
fn the_mode_decides_what_a_failure_ends_in() {
    let failure = failure(0, b"", error(ErrorKind::Syntax, ""));
    match settle::<u64, String>(Mode::Strict, DecodeOutcome::DecodeFailure(failure.clone())) {
        Resolution::Abort(reason) => assert_eq!(reason, failure),
        other => panic!("{:?}", other),
    }
    match settle::<u64, String>(Mode::Lenient, DecodeOutcome::DecodeFailure(failure.clone())) {
        Resolution::Settled(Err(WynnApiError::DeserializeError(reason))) => assert_eq!(reason, failure),
        other => panic!("{:?}", other),
    }
    for mode in [Mode::Strict, Mode::Lenient] {
        match settle::<u64, String>(mode, DecodeOutcome::Value(5)) {
            Resolution::Settled(Ok(value)) => assert_eq!(value, 5),
            other => panic!("{:?}", other),
        }
        let choices = vec![("a".to_string(), vec![])];
        match settle::<u64, String>(mode, DecodeOutcome::Ambiguous(choices.clone())) {
            Resolution::Settled(Err(WynnApiError::MultipleChoices(listed))) => assert_eq!(listed, choices),
            other => panic!("{:?}", other),
        }
    }
}
