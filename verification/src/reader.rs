//! Reading the bytes of a JSON text.
//!
//! The text is walked here, bracket by bracket: the members of an object and
//! the items of an array are taken as the text gives them, each with the
//! byte at which it starts. What stands between the brackets and commas, the
//! strings, numbers and literals, is read by `serde_json`, one token at a
//! time. That parser is not verified; this module declares what is taken on
//! trust about it.

use crate::json::{lemma_array_view, lemma_object_view, Json, JsonNumber, JsonValue};
use vstd::prelude::*;
use vstd::slice::slice_subrange;

verus! {

/// Declares `serde_json::Value` as a type that verified code may hold. What
/// is inside a value is seen through [`value_model`] only.
#[verifier::external_type_specification]
#[verifier::external_body]
pub struct ExValue(serde_json::Value);

/// Declares `serde_json::Number` as a type that verified code may hold. What
/// is inside a number is seen through [`number_model`] only.
#[verifier::external_type_specification]
#[verifier::external_body]
pub struct ExNumber(serde_json::Number);

/// The document that a `serde_json::Value` holds.
pub uninterp spec fn value_model(v: serde_json::Value) -> JsonValue;

/// The number that a `serde_json::Number` holds.
pub uninterp spec fn number_model(n: serde_json::Number) -> JsonNumber;

/// What `serde_json` makes of the bytes of a text from `at` on when it is
/// asked for one value: the value and the number of bytes that it takes, or
/// the place where the parser gave up, counted from `at`; `None` where
/// nothing but white space is left.
pub uninterp spec fn token_at(body: Seq<u8>, at: int) -> Option<Result<(JsonValue, int), SyntaxError>>;

/// The place in a text at which the parser gave up, as the parser counts it.
#[derive(Clone, Copy, Debug, PartialEq, Eq, Structural)]
pub struct SyntaxError {
    /// The line: 1 and the number of line feeds before the place.
    pub line: usize,
    /// The column: the number of bytes between the start of the line and the
    /// place.
    pub column: usize,
}

/// One level of a `serde_json::Value`: its variant, with the parts still unread.
enum Node<'a> {
    Null,
    Bool(bool),
    Number(&'a serde_json::Number),
    String(&'a String),
    Array(&'a Vec<serde_json::Value>),
    Object(Vec<(&'a String, &'a serde_json::Value)>),
}

spec fn item_models(items: Seq<serde_json::Value>) -> Seq<JsonValue> {
    Seq::new(items.len(), |i: int| value_model(items[i]))
}

spec fn member_models(members: Seq<(&String, &serde_json::Value)>) -> Seq<(Seq<char>, JsonValue)> {
    Seq::new(members.len(), |i: int| (members[i].0@, value_model(*members[i].1)))
}

spec fn node_model(n: Node) -> JsonValue {
    match n {
        Node::Null => JsonValue::Null,
        Node::Bool(b) => JsonValue::Bool(b),
        Node::Number(x) => JsonValue::Number(number_model(*x)),
        Node::String(s) => JsonValue::String(s@),
        Node::Array(items) => JsonValue::Array(item_models(items@)),
        Node::Object(members) => JsonValue::Object(member_models(members@)),
    }
}

/// Tells the variants of a `serde_json::Value` apart.
///
/// Trusted: the node has the variant of the value and borrows its parts, the
/// members of an object in the order in which `serde_json::Map::iter` yields
/// them.
#[verifier::external_body]
fn node_of<'a>(v: &'a serde_json::Value) -> (n: Node<'a>)
    ensures
        node_model(n) == value_model(*v),
{
    match v {
        serde_json::Value::Null => Node::Null,
        serde_json::Value::Bool(b) => Node::Bool(*b),
        serde_json::Value::Number(x) => Node::Number(x),
        serde_json::Value::String(s) => Node::String(s),
        serde_json::Value::Array(items) => Node::Array(items),
        serde_json::Value::Object(members) => Node::Object(members.iter().collect()),
    }
}

/// Reads a `serde_json::Number` through `as_u64`, `as_i64` and `as_f64`.
///
/// Trusted: an integer that `as_u64` gives is `Unsigned`, another that
/// `as_i64` gives is `Signed` and below 0, and any other number is `Real`
/// with the bits of what `as_f64` gives.
#[verifier::external_body]
fn number_of(x: &serde_json::Number) -> (n: JsonNumber)
    ensures
        n == number_model(*x),
        n matches JsonNumber::Signed(i) ==> i < 0,
{
    match (x.as_u64(), x.as_i64()) {
        (Some(u), _) => JsonNumber::Unsigned(u),
        (None, Some(i)) => JsonNumber::Signed(i),
        (None, None) => JsonNumber::Real(x.as_f64().map_or(0, |r| r.to_bits())),
    }
}

/// Converts a value of the parser into a document of this crate. The parser
/// is asked for one token at a time, so the value is a string, a number or a
/// literal wherever the text is walked as this module walks it.
fn document_of(v: &serde_json::Value) -> (j: Json)
    ensures
        j@ == value_model(*v),
    decreases value_model(*v),
{
    match node_of(v) {
        Node::Null => Json::Null,
        Node::Bool(b) => Json::Bool(b),
        Node::Number(x) => Json::Number(number_of(x)),
        Node::String(s) => Json::String(s.clone()),
        Node::Array(items) => {
            let mut out: Vec<Json> = Vec::new();
            let mut i: usize = 0;
            while i < items.len()
                invariant
                    i <= items.len(),
                    out.len() == i,
                    value_model(*v) == JsonValue::Array(item_models(items@)),
                    forall|k: int| 0 <= k < i ==> (#[trigger] out[k])@ == value_model(items[k]),
                decreases items.len() - i,
            {
                proof {
                    let models = value_model(*v)->Array_0;
                    assert(models[i as int] == value_model(items[i as int]));
                    assert(decreases_to!(value_model(*v) => models));
                    assert(decreases_to!(models => models[i as int]));
                }
                let item = document_of(&items[i]);
                out.push(item);
                i += 1;
            }
            let j = Json::Array(out);
            assert(j@->Array_0 =~= item_models(items@));
            j
        },
        Node::Object(members) => {
            let mut out: Vec<(String, Json)> = Vec::new();
            let mut i: usize = 0;
            while i < members.len()
                invariant
                    i <= members.len(),
                    out.len() == i,
                    value_model(*v) == JsonValue::Object(member_models(members@)),
                    forall|k: int| 0 <= k < i ==> (#[trigger] out[k]).0@ == members[k].0@,
                    forall|k: int| 0 <= k < i ==> (#[trigger] out[k]).1@ == value_model(*members[k].1),
                decreases members.len() - i,
            {
                let member = &members[i];
                proof {
                    let models = value_model(*v)->Object_0;
                    assert(models[i as int].1 == value_model(*members[i as int].1));
                    assert(decreases_to!(value_model(*v) => models));
                    assert(decreases_to!(models => models[i as int]));
                    assert(decreases_to!(models[i as int] => models[i as int].1));
                }
                let value = document_of(member.1);
                out.push((member.0.clone(), value));
                i += 1;
            }
            let j = Json::Object(out);
            assert(j@->Object_0 =~= member_models(members@));
            j
        },
    }
}

/// Takes one value from the stream that `serde_json::Deserializer::from_slice`
/// makes of the bytes from `at` on.
///
/// Trusted: the outcome is the one that [`token_at`] names for these bytes
/// and this place. A value comes with what `StreamDeserializer::byte_offset`
/// gives after it, an error with the line and column that `serde_json::Error`
/// reports.
#[verifier::external_body]
fn read_token(body: &[u8], at: usize) -> (r: Option<Result<(serde_json::Value, usize), SyntaxError>>)
    requires
        at <= body.len(),
    ensures
        match r {
            Some(Ok((v, taken))) => token_at(body@, at as int) == Some(
                Ok::<(JsonValue, int), SyntaxError>((value_model(v), taken as int)),
            ),
            Some(Err(e)) => token_at(body@, at as int) == Some(Err::<(JsonValue, int), SyntaxError>(e)),
            None => token_at(body@, at as int) is None,
        },
{
    let mut stream = serde_json::Deserializer::from_slice(&body[at..]).into_iter::<serde_json::Value>();
    match stream.next() {
        Some(Ok(v)) => Some(Ok((v, stream.byte_offset()))),
        Some(Err(e)) => Some(Err(SyntaxError { line: e.line(), column: e.column() })),
        None => None,
    }
}

/// The index of the first byte of the line `line` of `body`, lines counted
/// from 1 and ended by a line feed; the length of `body` where it has no
/// such line.
pub open spec fn line_start(body: Seq<u8>, line: int) -> int
    decreases body.len(),
{
    if line <= 1 || body.len() == 0 {
        0
    } else if body[0] == 10 {
        1 + line_start(body.drop_first(), line - 1)
    } else {
        1 + line_start(body.drop_first(), line)
    }
}

/// The byte of `body` that a line and a column of the parser point at, or the
/// end of `body` where they point beyond it.
pub open spec fn offset_of(body: Seq<u8>, place: SyntaxError) -> int {
    let at = line_start(body, place.line as int) + place.column;
    if at <= body.len() {
        at
    } else {
        body.len() as int
    }
}

proof fn lemma_line_start_bounds(body: Seq<u8>, line: int)
    ensures
        0 <= line_start(body, line) <= body.len(),
    decreases body.len(),
{
    if line > 1 && body.len() > 0 {
        if body[0] == 10 {
            lemma_line_start_bounds(body.drop_first(), line - 1);
        } else {
            lemma_line_start_bounds(body.drop_first(), line);
        }
    }
}

proof fn lemma_line_start_step(body: Seq<u8>, line: int, at: int)
    requires
        0 <= at < body.len(),
        line > 1,
    ensures
        line_start(body.subrange(at, body.len() as int), line) == 1 + line_start(
            body.subrange(at + 1, body.len() as int),
            if body[at] == 10 {
                line - 1
            } else {
                line
            },
        ),
{
    let rest = body.subrange(at, body.len() as int);
    assert(rest.drop_first() == body.subrange(at + 1, body.len() as int));
    assert(rest[0] == body[at]);
}

/// Finds the byte of `body` that a line and a column of the parser point at.
pub fn locate(body: &[u8], place: SyntaxError) -> (offset: usize)
    ensures
        offset == offset_of(body@, place),
{
    let mut at: usize = 0;
    let mut line: usize = place.line;
    assert(body@.subrange(0, body@.len() as int) == body@);
    while at < body.len() && line > 1
        invariant
            at <= body.len(),
            line_start(body@, place.line as int) == at + line_start(
                body@.subrange(at as int, body@.len() as int),
                line as int,
            ),
        decreases body.len() - at,
    {
        proof {
            lemma_line_start_step(body@, line as int, at as int);
        }
        if body[at] == 10 {
            line -= 1;
        }
        at += 1;
    }
    if place.column <= body.len() - at {
        at + place.column
    } else {
        body.len()
    }
}

/// How deep arrays and objects may stand in each other.
pub const DEPTH_LIMIT: usize = 128;

/// Where the values of a document start in its text: the byte at which a
/// value starts, and the same for each of its items or members, in order.
#[derive(Debug, PartialEq)]
pub struct Marks {
    pub at: usize,
    pub parts: Vec<Marks>,
}

/// The model of [`Marks`].
pub struct MarksModel {
    pub at: int,
    pub parts: Seq<MarksModel>,
}

impl View for Marks {
    type V = MarksModel;

    open spec fn view(&self) -> MarksModel
        decreases self,
    {
        MarksModel {
            at: self.at as int,
            parts: Seq::new(
                self.parts@.len(),
                |i: int|
                    if 0 <= i < self.parts@.len() {
                        self.parts@[i]@
                    } else {
                        MarksModel { at: 0, parts: Seq::empty() }
                    },
            ),
        }
    }
}

/// The parts of the model of marks are the models of the parts, in order.
pub proof fn lemma_marks_view(marks: Marks)
    ensures
        marks@.at == marks.at,
        marks@.parts.len() == marks.parts@.len(),
        forall|k: int| 0 <= k < marks.parts@.len() ==> (#[trigger] marks@.parts[k]) == marks.parts@[k]@,
{
    reveal_with_fuel(<Marks as View>::view, 2);
}

/// A document with the places of its values in the text it was read from.
#[derive(Debug, PartialEq)]
pub struct Document {
    pub root: Json,
    pub marks: Marks,
}

/// The place of the value that `path` leads to: the steps of `path` are the
/// places of items or members among their like, the last step taken first.
/// A step that leads nowhere ends the way.
pub open spec fn place_of(marks: MarksModel, path: Seq<usize>) -> int
    decreases path.len(),
{
    if path.len() == 0 {
        marks.at
    } else if path.last() < marks.parts.len() {
        place_of(marks.parts[path.last() as int], path.drop_last())
    } else {
        marks.at
    }
}

impl Marks {
    /// Finds the place of the value that `path` leads to.
    pub fn place(&self, path: &Vec<usize>) -> (at: usize)
        ensures
            at == place_of(self@, path@),
    {
        let mut marks = self;
        let mut left: usize = path.len();
        assert(path@.subrange(0, left as int) == path@);
        while left > 0
            invariant
                left <= path.len(),
                place_of(self@, path@) == place_of(marks@, path@.subrange(0, left as int)),
            decreases left,
        {
            let step = path[left - 1];
            proof {
                lemma_marks_view(*marks);
                let rest = path@.subrange(0, left as int);
                assert(rest.last() == step);
                assert(rest.drop_last() == path@.subrange(0, left - 1));
            }
            if step < marks.parts.len() {
                marks = &marks.parts[step];
                left -= 1;
            } else {
                return marks.at;
            }
        }
        proof {
            lemma_marks_view(*marks);
            assert(path@.subrange(0, path@.len() as int) == path@);
        }
        marks.at
    }
}

/// Whether `b` is white space between the tokens of a JSON text.
pub open spec fn is_space(b: u8) -> bool {
    b == 0x20 || b == 0x09 || b == 0x0a || b == 0x0d
}

/// The number of bytes of white space that stand at `at`.
pub open spec fn spaces(body: Seq<u8>, at: int) -> nat
    decreases body.len() - at,
{
    if 0 <= at < body.len() && is_space(body[at]) {
        1 + spaces(body, at + 1)
    } else {
        0
    }
}

/// What reading a value ends in.
pub enum Reading {
    /// The value, the places of its parts, and the number of bytes it takes.
    Done { value: JsonValue, marks: MarksModel, taken: nat },
    /// The byte at which the text stopped being JSON.
    Failed { at: int },
}

/// The marks of a value without parts.
pub open spec fn leaf(at: int) -> MarksModel {
    MarksModel { at, parts: Seq::empty() }
}

/// What reading one token at `at` ends in.
pub open spec fn scalar_at(body: Seq<u8>, at: int) -> Reading {
    match token_at(body, at) {
        Some(Ok((value, taken))) => if 0 < taken <= body.len() - at {
            Reading::Done { value, marks: leaf(at), taken: taken as nat }
        } else {
            Reading::Failed { at }
        },
        Some(Err(place)) => Reading::Failed { at: at + offset_of(body.subrange(at, body.len() as int), place) },
        None => Reading::Failed { at },
    }
}

/// What reading the value that starts at `at` ends in, where `depth` more
/// levels of arrays and objects are allowed.
pub open spec fn value_at(body: Seq<u8>, at: int, depth: nat) -> Reading
    decreases body.len() - at, 1nat,
{
    if at < 0 || at >= body.len() {
        Reading::Failed { at }
    } else if body[at] == 0x7b {
        let next = at + 1 + spaces(body, at + 1);
        if depth == 0 {
            Reading::Failed { at }
        } else if next >= body.len() {
            Reading::Failed { at: next }
        } else if body[next] == 0x7d {
            Reading::Done { value: JsonValue::Object(Seq::empty()), marks: leaf(at), taken: (next + 1 - at) as nat }
        } else {
            members_from(body, at, next, Seq::empty(), Seq::empty(), (depth - 1) as nat)
        }
    } else if body[at] == 0x5b {
        let next = at + 1 + spaces(body, at + 1);
        if depth == 0 {
            Reading::Failed { at }
        } else if next >= body.len() {
            Reading::Failed { at: next }
        } else if body[next] == 0x5d {
            Reading::Done { value: JsonValue::Array(Seq::empty()), marks: leaf(at), taken: (next + 1 - at) as nat }
        } else {
            items_from(body, at, next, Seq::empty(), Seq::empty(), (depth - 1) as nat)
        }
    } else {
        scalar_at(body, at)
    }
}

/// What reading the members of the object that starts at `start` ends in,
/// from the member whose name is due at `at` on, after the members `members`
/// with the marks `marks`.
pub open spec fn members_from(
    body: Seq<u8>,
    start: int,
    at: int,
    members: Seq<(Seq<char>, JsonValue)>,
    marks: Seq<MarksModel>,
    depth: nat,
) -> Reading
    decreases body.len() - at, 0nat,
{
    if at < 0 || at >= body.len() {
        Reading::Failed { at }
    } else {
        match scalar_at(body, at) {
            Reading::Failed { at: failed } => Reading::Failed { at: failed },
            Reading::Done { value: name, marks: _, taken: name_taken } => {
                let colon = at + name_taken + spaces(body, at + name_taken);
                let value_start = colon + 1 + spaces(body, colon + 1);
                if !(name is String) || name_taken == 0 {
                    Reading::Failed { at }
                } else if !(colon < body.len() && body[colon] == 0x3a) {
                    Reading::Failed { at: colon }
                } else if value_start >= body.len() {
                    Reading::Failed { at: value_start }
                } else {
                    match value_at(body, value_start, depth) {
                        Reading::Failed { at: failed } => Reading::Failed { at: failed },
                        Reading::Done { value, marks: mark, taken } => {
                            let next = value_start + taken + spaces(body, value_start + taken);
                            let more = members.push((name->String_0, value));
                            let more_marks = marks.push(mark);
                            if next >= body.len() {
                                Reading::Failed { at: next }
                            } else if body[next] == 0x7d {
                                Reading::Done {
                                    value: JsonValue::Object(more),
                                    marks: MarksModel { at: start, parts: more_marks },
                                    taken: (next + 1 - start) as nat,
                                }
                            } else if body[next] == 0x2c {
                                let again = next + 1 + spaces(body, next + 1);
                                if again >= body.len() {
                                    Reading::Failed { at: again }
                                } else {
                                    members_from(body, start, again, more, more_marks, depth)
                                }
                            } else {
                                Reading::Failed { at: next }
                            }
                        },
                    }
                }
            },
        }
    }
}

/// What reading the items of the array that starts at `start` ends in, from
/// the item that is due at `at` on, after the items `items` with the marks
/// `marks`.
pub open spec fn items_from(
    body: Seq<u8>,
    start: int,
    at: int,
    items: Seq<JsonValue>,
    marks: Seq<MarksModel>,
    depth: nat,
) -> Reading
    decreases body.len() - at, 2nat,
{
    if at < 0 || at >= body.len() {
        Reading::Failed { at }
    } else {
        match value_at(body, at, depth) {
            Reading::Failed { at: failed } => Reading::Failed { at: failed },
            Reading::Done { value, marks: mark, taken } => {
                let next = at + taken + spaces(body, at + taken);
                let more = items.push(value);
                let more_marks = marks.push(mark);
                if next >= body.len() || taken == 0 {
                    Reading::Failed { at: next }
                } else if body[next] == 0x5d {
                    Reading::Done {
                        value: JsonValue::Array(more),
                        marks: MarksModel { at: start, parts: more_marks },
                        taken: (next + 1 - start) as nat,
                    }
                } else if body[next] == 0x2c {
                    let again = next + 1 + spaces(body, next + 1);
                    if again >= body.len() {
                        Reading::Failed { at: again }
                    } else {
                        items_from(body, start, again, more, more_marks, depth)
                    }
                } else {
                    Reading::Failed { at: next }
                }
            },
        }
    }
}

/// What the bytes of a text are read as: a document with the places of its
/// values, or the byte at which the text stopped being JSON. The text is one
/// value, with nothing but white space around it.
pub open spec fn read_as(body: Seq<u8>) -> Result<(JsonValue, MarksModel), int> {
    let start = spaces(body, 0) as int;
    match value_at(body, start, DEPTH_LIMIT as nat) {
        Reading::Failed { at } => Err(at),
        Reading::Done { value, marks, taken } => {
            let end = start + taken + spaces(body, start + taken);
            if end == body.len() {
                Ok((value, marks))
            } else {
                Err(end)
            }
        },
    }
}

/// The models of members.
pub open spec fn members_view(members: Seq<(String, Json)>) -> Seq<(Seq<char>, JsonValue)> {
    Seq::new(members.len(), |k: int| (members[k].0@, members[k].1@))
}

/// The models of items.
pub open spec fn items_view(items: Seq<Json>) -> Seq<JsonValue> {
    Seq::new(items.len(), |k: int| items[k]@)
}

/// The models of marks.
pub open spec fn marks_view(marks: Seq<Marks>) -> Seq<MarksModel> {
    Seq::new(marks.len(), |k: int| marks[k]@)
}

/// Whether what was read is what the text says.
pub open spec fn agrees(r: Result<(Json, Marks, usize), usize>, at: int, reading: Reading) -> bool {
    match r {
        Ok((value, marks, end)) => at <= end && reading == (Reading::Done {
            value: value@,
            marks: marks@,
            taken: (end - at) as nat,
        }),
        Err(failed) => reading == (Reading::Failed { at: failed as int }),
    }
}

/// Finds the first byte from `at` on that is no white space.
fn skip_space(body: &[u8], at: usize) -> (r: usize)
    requires
        at <= body.len(),
    ensures
        r == at + spaces(body@, at as int),
        r <= body.len(),
{
    let mut i: usize = at;
    while i < body.len() && (body[i] == 0x20 || body[i] == 0x09 || body[i] == 0x0a || body[i] == 0x0d)
        invariant
            at <= i <= body.len(),
            at + spaces(body@, at as int) == i + spaces(body@, i as int),
        decreases body.len() - i,
    {
        i += 1;
    }
    i
}

/// Reads one token at `at`.
fn read_scalar(body: &[u8], at: usize) -> (r: Result<(Json, usize), usize>)
    requires
        at <= body.len(),
    ensures
        match r {
            Ok((value, end)) => at < end <= body.len() && scalar_at(body@, at as int) == (Reading::Done {
                value: value@,
                marks: leaf(at as int),
                taken: (end - at) as nat,
            }),
            Err(failed) => failed <= body.len() && scalar_at(body@, at as int) == (Reading::Failed {
                at: failed as int,
            }),
        },
{
    match read_token(body, at) {
        Some(Ok((v, taken))) => {
            if taken == 0 || taken > body.len() - at {
                Err(at)
            } else {
                Ok((document_of(&v), at + taken))
            }
        },
        Some(Err(place)) => {
            let rest = slice_subrange(body, at, body.len());
            Err(at + locate(rest, place))
        },
        None => Err(at),
    }
}

/// Reads the value that starts at `at`, where `depth` more levels of arrays
/// and objects are allowed.
fn read_value(body: &[u8], at: usize, depth: usize) -> (r: Result<(Json, Marks, usize), usize>)
    requires
        at <= body.len(),
    ensures
        agrees(r, at as int, value_at(body@, at as int, depth as nat)),
        r matches Ok(done) ==> done.2 <= body.len(),
        r matches Err(failed) ==> failed <= body.len(),
    decreases body.len() - at,
{
    if at >= body.len() {
        return Err(at);
    }
    let first = body[at];
    if first == 0x7b {
        if depth == 0 {
            return Err(at);
        }
        let start = skip_space(body, at + 1);
        if start < body.len() && body[start] == 0x7d {
            let value = Json::Object(Vec::new());
            let marks = Marks { at, parts: Vec::new() };
            proof {
                lemma_object_view(value);
                lemma_marks_view(marks);
                assert(value@->Object_0 =~= Seq::<(Seq<char>, JsonValue)>::empty());
                assert(marks@.parts =~= Seq::<MarksModel>::empty());
            }
            return Ok((value, marks, start + 1));
        }
        let mut members: Vec<(String, Json)> = Vec::new();
        let mut marks: Vec<Marks> = Vec::new();
        let mut cur: usize = start;
        assert(members_view(members@) =~= Seq::<(Seq<char>, JsonValue)>::empty());
        assert(marks_view(marks@) =~= Seq::<MarksModel>::empty());
        loop
            invariant
                at < cur <= body.len(),
                at < body.len(),
                depth > 0,
                members.len() == marks.len(),
                value_at(body@, at as int, depth as nat) == members_from(
                    body@,
                    at as int,
                    cur as int,
                    members_view(members@),
                    marks_view(marks@),
                    (depth - 1) as nat,
                ),
            decreases body.len() - cur,
        {
            if cur >= body.len() {
                return Err(cur);
            }
            let (name, name_end) = match read_scalar(body, cur) {
                Ok(read) => read,
                Err(failed) => {
                    return Err(failed);
                },
            };
            let name = match name {
                Json::String(name) => name,
                _ => {
                    return Err(cur);
                },
            };
            let colon = skip_space(body, name_end);
            if colon >= body.len() || body[colon] != 0x3a {
                return Err(colon);
            }
            let value_start = skip_space(body, colon + 1);
            let (value, mark, end) = match read_value(body, value_start, depth - 1) {
                Ok(read) => read,
                Err(failed) => {
                    return Err(failed);
                },
            };
            let next = skip_space(body, end);
            let ghost before = members_view(members@);
            let ghost marks_before = marks_view(marks@);
            members.push((name, value));
            marks.push(mark);
            proof {
                assert(members_view(members@) =~= before.push((name@, value@)));
                assert(marks_view(marks@) =~= marks_before.push(mark@));
            }
            if next >= body.len() {
                return Err(next);
            }
            if body[next] == 0x7d {
                let value = Json::Object(members);
                let marks = Marks { at, parts: marks };
                proof {
                    lemma_object_view(value);
                    lemma_marks_view(marks);
                    assert(value@->Object_0 =~= members_view(members@));
                    assert(marks@.parts =~= marks_view(marks.parts@));
                }
                return Ok((value, marks, next + 1));
            }
            if body[next] != 0x2c {
                return Err(next);
            }
            cur = skip_space(body, next + 1);
        }
    } else if first == 0x5b {
        if depth == 0 {
            return Err(at);
        }
        let start = skip_space(body, at + 1);
        if start < body.len() && body[start] == 0x5d {
            let value = Json::Array(Vec::new());
            let marks = Marks { at, parts: Vec::new() };
            proof {
                lemma_array_view(value);
                lemma_marks_view(marks);
                assert(value@->Array_0 =~= Seq::<JsonValue>::empty());
                assert(marks@.parts =~= Seq::<MarksModel>::empty());
            }
            return Ok((value, marks, start + 1));
        }
        let mut items: Vec<Json> = Vec::new();
        let mut marks: Vec<Marks> = Vec::new();
        let mut cur: usize = start;
        assert(items_view(items@) =~= Seq::<JsonValue>::empty());
        assert(marks_view(marks@) =~= Seq::<MarksModel>::empty());
        loop
            invariant
                at < cur <= body.len(),
                at < body.len(),
                depth > 0,
                items.len() == marks.len(),
                value_at(body@, at as int, depth as nat) == items_from(
                    body@,
                    at as int,
                    cur as int,
                    items_view(items@),
                    marks_view(marks@),
                    (depth - 1) as nat,
                ),
            decreases body.len() - cur,
        {
            if cur >= body.len() {
                return Err(cur);
            }
            let (value, mark, end) = match read_value(body, cur, depth - 1) {
                Ok(read) => read,
                Err(failed) => {
                    return Err(failed);
                },
            };
            let next = skip_space(body, end);
            let ghost before = items_view(items@);
            let ghost marks_before = marks_view(marks@);
            items.push(value);
            marks.push(mark);
            proof {
                assert(items_view(items@) =~= before.push(value@));
                assert(marks_view(marks@) =~= marks_before.push(mark@));
            }
            if next >= body.len() || end == cur {
                return Err(next);
            }
            if body[next] == 0x5d {
                let value = Json::Array(items);
                let marks = Marks { at, parts: marks };
                proof {
                    lemma_array_view(value);
                    lemma_marks_view(marks);
                    assert(value@->Array_0 =~= items_view(items@));
                    assert(marks@.parts =~= marks_view(marks.parts@));
                }
                return Ok((value, marks, next + 1));
            }
            if body[next] != 0x2c {
                return Err(next);
            }
            cur = skip_space(body, next + 1);
        }
    } else {
        match read_scalar(body, at) {
            Ok((value, end)) => {
                let marks = Marks { at, parts: Vec::new() };
                proof {
                    lemma_marks_view(marks);
                    assert(marks@.parts =~= Seq::<MarksModel>::empty());
                }
                Ok((value, marks, end))
            },
            Err(failed) => Err(failed),
        }
    }
}

/// Reads the bytes of a JSON text as a document with the places of its
/// values.
///
/// The members of an object come as the text gives them, in its order, also
/// where it gives one name twice.
pub fn read(body: &[u8]) -> (r: Result<Document, usize>)
    ensures
        match r {
            Ok(document) => read_as(body@) == Ok::<(JsonValue, MarksModel), int>(
                (document.root@, document.marks@),
            ),
            Err(at) => at <= body.len() && read_as(body@) == Err::<(JsonValue, MarksModel), int>(at as int),
        },
{
    let start = skip_space(body, 0);
    match read_value(body, start, DEPTH_LIMIT) {
        Ok((root, marks, end)) => {
            let rest = skip_space(body, end);
            if rest == body.len() {
                Ok(Document { root, marks })
            } else {
                Err(rest)
            }
        },
        Err(failed) => Err(failed),
    }
}

/// Reads the bytes of a JSON text as a document.
pub fn parse(body: &[u8]) -> (r: Result<Json, usize>)
    ensures
        match r {
            Ok(root) => read_as(body@) matches Ok(read) && read.0 == root@,
            Err(at) => at <= body.len() && read_as(body@) == Err::<(JsonValue, MarksModel), int>(at as int),
        },
{
    match read(body) {
        Ok(document) => Ok(document.root),
        Err(at) => Err(at),
    }
}

} // verus!
