//! Writing a document as JSON text.
//!
//! The text is the compact one: no white space, the members of an object in
//! the order in which the document holds them. Strings are quoted and escaped
//! by `serde_json`; that it does so as [`quoted`] states is the one thing
//! taken on trust here. A number with a fraction is held as bits that this
//! crate cannot turn into text, so a document that holds one cannot be
//! written.

use crate::json::{lemma_array_view, lemma_object_view, Json, JsonNumber, JsonValue};
use crate::text::{decimal_of, push_decimal, push_signed_decimal, signed_decimal_of};
use vstd::prelude::*;
use vstd::string::StringExecFns;

verus! {

/// The character that stands for the hexadecimal digit `d`, in lower case.
pub open spec fn hex_digit(d: int) -> char {
    if d == 0 {
        '0'
    } else if d == 1 {
        '1'
    } else if d == 2 {
        '2'
    } else if d == 3 {
        '3'
    } else if d == 4 {
        '4'
    } else if d == 5 {
        '5'
    } else if d == 6 {
        '6'
    } else if d == 7 {
        '7'
    } else if d == 8 {
        '8'
    } else if d == 9 {
        '9'
    } else if d == 10 {
        'a'
    } else if d == 11 {
        'b'
    } else if d == 12 {
        'c'
    } else if d == 13 {
        'd'
    } else if d == 14 {
        'e'
    } else {
        'f'
    }
}

/// What a character is written as inside a JSON string literal. The
/// quotation mark and the reverse solidus get a reverse solidus before them;
/// a control character below U+0020 is written by its short escape where it
/// has one, else as `\u00` and its two hexadecimal digits; any other
/// character stands for itself.
pub open spec fn escaped(c: char) -> Seq<char> {
    if c == '"' {
        seq!['\\', '"']
    } else if c == '\\' {
        seq!['\\', '\\']
    } else if c == '\u{8}' {
        seq!['\\', 'b']
    } else if c == '\t' {
        seq!['\\', 't']
    } else if c == '\n' {
        seq!['\\', 'n']
    } else if c == '\u{c}' {
        seq!['\\', 'f']
    } else if c == '\r' {
        seq!['\\', 'r']
    } else if (c as int) < 0x20 {
        seq!['\\', 'u', '0', '0', hex_digit((c as int) / 16), hex_digit((c as int) % 16)]
    } else {
        seq![c]
    }
}

/// The characters of a string, each as it is written inside a JSON string
/// literal.
pub open spec fn escaped_text(s: Seq<char>) -> Seq<char>
    decreases s.len(),
{
    if s.len() == 0 {
        Seq::empty()
    } else {
        escaped_text(s.drop_last()) + escaped(s.last())
    }
}

/// The JSON string literal for a string: its characters between quotation
/// marks, escaped where JSON asks for it.
pub open spec fn quoted(s: Seq<char>) -> Seq<char> {
    seq!['"'] + escaped_text(s) + seq!['"']
}

/// Calls `serde_json::to_string` on a string slice.
///
/// Trusted: the result is the string between quotation marks, with the
/// characters escaped that the escape table of `serde_json` lists, each in
/// the way that [`escaped`] states.
#[verifier::external_body]
fn quote(s: &str) -> (r: String)
    ensures
        r@ == quoted(s@),
{
    serde_json::to_string(s).unwrap_or_default()
}

/// Whether a document can be written: it holds no number with a fraction.
pub open spec fn writable(j: JsonValue) -> bool
    decreases j, 0nat,
{
    match j {
        JsonValue::Number(JsonNumber::Real(_)) => false,
        JsonValue::Array(items) => writable_items(items, items.len() as int),
        JsonValue::Object(members) => writable_members(members, members.len() as int),
        _ => true,
    }
}

/// Whether the first `count` items can be written.
pub open spec fn writable_items(items: Seq<JsonValue>, count: int) -> bool
    decreases items, count,
{
    if count <= 0 || count > items.len() {
        true
    } else {
        writable_items(items, count - 1) && writable(items[count - 1])
    }
}

/// Whether the values of the first `count` members can be written.
pub open spec fn writable_members(members: Seq<(Seq<char>, JsonValue)>, count: int) -> bool
    decreases members, count,
{
    if count <= 0 || count > members.len() {
        true
    } else {
        writable_members(members, count - 1) && writable(members[count - 1].1)
    }
}

/// The text that a document is written as.
pub open spec fn rendered(j: JsonValue) -> Seq<char>
    decreases j, 0nat,
{
    match j {
        JsonValue::Null => "null"@,
        JsonValue::Bool(b) => if b {
            "true"@
        } else {
            "false"@
        },
        JsonValue::Number(JsonNumber::Unsigned(n)) => decimal_of(n as nat),
        JsonValue::Number(JsonNumber::Signed(n)) => signed_decimal_of(n as int),
        JsonValue::Number(JsonNumber::Real(_)) => "null"@,
        JsonValue::String(s) => quoted(s),
        JsonValue::Array(items) => "["@ + rendered_items(items, items.len() as int) + "]"@,
        JsonValue::Object(members) => "{"@ + rendered_members(members, members.len() as int) + "}"@,
    }
}

/// The texts of the first `count` items, with a comma between each two.
pub open spec fn rendered_items(items: Seq<JsonValue>, count: int) -> Seq<char>
    decreases items, count,
{
    if count <= 0 || count > items.len() {
        Seq::empty()
    } else if count == 1 {
        rendered(items[0])
    } else {
        rendered_items(items, count - 1) + ","@ + rendered(items[count - 1])
    }
}

/// The texts of the first `count` members, each as its quoted name, a colon
/// and the text of its value, with a comma between each two.
pub open spec fn rendered_members(members: Seq<(Seq<char>, JsonValue)>, count: int) -> Seq<char>
    decreases members, count,
{
    if count <= 0 || count > members.len() {
        Seq::empty()
    } else if count == 1 {
        quoted(members[0].0) + ":"@ + rendered(members[0].1)
    } else {
        rendered_members(members, count - 1) + ","@ + quoted(members[count - 1].0) + ":"@ + rendered(
            members[count - 1].1,
        )
    }
}

/// Appends the text of a document to `out`, and says whether the document
/// could be written. Where it could not, what was appended is of no use.
pub fn write(out: &mut String, j: &Json) -> (done: bool)
    ensures
        done == writable(j@),
        done ==> final(out)@ == old(out)@ + rendered(j@),
    decreases j,
{
    match j {
        Json::Null => {
            out.append("null");
            true
        },
        Json::Bool(b) => {
            if *b {
                out.append("true");
            } else {
                out.append("false");
            }
            true
        },
        Json::Number(JsonNumber::Unsigned(n)) => {
            push_decimal(out, *n);
            true
        },
        Json::Number(JsonNumber::Signed(n)) => {
            push_signed_decimal(out, *n);
            true
        },
        Json::Number(JsonNumber::Real(_)) => false,
        Json::String(s) => {
            let literal = quote(s.as_str());
            out.append(literal.as_str());
            true
        },
        Json::Array(items) => {
            proof {
                lemma_array_view(*j);
            }
            let ghost models = j@->Array_0;
            out.append("[");
            let ghost start = out@;
            let mut i: usize = 0;
            while i < items.len()
                invariant
                    i <= items.len(),
                    *j == Json::Array(*items),
                    j@ == JsonValue::Array(models),
                    models.len() == items.len(),
                    forall|k: int| 0 <= k < items.len() ==> (#[trigger] models[k]) == items[k]@,
                    writable_items(models, i as int),
                    out@ == start + rendered_items(models, i as int),
                decreases items.len() - i,
            {
                if i > 0 {
                    out.append(",");
                }
                proof {
                    let children = j->Array_0;
                    assert(decreases_to!(*j => children));
                    assert(decreases_to!(children => children[i as int]));
                    assert(models[i as int] == items[i as int]@);
                }
                let ghost before = out@;
                if !write(out, &items[i]) {
                    proof {
                        if writable_items(models, models.len() as int) {
                            lemma_writable_items_upto(models, i + 1, models.len() as int);
                        }
                    }
                    return false;
                }
                proof {
                    assert(out@ == start + rendered_items(models, i + 1)) by {
                        if i == 0 {
                            assert(rendered_items(models, 0) == Seq::<char>::empty());
                            assert(before == start);
                        } else {
                            assert(before == start + rendered_items(models, i as int) + ","@);
                        }
                    }
                }
                i += 1;
            }
            out.append("]");
            assert(out@ == old(out)@ + rendered(j@));
            true
        },
        Json::Object(members) => {
            proof {
                lemma_object_view(*j);
            }
            let ghost models = j@->Object_0;
            out.append("{");
            let ghost start = out@;
            let mut i: usize = 0;
            while i < members.len()
                invariant
                    i <= members.len(),
                    *j == Json::Object(*members),
                    j@ == JsonValue::Object(models),
                    models.len() == members.len(),
                    forall|k: int|
                        0 <= k < members.len() ==> (#[trigger] models[k]) == (members[k].0@, members[k].1@),
                    writable_members(models, i as int),
                    out@ == start + rendered_members(models, i as int),
                decreases members.len() - i,
            {
                if i > 0 {
                    out.append(",");
                }
                let name = quote(members[i].0.as_str());
                out.append(name.as_str());
                out.append(":");
                proof {
                    let children = j->Object_0;
                    assert(decreases_to!(*j => children));
                    assert(decreases_to!(children => children[i as int]));
                    assert(decreases_to!(children[i as int] => children[i as int].1));
                    assert(models[i as int] == (members[i as int].0@, members[i as int].1@));
                }
                let ghost before = out@;
                if !write(out, &members[i].1) {
                    proof {
                        if writable_members(models, models.len() as int) {
                            lemma_writable_members_upto(models, i + 1, models.len() as int);
                        }
                    }
                    return false;
                }
                proof {
                    assert(out@ == start + rendered_members(models, i + 1)) by {
                        if i == 0 {
                            assert(rendered_members(models, 0) == Seq::<char>::empty());
                            assert(before == start + quoted(models[0].0) + ":"@);
                        } else {
                            assert(before == start + rendered_members(models, i as int) + ","@ + quoted(
                                models[i as int].0,
                            ) + ":"@);
                        }
                    }
                }
                i += 1;
            }
            out.append("}");
            assert(out@ == old(out)@ + rendered(j@));
            true
        },
    }
}

/// Items that can all be written stay so when fewer are taken.
pub proof fn lemma_writable_items_upto(items: Seq<JsonValue>, count: int, more: int)
    requires
        0 <= count <= more <= items.len(),
        writable_items(items, more),
    ensures
        writable_items(items, count),
    decreases more - count,
{
    if count < more {
        lemma_writable_items_upto(items, count, more - 1);
    }
}

/// Members that can all be written stay so when fewer are taken.
pub proof fn lemma_writable_members_upto(members: Seq<(Seq<char>, JsonValue)>, count: int, more: int)
    requires
        0 <= count <= more <= members.len(),
        writable_members(members, more),
    ensures
        writable_members(members, count),
    decreases more - count,
{
    if count < more {
        lemma_writable_members_upto(members, count, more - 1);
    }
}

/// Items that can each be written can all be written.
pub proof fn lemma_all_writable(items: Seq<JsonValue>)
    requires
        forall|k: int| 0 <= k < items.len() ==> writable(#[trigger] items[k]),
    ensures
        writable(JsonValue::Array(items)),
{
    lemma_writable_items(items, items.len() as int);
}

proof fn lemma_writable_items(items: Seq<JsonValue>, count: int)
    requires
        0 <= count <= items.len(),
        forall|k: int| 0 <= k < items.len() ==> writable(#[trigger] items[k]),
    ensures
        writable_items(items, count),
    decreases count,
{
    if count > 0 {
        lemma_writable_items(items, count - 1);
    }
}

/// Members whose values can each be written can all be written.
pub proof fn lemma_all_members_writable(members: Seq<(Seq<char>, JsonValue)>)
    requires
        forall|k: int| 0 <= k < members.len() ==> writable(#[trigger] members[k].1),
    ensures
        writable(JsonValue::Object(members)),
{
    lemma_writable_members(members, members.len() as int);
}

proof fn lemma_writable_members(members: Seq<(Seq<char>, JsonValue)>, count: int)
    requires
        0 <= count <= members.len(),
        forall|k: int| 0 <= k < members.len() ==> writable(#[trigger] members[k].1),
    ensures
        writable_members(members, count),
    decreases count,
{
    if count > 0 {
        lemma_writable_members(members, count - 1);
    }
}

/// Writes a document as JSON text; `None` where the document holds a number
/// with a fraction.
pub fn render(j: &Json) -> (r: Option<String>)
    ensures
        r is Some <==> writable(j@),
        r matches Some(text) ==> text@ == rendered(j@),
{
    let mut out = String::new();
    if write(&mut out, j) {
        Some(out)
    } else {
        None
    }
}

} // verus!
