//! JSON documents as plain values, and the mathematical model that the
//! contracts of this crate are stated over.

use crate::text::same_text;
use vstd::prelude::*;
use vstd::string::StringExecFns;

verus! {

/// A JSON number.
///
/// An integer keeps its value. A number written with a fraction or an
/// exponent is kept as the bit pattern of its binary64 value.
#[derive(Clone, Copy, Debug, PartialEq, Eq, Structural)]
pub enum JsonNumber {
    /// An integer from 0 to 2^64 - 1.
    Unsigned(u64),
    /// An integer below 0.
    Signed(i64),
    /// Any other number, as binary64 bits.
    Real(u64),
}

/// A JSON document.
///
/// The members of an object are kept in the order in which they were given;
/// nothing stops two of them from having the same name.
#[derive(Debug, PartialEq)]
pub enum Json {
    Null,
    Bool(bool),
    Number(JsonNumber),
    String(String),
    Array(Vec<Json>),
    Object(Vec<(String, Json)>),
}

/// The mathematical model of a [`Json`] document.
pub enum JsonValue {
    Null,
    Bool(bool),
    Number(JsonNumber),
    String(Seq<char>),
    Array(Seq<JsonValue>),
    Object(Seq<(Seq<char>, JsonValue)>),
}

impl View for Json {
    type V = JsonValue;

    open spec fn view(&self) -> JsonValue
        decreases self,
    {
        match self {
            Json::Null => JsonValue::Null,
            Json::Bool(b) => JsonValue::Bool(*b),
            Json::Number(n) => JsonValue::Number(*n),
            Json::String(s) => JsonValue::String(s@),
            Json::Array(items) => JsonValue::Array(
                Seq::new(
                    items@.len(),
                    |i: int|
                        if 0 <= i < items@.len() {
                            items@[i]@
                        } else {
                            JsonValue::Null
                        },
                ),
            ),
            Json::Object(members) => JsonValue::Object(
                Seq::new(
                    members@.len(),
                    |i: int|
                        if 0 <= i < members@.len() {
                            (members@[i].0@, members@[i].1@)
                        } else {
                            (Seq::empty(), JsonValue::Null)
                        },
                ),
            ),
        }
    }
}

/// The place of the first member from `from` on that is named `name`.
pub open spec fn first_named(members: Seq<(Seq<char>, JsonValue)>, name: Seq<char>, from: int) -> Option<int>
    decreases members.len() - from,
{
    if from < 0 || from >= members.len() {
        None
    } else if members[from].0 == name {
        Some(from)
    } else {
        first_named(members, name, from + 1)
    }
}

/// [`first_named`] finds the first member of that name, and finds none only
/// where there is none.
pub proof fn lemma_first_named(members: Seq<(Seq<char>, JsonValue)>, name: Seq<char>, from: int)
    requires
        0 <= from,
    ensures
        match first_named(members, name, from) {
            Some(at) => {
                &&& from <= at < members.len()
                &&& members[at].0 == name
                &&& forall|k: int| from <= k < at ==> (#[trigger] members[k]).0 != name
            },
            None => forall|k: int| from <= k < members.len() ==> (#[trigger] members[k]).0 != name,
        },
    decreases members.len() - from,
{
    if from < members.len() && members[from].0 != name {
        lemma_first_named(members, name, from + 1);
    }
}

/// The members of an object's model are those of the object, in order.
pub proof fn lemma_object_view(j: Json)
    requires
        j is Object,
    ensures
        j@ is Object,
        j@->Object_0.len() == j->Object_0@.len(),
        forall|k: int|
            0 <= k < j->Object_0@.len() ==> (#[trigger] j@->Object_0[k]) == (j->Object_0@[k].0@, j->Object_0@[k].1@),
{
    reveal_with_fuel(<Json as View>::view, 2);
}

/// The items of an array's model are those of the array, in order.
pub proof fn lemma_array_view(j: Json)
    requires
        j is Array,
    ensures
        j@ is Array,
        j@->Array_0.len() == j->Array_0@.len(),
        forall|k: int| 0 <= k < j->Array_0@.len() ==> (#[trigger] j@->Array_0[k]) == j->Array_0@[k]@,
{
    reveal_with_fuel(<Json as View>::view, 2);
}

impl JsonValue {
    /// The place of the first member named `name` among the members.
    pub open spec fn place(self, name: Seq<char>) -> int {
        first_named(self->Object_0, name, 0)->Some_0
    }

    /// The value of the first member named `name`, if this is an object that
    /// has one.
    pub open spec fn member(self, name: Seq<char>) -> Option<JsonValue> {
        match self {
            JsonValue::Object(members) => match first_named(members, name, 0) {
                Some(at) => Some(members[at].1),
                None => None,
            },
            _ => None,
        }
    }
}

impl Clone for Json {
    fn clone(&self) -> (r: Json)
        ensures
            r@ == self@,
        decreases self,
    {
        match self {
            Json::Null => Json::Null,
            Json::Bool(b) => Json::Bool(*b),
            Json::Number(n) => Json::Number(*n),
            Json::String(s) => Json::String(s.clone()),
            Json::Array(items) => {
                let mut out: Vec<Json> = Vec::new();
                let mut i: usize = 0;
                while i < items.len()
                    invariant
                        i <= items.len(),
                        out.len() == i,
                        *self == Json::Array(*items),
                        forall|k: int| 0 <= k < i ==> (#[trigger] out[k])@ == items[k]@,
                    decreases items.len() - i,
                {
                    proof {
                        let children = self->Array_0;
                        assert(decreases_to!(*self => children));
                        assert(decreases_to!(children => children[i as int]));
                    }
                    out.push(items[i].clone());
                    i += 1;
                }
                let r = Json::Array(out);
                proof {
                    lemma_array_view(*self);
                    lemma_array_view(r);
                    assert(r@->Array_0 =~= self@->Array_0);
                }
                r
            },
            Json::Object(members) => {
                let mut out: Vec<(String, Json)> = Vec::new();
                let mut i: usize = 0;
                while i < members.len()
                    invariant
                        i <= members.len(),
                        out.len() == i,
                        *self == Json::Object(*members),
                        forall|k: int| 0 <= k < i ==> (#[trigger] out[k]).0@ == members[k].0@,
                        forall|k: int| 0 <= k < i ==> (#[trigger] out[k]).1@ == members[k].1@,
                    decreases members.len() - i,
                {
                    proof {
                        let children = self->Object_0;
                        assert(decreases_to!(*self => children));
                        assert(decreases_to!(children => children[i as int]));
                        assert(decreases_to!(children[i as int] => children[i as int].1));
                    }
                    out.push((members[i].0.clone(), members[i].1.clone()));
                    i += 1;
                }
                let r = Json::Object(out);
                proof {
                    lemma_object_view(*self);
                    lemma_object_view(r);
                    assert(r@->Object_0 =~= self@->Object_0);
                }
                r
            },
        }
    }
}

impl Json {
    /// The first member named `name` and its place among the members, if the
    /// document is an object that has one.
    pub fn find(&self, name: &str) -> (r: Option<(usize, &Json)>)
        ensures
            match r {
                Some((place, value)) => self@ is Object && first_named(self@->Object_0, name@, 0) == Some(place as int)
                    && self@.member(name@) == Some(value@),
                None => self@.member(name@) is None,
            },
    {
        match self {
            Json::Object(members) => {
                let ghost model = self@->Object_0;
                proof {
                    lemma_object_view(*self);
                }
                let mut i: usize = 0;
                while i < members.len()
                    invariant
                        i <= members.len(),
                        self@ == JsonValue::Object(model),
                        model.len() == members.len(),
                        forall|k: int|
                            0 <= k < members.len() ==> (#[trigger] model[k]) == (members[k].0@, members[k].1@),
                        first_named(model, name@, 0) == first_named(model, name@, i as int),
                    decreases members.len() - i,
                {
                    if same_text(members[i].0.as_str(), name) {
                        return Some((i, &members[i].1));
                    }
                    i += 1;
                }
                None
            },
            _ => None,
        }
    }

    /// Whether the document is `null`.
    pub fn is_null(&self) -> (r: bool)
        ensures
            r == (self@ is Null),
    {
        match self {
            Json::Null => true,
            _ => false,
        }
    }

    /// Whether the document is an object.
    pub fn is_object(&self) -> (r: bool)
        ensures
            r == (self@ is Object),
    {
        match self {
            Json::Object(_) => true,
            _ => false,
        }
    }

    /// The value of the first member named `name`, if the document is an
    /// object that has one.
    pub fn get(&self, name: &str) -> (r: Option<&Json>)
        ensures
            match r {
                Some(value) => self@.member(name@) == Some(value@),
                None => self@.member(name@) is None,
            },
    {
        match self {
            Json::Object(members) => {
                let ghost model = self@->Object_0;
                proof {
                    lemma_object_view(*self);
                }
                let mut i: usize = 0;
                while i < members.len()
                    invariant
                        i <= members.len(),
                        self@ == JsonValue::Object(model),
                        model.len() == members.len(),
                        forall|k: int| 0 <= k < members.len() ==> (#[trigger] model[k]) ==(
                            members[k].0@,
                            members[k].1@,
                        ),
                        first_named(model, name@, 0) == first_named(model, name@, i as int),
                    decreases members.len() - i,
                {
                    if same_text(members[i].0.as_str(), name) {
                        return Some(&members[i].1);
                    }
                    i += 1;
                }
                None
            },
            _ => None,
        }
    }
}

/// An object in the making: its members so far, in the order in which they
/// were given.
pub struct ObjectWriter {
    members: Vec<(String, Json)>,
}

impl ObjectWriter {
    /// The members written so far.
    pub closed spec fn model(&self) -> Seq<(Seq<char>, JsonValue)> {
        Seq::new(self.members@.len(), |i: int| (self.members@[i].0@, self.members@[i].1@))
    }

    /// An object without members.
    pub fn new() -> (r: ObjectWriter)
        ensures
            r.model() == Seq::<(Seq<char>, JsonValue)>::empty(),
    {
        let r = ObjectWriter { members: Vec::new() };
        assert(r.model() =~= Seq::<(Seq<char>, JsonValue)>::empty());
        r
    }

    /// Adds the member `name` with the value `value`.
    pub fn with(self, name: &str, value: Json) -> (r: ObjectWriter)
        ensures
            r.model() == self.model().push((name@, value@)),
    {
        let mut members = self.members;
        members.push((String::from_str(name), value));
        let r = ObjectWriter { members };
        assert(r.model() =~= self.model().push((name@, value@)));
        r
    }

    /// Adds the members of the object `other`, in their order; nothing where
    /// `other` is no object.
    pub fn with_all(self, other: Json) -> (r: ObjectWriter)
        ensures
            r.model() == if other@ is Object {
                self.model() + other@->Object_0
            } else {
                self.model()
            },
    {
        let mut members = self.members;
        match other {
            Json::Object(mut more) => {
                proof {
                    lemma_object_view(other);
                }
                members.append(&mut more);
                let r = ObjectWriter { members };
                assert(r.model() =~= self.model() + other@->Object_0);
                r
            },
            _ => ObjectWriter { members },
        }
    }

    /// The object with the members written.
    pub fn done(self) -> (j: Json)
        ensures
            j@ == JsonValue::Object(self.model()),
    {
        let j = Json::Object(self.members);
        proof {
            lemma_object_view(j);
            assert(j@->Object_0 =~= self.model());
        }
        j
    }
}

/// The member of a name is the value at the first place that has the name.
pub proof fn lemma_member_at(members: Seq<(Seq<char>, JsonValue)>, name: Seq<char>, at: int)
    requires
        0 <= at < members.len(),
        members[at].0 == name,
        forall|k: int| 0 <= k < at ==> (#[trigger] members[k]).0 != name,
    ensures
        JsonValue::Object(members).member(name) == Some(members[at].1),
{
    lemma_first_named(members, name, 0);
}

/// Among members that come after others, the member of a name is the value
/// at the first place that has the name, as long as none of the others has
/// it.
pub proof fn lemma_member_among(
    before: Seq<(Seq<char>, JsonValue)>,
    members: Seq<(Seq<char>, JsonValue)>,
    name: Seq<char>,
    at: int,
)
    requires
        0 <= at < members.len(),
        members[at].0 == name,
        forall|k: int| 0 <= k < at ==> (#[trigger] members[k]).0 != name,
        forall|k: int| 0 <= k < before.len() ==> (#[trigger] before[k]).0 != name,
    ensures
        JsonValue::Object(before + members).member(name) == Some(members[at].1),
{
    let all = before + members;
    assert forall|k: int| 0 <= k < before.len() + at implies (#[trigger] all[k]).0 != name by {
        if k < before.len() {
            assert(all[k] == before[k]);
        } else {
            assert(all[k] == members[k - before.len()]);
        }
    }
    assert(all[before.len() + at] == members[at]);
    lemma_member_at(all, name, before.len() + at);
}

} // verus!
