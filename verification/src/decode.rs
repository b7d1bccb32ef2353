//! Decoders: from a JSON document to a typed value.
//!
//! A decoder is stated by two spec functions. [`Decode::failure`] says on
//! which documents it fails, and with which error. [`Decode::reads`] says
//! which value a document stands for. Reading is all or nothing: a document
//! either fails or stands for a value, never both.

use crate::json::{lemma_array_view, lemma_object_view, Json, JsonNumber, JsonValue};
use crate::text::same_text;
use vstd::prelude::*;
use vstd::string::StringExecFns;

verus! {

/// The ways in which a document can fail to be the value that was asked for.
#[derive(Clone, Copy, Debug, PartialEq, Eq, Structural)]
pub enum ErrorKind {
    /// The text is not JSON.
    Syntax,
    /// The document has not the JSON type that the target needs.
    WrongType,
    /// An integer does not fit the target.
    OutOfRange,
    /// An object lacks a member that the target needs; the subject is its name.
    MissingField,
    /// The text of a quoted scalar is no scalar; the subject names the field.
    InvalidScalar,
    /// A member's name is no index; the subject is the name.
    InvalidIndexKey,
    /// Two members' names stand for the same index; the subject is the second name.
    DuplicateIndex,
    /// The indices of an object leave a gap.
    IncompleteIndexRange,
    /// A discriminator names no variant; the subject is the discriminator.
    UnknownTag,
    /// A string is not among the tokens of an enumeration; the subject is the string.
    UnknownToken,
    /// A document has none of the shapes that a variant set knows.
    UnrecognizedShape,
    /// A document is no tier: neither a number from 0 to 3 nor the text of one.
    NotATier,
    /// A string is not the name of a world.
    NotAWorld,
    /// A set holds an item twice, or a mapping a key; for a key the subject
    /// is the name that repeats it.
    Repeated,
}

/// Why a document could not be read.
#[derive(Clone, Debug, PartialEq, Eq)]
pub struct DecodeError {
    pub kind: ErrorKind,
    /// What the error is about: a field, a tag, a token or a key; empty where
    /// the kind alone says it all.
    pub subject: String,
    /// The way from the value at fault up to the document: at each step the
    /// place of an item or a member among its like, the innermost step first.
    pub path: Vec<usize>,
}

/// The model of a [`DecodeError`].
pub struct DecodeFault {
    pub kind: ErrorKind,
    pub subject: Seq<char>,
    pub path: Seq<usize>,
}

impl View for DecodeError {
    type V = DecodeFault;

    open spec fn view(&self) -> DecodeFault {
        DecodeFault { kind: self.kind, subject: self.subject@, path: self.path@ }
    }
}

/// The fault of kind `kind` about `subject`.
pub open spec fn fault(kind: ErrorKind, subject: Seq<char>) -> DecodeFault {
    DecodeFault { kind, subject, path: Seq::empty() }
}

/// The fault of kind `kind` about nothing in particular.
pub open spec fn plain_fault(kind: ErrorKind) -> DecodeFault {
    DecodeFault { kind, subject: Seq::empty(), path: Seq::empty() }
}

/// The fault, if there is one, as it is seen one step further out: from the
/// value that holds the value at fault at the place `step` among its items
/// or members.
pub open spec fn under(f: Option<DecodeFault>, step: int) -> Option<DecodeFault> {
    match f {
        Some(f) => Some(DecodeFault { kind: f.kind, subject: f.subject, path: f.path.push(step as usize) }),
        None => None,
    }
}

/// Faults in the order in which they are looked for.
pub trait Otherwise {
    /// This fault if there is one, `next` if not.
    spec fn otherwise(self, next: Self) -> Self;
}

impl Otherwise for Option<DecodeFault> {
    open spec fn otherwise(self, next: Self) -> Self {
        if self is Some {
            self
        } else {
            next
        }
    }
}

impl DecodeError {
    /// An error of kind `kind` about `subject`.
    pub fn new(kind: ErrorKind, subject: &str) -> (e: DecodeError)
        ensures
            e@ == fault(kind, subject@),
    {
        DecodeError { kind, subject: String::from_str(subject), path: Vec::new() }
    }

    /// An error of kind `kind` about nothing in particular.
    pub fn plain(kind: ErrorKind) -> (e: DecodeError)
        ensures
            e@ == plain_fault(kind),
    {
        DecodeError { kind, subject: String::new(), path: Vec::new() }
    }

    /// The error as it is seen one step further out: from the value that
    /// holds the value at fault at the place `step`.
    pub fn under(self, step: usize) -> (e: DecodeError)
        ensures
            Some(e@) == under(Some(self@), step as int),
    {
        let mut path = self.path;
        path.push(step);
        DecodeError { kind: self.kind, subject: self.subject, path }
    }
}

/// A type whose values can be read from a JSON document.
pub trait Decode: Sized {
    /// The fault that reading `j` ends in; `None` where `j` can be read.
    spec fn failure(j: JsonValue) -> Option<DecodeFault>;

    /// Whether `self` is the value that `j` stands for.
    spec fn reads(&self, j: JsonValue) -> bool;

    /// Reads a document.
    fn decode(j: &Json) -> (r: Result<Self, DecodeError>)
        ensures
            match r {
                Ok(v) => Self::failure(j@) is None && v.reads(j@),
                Err(e) => Self::failure(j@) == Some(e@),
            },
    ;
}

/// A type with a value that stands for "nothing given".
pub trait Fallback: Sized {
    /// Whether `self` is that value.
    spec fn is_fallback(&self) -> bool;

    /// That value.
    fn fallback() -> (r: Self)
        ensures
            r.is_fallback(),
    ;
}

/// The integer that a document holds, if it is an integer.
pub open spec fn integer_of(j: JsonValue) -> Option<int> {
    match j {
        JsonValue::Number(JsonNumber::Unsigned(n)) => Some(n as int),
        JsonValue::Number(JsonNumber::Signed(n)) => Some(n as int),
        _ => None,
    }
}

/// The fault of reading `j` as an integer from `min` to `max`.
pub open spec fn integer_failure(j: JsonValue, min: int, max: int) -> Option<DecodeFault> {
    match integer_of(j) {
        Some(n) => if min <= n <= max {
            None
        } else {
            Some(plain_fault(ErrorKind::OutOfRange))
        },
        None => Some(plain_fault(ErrorKind::WrongType)),
    }
}

impl Decode for bool {
    open spec fn failure(j: JsonValue) -> Option<DecodeFault> {
        if j is Bool {
            None
        } else {
            Some(plain_fault(ErrorKind::WrongType))
        }
    }

    open spec fn reads(&self, j: JsonValue) -> bool {
        j == JsonValue::Bool(*self)
    }

    fn decode(j: &Json) -> (r: Result<Self, DecodeError>) {
        match j {
            Json::Bool(b) => Ok(*b),
            _ => Err(DecodeError::plain(ErrorKind::WrongType)),
        }
    }
}

impl Decode for u64 {
    open spec fn failure(j: JsonValue) -> Option<DecodeFault> {
        integer_failure(j, 0, u64::MAX as int)
    }

    open spec fn reads(&self, j: JsonValue) -> bool {
        integer_of(j) == Some(*self as int)
    }

    fn decode(j: &Json) -> (r: Result<Self, DecodeError>) {
        match j {
            Json::Number(JsonNumber::Unsigned(n)) => Ok(*n),
            Json::Number(JsonNumber::Signed(n)) => {
                if *n >= 0 {
                    Ok(*n as u64)
                } else {
                    Err(DecodeError::plain(ErrorKind::OutOfRange))
                }
            },
            _ => Err(DecodeError::plain(ErrorKind::WrongType)),
        }
    }
}

impl Decode for u8 {
    open spec fn failure(j: JsonValue) -> Option<DecodeFault> {
        integer_failure(j, 0, u8::MAX as int)
    }

    open spec fn reads(&self, j: JsonValue) -> bool {
        integer_of(j) == Some(*self as int)
    }

    fn decode(j: &Json) -> (r: Result<Self, DecodeError>) {
        match j {
            Json::Number(JsonNumber::Unsigned(n)) => {
                if *n <= 255 {
                    Ok(*n as u8)
                } else {
                    Err(DecodeError::plain(ErrorKind::OutOfRange))
                }
            },
            Json::Number(JsonNumber::Signed(n)) => {
                if 0 <= *n && *n <= 255 {
                    Ok(*n as u8)
                } else {
                    Err(DecodeError::plain(ErrorKind::OutOfRange))
                }
            },
            _ => Err(DecodeError::plain(ErrorKind::WrongType)),
        }
    }
}

impl Decode for i64 {
    open spec fn failure(j: JsonValue) -> Option<DecodeFault> {
        integer_failure(j, i64::MIN as int, i64::MAX as int)
    }

    open spec fn reads(&self, j: JsonValue) -> bool {
        integer_of(j) == Some(*self as int)
    }

    fn decode(j: &Json) -> (r: Result<Self, DecodeError>) {
        match j {
            Json::Number(JsonNumber::Unsigned(n)) => {
                if *n <= 0x7fff_ffff_ffff_ffff {
                    Ok(*n as i64)
                } else {
                    Err(DecodeError::plain(ErrorKind::OutOfRange))
                }
            },
            Json::Number(JsonNumber::Signed(n)) => Ok(*n),
            _ => Err(DecodeError::plain(ErrorKind::WrongType)),
        }
    }
}

impl Decode for JsonNumber {
    open spec fn failure(j: JsonValue) -> Option<DecodeFault> {
        if j is Number {
            None
        } else {
            Some(plain_fault(ErrorKind::WrongType))
        }
    }

    open spec fn reads(&self, j: JsonValue) -> bool {
        j == JsonValue::Number(*self)
    }

    fn decode(j: &Json) -> (r: Result<Self, DecodeError>) {
        match j {
            Json::Number(n) => Ok(*n),
            _ => Err(DecodeError::plain(ErrorKind::WrongType)),
        }
    }
}

impl Decode for String {
    open spec fn failure(j: JsonValue) -> Option<DecodeFault> {
        if j is String {
            None
        } else {
            Some(plain_fault(ErrorKind::WrongType))
        }
    }

    open spec fn reads(&self, j: JsonValue) -> bool {
        j == JsonValue::String(self@)
    }

    fn decode(j: &Json) -> (r: Result<Self, DecodeError>) {
        match j {
            Json::String(s) => Ok(s.clone()),
            _ => Err(DecodeError::plain(ErrorKind::WrongType)),
        }
    }
}

impl<T: Decode> Decode for Option<T> {
    open spec fn failure(j: JsonValue) -> Option<DecodeFault> {
        if j is Null {
            None
        } else {
            T::failure(j)
        }
    }

    open spec fn reads(&self, j: JsonValue) -> bool {
        match self {
            None => j is Null,
            Some(v) => !(j is Null) && v.reads(j),
        }
    }

    fn decode(j: &Json) -> (r: Result<Self, DecodeError>) {
        match j {
            Json::Null => Ok(None),
            _ => match T::decode(j) {
                Ok(v) => Ok(Some(v)),
                Err(e) => Err(e),
            },
        }
    }
}

/// The fault of the first item from `from` on that cannot be read as a `T`.
pub open spec fn first_failure<T: Decode>(items: Seq<JsonValue>, from: int) -> Option<DecodeFault>
    decreases items.len() - from,
{
    if from < 0 || from >= items.len() {
        None
    } else if T::failure(items[from]) is Some {
        under(T::failure(items[from]), from)
    } else {
        first_failure::<T>(items, from + 1)
    }
}

/// [`first_failure`] is `None` exactly where every item can be read.
pub proof fn lemma_first_failure<T: Decode>(items: Seq<JsonValue>, from: int)
    requires
        0 <= from,
    ensures
        first_failure::<T>(items, from) is None <==> forall|k: int|
            from <= k < items.len() ==> T::failure(#[trigger] items[k]) is None,
    decreases items.len() - from,
{
    if from < items.len() {
        lemma_first_failure::<T>(items, from + 1);
    }
}

impl<T: Decode> Decode for Vec<T> {
    open spec fn failure(j: JsonValue) -> Option<DecodeFault> {
        match j {
            JsonValue::Array(items) => first_failure::<T>(items, 0),
            _ => Some(plain_fault(ErrorKind::WrongType)),
        }
    }

    open spec fn reads(&self, j: JsonValue) -> bool {
        &&& j is Array
        &&& j->Array_0.len() == self@.len()
        &&& forall|k: int| 0 <= k < self@.len() ==> (#[trigger] self@[k]).reads(j->Array_0[k])
    }

    fn decode(j: &Json) -> (r: Result<Self, DecodeError>) {
        match j {
            Json::Array(items) => {
                let ghost models = j@->Array_0;
                proof {
                    lemma_array_view(*j);
                }
                let mut out: Vec<T> = Vec::new();
                let mut i: usize = 0;
                while i < items.len()
                    invariant
                        i <= items.len(),
                        out.len() == i,
                        j@ == JsonValue::Array(models),
                        models.len() == items.len(),
                        forall|k: int| 0 <= k < items.len() ==> (#[trigger] models[k]) == items[k]@,
                        forall|k: int| 0 <= k < i ==> (#[trigger] out@[k]).reads(models[k]),
                        first_failure::<T>(models, 0) == first_failure::<T>(models, i as int),
                    decreases items.len() - i,
                {
                    assert(models[i as int] == items[i as int]@);
                    match T::decode(&items[i]) {
                        Ok(v) => {
                            out.push(v);
                        },
                        Err(e) => {
                            return Err(e.under(i));
                        },
                    }
                    i += 1;
                }
                proof {
                    lemma_first_failure::<T>(models, 0);
                    lemma_first_failure::<T>(models, i as int);
                }
                Ok(out)
            },
            _ => Err(DecodeError::plain(ErrorKind::WrongType)),
        }
    }
}

impl Decode for Json {
    open spec fn failure(j: JsonValue) -> Option<DecodeFault> {
        None
    }

    open spec fn reads(&self, j: JsonValue) -> bool {
        self@ == j
    }

    fn decode(j: &Json) -> (r: Result<Self, DecodeError>) {
        Ok(j.clone())
    }
}

/// A type whose values can be read from the name of a member.
pub trait Key: Sized {
    /// Whether `name` stands for a key.
    spec fn admits(name: Seq<char>) -> bool;

    /// Whether `self` is the key that `name` stands for.
    spec fn named(&self, name: Seq<char>) -> bool;

    /// Whether two names stand for one key.
    spec fn same_key(a: Seq<char>, b: Seq<char>) -> bool;

    /// Reads a name.
    fn from_name(name: &str) -> (r: Option<Self>)
        ensures
            match r {
                Some(key) => Self::admits(name@) && key.named(name@),
                None => !Self::admits(name@),
            },
    ;

    /// Whether the two are one key.
    fn same(&self, other: &Self) -> (r: bool)
        ensures
            forall|a: Seq<char>, b: Seq<char>|
                #![trigger self.named(a), other.named(b)]
                self.named(a) && other.named(b) ==> r == Self::same_key(a, b),
    ;
}

impl Key for String {
    open spec fn admits(name: Seq<char>) -> bool {
        true
    }

    open spec fn named(&self, name: Seq<char>) -> bool {
        self@ == name
    }

    open spec fn same_key(a: Seq<char>, b: Seq<char>) -> bool {
        a == b
    }

    fn from_name(name: &str) -> (r: Option<Self>) {
        Some(String::from_str(name))
    }

    fn same(&self, other: &Self) -> (r: bool) {
        same_text(self.as_str(), other.as_str())
    }
}

/// Whether the name of the member at `at` stands for the key of a member
/// before it.
pub open spec fn repeats_key<K: Key>(members: Seq<(Seq<char>, JsonValue)>, at: int) -> bool {
    exists|k: int| 0 <= k < at && K::same_key(#[trigger] members[k].0, members[at].0)
}

/// The fault of the member at `at` read as an entry: its name is no key, its
/// value cannot be read, or its key was given before.
pub open spec fn entry_failure<K: Key, V: Decode>(members: Seq<(Seq<char>, JsonValue)>, at: int) -> Option<
    DecodeFault,
> {
    if !K::admits(members[at].0) {
        under(Some(fault(ErrorKind::UnknownToken, members[at].0)), at)
    } else if V::failure(members[at].1) is Some {
        under(V::failure(members[at].1), at)
    } else if repeats_key::<K>(members, at) {
        under(Some(fault(ErrorKind::Repeated, members[at].0)), at)
    } else {
        None
    }
}

/// The fault of the first member from `from` on that cannot be read as an
/// entry.
pub open spec fn first_entry_failure<K: Key, V: Decode>(
    members: Seq<(Seq<char>, JsonValue)>,
    from: int,
) -> Option<DecodeFault>
    decreases members.len() - from,
{
    if from < 0 || from >= members.len() {
        None
    } else if entry_failure::<K, V>(members, from) is Some {
        entry_failure::<K, V>(members, from)
    } else {
        first_entry_failure::<K, V>(members, from + 1)
    }
}

/// [`first_entry_failure`] is `None` exactly where every member can be read.
pub proof fn lemma_first_entry_failure<K: Key, V: Decode>(members: Seq<(Seq<char>, JsonValue)>, from: int)
    requires
        0 <= from,
    ensures
        first_entry_failure::<K, V>(members, from) is None <==> forall|k: int|
            from <= k < members.len() ==> (#[trigger] entry_failure::<K, V>(members, k)) is None,
    decreases members.len() - from,
{
    if from < members.len() {
        lemma_first_entry_failure::<K, V>(members, from + 1);
    }
}

/// A mapping, kept as its entries in the order of the object's members. No
/// key comes twice: an object that gives one is refused.
impl<K: Key, V: Decode> Decode for Vec<(K, V)> {
    open spec fn failure(j: JsonValue) -> Option<DecodeFault> {
        match j {
            JsonValue::Object(members) => first_entry_failure::<K, V>(members, 0),
            _ => Some(plain_fault(ErrorKind::WrongType)),
        }
    }

    open spec fn reads(&self, j: JsonValue) -> bool {
        &&& j is Object
        &&& j->Object_0.len() == self@.len()
        &&& forall|k: int|
            0 <= k < self@.len() ==> (#[trigger] self@[k]).0.named(j->Object_0[k].0) && self@[k].1.reads(
                j->Object_0[k].1,
            )
        &&& forall|k: int| 0 <= k < self@.len() ==> !(#[trigger] repeats_key::<K>(j->Object_0, k))
    }

    fn decode(j: &Json) -> (r: Result<Self, DecodeError>) {
        match j {
            Json::Object(members) => {
                let ghost models = j@->Object_0;
                proof {
                    lemma_object_view(*j);
                }
                let mut out: Vec<(K, V)> = Vec::new();
                let mut i: usize = 0;
                while i < members.len()
                    invariant
                        i <= members.len(),
                        out.len() == i,
                        j@ == JsonValue::Object(models),
                        models.len() == members.len(),
                        forall|k: int|
                            0 <= k < members.len() ==> (#[trigger] models[k]) == (members[k].0@, members[k].1@),
                        forall|k: int|
                            0 <= k < i ==> (#[trigger] out@[k]).0.named(models[k].0) && out@[k].1.reads(models[k].1),
                        forall|k: int| 0 <= k < i ==> !(#[trigger] repeats_key::<K>(models, k)),
                        first_entry_failure::<K, V>(models, 0) == first_entry_failure::<K, V>(models, i as int),
                    decreases members.len() - i,
                {
                    assert(models[i as int] == (members[i as int].0@, members[i as int].1@));
                    let key = match K::from_name(members[i].0.as_str()) {
                        Some(key) => key,
                        None => {
                            return Err(DecodeError::new(ErrorKind::UnknownToken, members[i].0.as_str()).under(i));
                        },
                    };
                    let value = match V::decode(&members[i].1) {
                        Ok(value) => value,
                        Err(e) => {
                            return Err(e.under(i));
                        },
                    };
                    let mut k: usize = 0;
                    while k < i
                        invariant
                            k <= i,
                            i < members.len(),
                            out.len() == i,
                            models.len() == members.len(),
                            key.named(models[i as int].0),
                            j@ == JsonValue::Object(models),
                            models[i as int] == (members[i as int].0@, members[i as int].1@),
                            K::admits(models[i as int].0),
                            V::failure(models[i as int].1) is None,
                            first_entry_failure::<K, V>(models, 0) == first_entry_failure::<K, V>(models, i as int),
                            forall|n: int| 0 <= n < i ==> (#[trigger] out@[n]).0.named(models[n].0),
                            forall|n: int| 0 <= n < k ==> !K::same_key(#[trigger] models[n].0, models[i as int].0),
                        decreases i - k,
                    {
                        assert(out@[k as int].0.named(models[k as int].0));
                        if out[k].0.same(&key) {
                            assert(K::same_key(models[k as int].0, models[i as int].0));
                            assert(repeats_key::<K>(models, i as int));
                            return Err(DecodeError::new(ErrorKind::Repeated, members[i].0.as_str()).under(i));
                        }
                        k += 1;
                    }
                    assert(!repeats_key::<K>(models, i as int));
                    out.push((key, value));
                    i += 1;
                }
                proof {
                    lemma_first_entry_failure::<K, V>(models, 0);
                    lemma_first_entry_failure::<K, V>(models, i as int);
                }
                Ok(out)
            },
            _ => Err(DecodeError::plain(ErrorKind::WrongType)),
        }
    }
}

/// A type whose values can be the items of a set.
pub trait SetItem: Decode {
    /// Whether two documents stand for one item.
    spec fn same_item(x: JsonValue, y: JsonValue) -> bool;

    /// Whether the two are one item.
    fn alike(&self, other: &Self) -> (r: bool)
        ensures
            forall|x: JsonValue, y: JsonValue|
                #![trigger self.reads(x), other.reads(y)]
                self.reads(x) && other.reads(y) ==> r == Self::same_item(x, y),
    ;
}

impl SetItem for String {
    open spec fn same_item(x: JsonValue, y: JsonValue) -> bool {
        x == y
    }

    fn alike(&self, other: &Self) -> (r: bool) {
        same_text(self.as_str(), other.as_str())
    }
}

/// Whether the item at `at` stands for an item before it.
pub open spec fn repeats_item<T: SetItem>(items: Seq<JsonValue>, at: int) -> bool {
    exists|k: int| 0 <= k < at && T::same_item(#[trigger] items[k], items[at])
}

/// The place of the first item from `from` on that stands for an item before
/// it.
pub open spec fn first_repeat<T: SetItem>(items: Seq<JsonValue>, from: int) -> Option<int>
    decreases items.len() - from,
{
    if from < 0 || from >= items.len() {
        None
    } else if repeats_item::<T>(items, from) {
        Some(from)
    } else {
        first_repeat::<T>(items, from + 1)
    }
}

/// [`first_repeat`] is `None` exactly where no item stands for one before
/// it.
pub proof fn lemma_first_repeat<T: SetItem>(items: Seq<JsonValue>, from: int)
    requires
        0 <= from,
    ensures
        first_repeat::<T>(items, from) is None <==> forall|k: int|
            from <= k < items.len() ==> !(#[trigger] repeats_item::<T>(items, k)),
    decreases items.len() - from,
{
    if from < items.len() {
        lemma_first_repeat::<T>(items, from + 1);
    }
}

/// A set, written as an array and kept as its items in the order of the
/// array. No item comes twice: an array that gives one is refused.
#[derive(Debug)]
pub struct Distinct<T>(pub Vec<T>);

impl<T: SetItem> Decode for Distinct<T> {
    open spec fn failure(j: JsonValue) -> Option<DecodeFault> {
        Vec::<T>::failure(j).otherwise(
            match first_repeat::<T>(j->Array_0, 0) {
                Some(at) => under(Some(plain_fault(ErrorKind::Repeated)), at),
                None => None,
            },
        )
    }

    open spec fn reads(&self, j: JsonValue) -> bool {
        &&& self.0.reads(j)
        &&& first_repeat::<T>(j->Array_0, 0) is None
    }

    fn decode(j: &Json) -> (r: Result<Self, DecodeError>) {
        let items = Vec::<T>::decode(j)?;
        let ghost models = j@->Array_0;
        let mut b: usize = 0;
        while b < items.len()
            invariant
                b <= items.len(),
                items.reads(j@),
                models == j@->Array_0,
                Vec::<T>::failure(j@) is None,
                first_repeat::<T>(models, 0) == first_repeat::<T>(models, b as int),
            decreases items.len() - b,
        {
            let mut a: usize = 0;
            while a < b
                invariant
                    a <= b,
                    b < items.len(),
                    items.reads(j@),
                    models == j@->Array_0,
                    Vec::<T>::failure(j@) is None,
                    first_repeat::<T>(models, 0) == first_repeat::<T>(models, b as int),
                    forall|n: int| 0 <= n < a ==> !T::same_item(#[trigger] models[n], models[b as int]),
                decreases b - a,
            {
                assert(items@[a as int].reads(models[a as int]));
                assert(items@[b as int].reads(models[b as int]));
                if items[a].alike(&items[b]) {
                    assert(T::same_item(models[a as int], models[b as int]));
                    assert(repeats_item::<T>(models, b as int));
                    return Err(DecodeError::plain(ErrorKind::Repeated).under(b));
                }
                a += 1;
            }
            assert(!repeats_item::<T>(models, b as int));
            b += 1;
        }
        Ok(Distinct(items))
    }
}

impl<T> Fallback for Distinct<T> {
    open spec fn is_fallback(&self) -> bool {
        self.0@.len() == 0
    }

    fn fallback() -> (r: Self) {
        Distinct(Vec::new())
    }
}

/// A pair, written as an array of 2 items.
#[derive(Debug)]
pub struct Pair<A, B>(pub (A, B));

impl<A: Decode, B: Decode> Decode for Pair<A, B> {
    open spec fn failure(j: JsonValue) -> Option<DecodeFault> {
        match j {
            JsonValue::Array(items) => if items.len() != 2 {
                Some(plain_fault(ErrorKind::WrongType))
            } else {
                under(A::failure(items[0]), 0).otherwise(under(B::failure(items[1]), 1))
            },
            _ => Some(plain_fault(ErrorKind::WrongType)),
        }
    }

    open spec fn reads(&self, j: JsonValue) -> bool {
        &&& j is Array
        &&& j->Array_0.len() == 2
        &&& self.0.0.reads(j->Array_0[0])
        &&& self.0.1.reads(j->Array_0[1])
    }

    fn decode(j: &Json) -> (r: Result<Self, DecodeError>) {
        match j {
            Json::Array(items) => {
                proof {
                    lemma_array_view(*j);
                }
                if items.len() != 2 {
                    return Err(DecodeError::plain(ErrorKind::WrongType));
                }
                let a = match A::decode(&items[0]) {
                    Ok(a) => a,
                    Err(e) => {
                        return Err(e.under(0));
                    },
                };
                let b = match B::decode(&items[1]) {
                    Ok(b) => b,
                    Err(e) => {
                        return Err(e.under(1));
                    },
                };
                Ok(Pair((a, b)))
            },
            _ => Err(DecodeError::plain(ErrorKind::WrongType)),
        }
    }
}

/// A triple, written as an array of 3 items.
#[derive(Debug)]
pub struct Triple<A, B, C>(pub (A, B, C));

impl<A: Decode, B: Decode, C: Decode> Decode for Triple<A, B, C> {
    open spec fn failure(j: JsonValue) -> Option<DecodeFault> {
        match j {
            JsonValue::Array(items) => if items.len() != 3 {
                Some(plain_fault(ErrorKind::WrongType))
            } else {
                under(A::failure(items[0]), 0)
                    .otherwise(under(B::failure(items[1]), 1))
                    .otherwise(under(C::failure(items[2]), 2))
            },
            _ => Some(plain_fault(ErrorKind::WrongType)),
        }
    }

    open spec fn reads(&self, j: JsonValue) -> bool {
        &&& j is Array
        &&& j->Array_0.len() == 3
        &&& self.0.0.reads(j->Array_0[0])
        &&& self.0.1.reads(j->Array_0[1])
        &&& self.0.2.reads(j->Array_0[2])
    }

    fn decode(j: &Json) -> (r: Result<Self, DecodeError>) {
        match j {
            Json::Array(items) => {
                proof {
                    lemma_array_view(*j);
                }
                if items.len() != 3 {
                    return Err(DecodeError::plain(ErrorKind::WrongType));
                }
                let a = match A::decode(&items[0]) {
                    Ok(a) => a,
                    Err(e) => {
                        return Err(e.under(0));
                    },
                };
                let b = match B::decode(&items[1]) {
                    Ok(b) => b,
                    Err(e) => {
                        return Err(e.under(1));
                    },
                };
                let c = match C::decode(&items[2]) {
                    Ok(c) => c,
                    Err(e) => {
                        return Err(e.under(2));
                    },
                };
                Ok(Triple((a, b, c)))
            },
            _ => Err(DecodeError::plain(ErrorKind::WrongType)),
        }
    }
}

/// A quadruple, written as an array of 4 items.
#[derive(Debug)]
pub struct Quad<A, B, C, D>(pub (A, B, C, D));

impl<A: Decode, B: Decode, C: Decode, D: Decode> Decode for Quad<A, B, C, D> {
    open spec fn failure(j: JsonValue) -> Option<DecodeFault> {
        match j {
            JsonValue::Array(items) => if items.len() != 4 {
                Some(plain_fault(ErrorKind::WrongType))
            } else {
                under(A::failure(items[0]), 0)
                    .otherwise(under(B::failure(items[1]), 1))
                    .otherwise(under(C::failure(items[2]), 2))
                    .otherwise(under(D::failure(items[3]), 3))
            },
            _ => Some(plain_fault(ErrorKind::WrongType)),
        }
    }

    open spec fn reads(&self, j: JsonValue) -> bool {
        &&& j is Array
        &&& j->Array_0.len() == 4
        &&& self.0.0.reads(j->Array_0[0])
        &&& self.0.1.reads(j->Array_0[1])
        &&& self.0.2.reads(j->Array_0[2])
        &&& self.0.3.reads(j->Array_0[3])
    }

    fn decode(j: &Json) -> (r: Result<Self, DecodeError>) {
        match j {
            Json::Array(items) => {
                proof {
                    lemma_array_view(*j);
                }
                if items.len() != 4 {
                    return Err(DecodeError::plain(ErrorKind::WrongType));
                }
                let a = match A::decode(&items[0]) {
                    Ok(a) => a,
                    Err(e) => {
                        return Err(e.under(0));
                    },
                };
                let b = match B::decode(&items[1]) {
                    Ok(b) => b,
                    Err(e) => {
                        return Err(e.under(1));
                    },
                };
                let c = match C::decode(&items[2]) {
                    Ok(c) => c,
                    Err(e) => {
                        return Err(e.under(2));
                    },
                };
                let d = match D::decode(&items[3]) {
                    Ok(d) => d,
                    Err(e) => {
                        return Err(e.under(3));
                    },
                };
                Ok(Quad((a, b, c, d)))
            },
            _ => Err(DecodeError::plain(ErrorKind::WrongType)),
        }
    }
}

impl<A, B, C, D> Quad<A, B, C, D> {
    /// The quadruple that may be lacking, as one that can be read and written.
    pub open spec fn lift(place: Option<(A, B, C, D)>) -> Option<Quad<A, B, C, D>> {
        match place {
            Some(place) => Some(Quad(place)),
            None => None,
        }
    }

    /// The quadruple that may be lacking, as one that can be read and written.
    pub fn lifted(place: Option<(A, B, C, D)>) -> (r: Option<Quad<A, B, C, D>>)
        ensures
            r == Self::lift(place),
    {
        match place {
            Some(place) => Some(Quad(place)),
            None => None,
        }
    }
}

impl Fallback for bool {
    open spec fn is_fallback(&self) -> bool {
        !*self
    }

    fn fallback() -> (r: Self) {
        false
    }
}

impl Fallback for u8 {
    open spec fn is_fallback(&self) -> bool {
        *self == 0
    }

    fn fallback() -> (r: Self) {
        0
    }
}

impl Fallback for u64 {
    open spec fn is_fallback(&self) -> bool {
        *self == 0
    }

    fn fallback() -> (r: Self) {
        0
    }
}

impl Fallback for i64 {
    open spec fn is_fallback(&self) -> bool {
        *self == 0
    }

    fn fallback() -> (r: Self) {
        0
    }
}

impl Fallback for String {
    open spec fn is_fallback(&self) -> bool {
        self@.len() == 0
    }

    fn fallback() -> (r: Self) {
        String::new()
    }
}

impl<T> Fallback for Vec<T> {
    open spec fn is_fallback(&self) -> bool {
        self@.len() == 0
    }

    fn fallback() -> (r: Self) {
        Vec::new()
    }
}

} // verus!
