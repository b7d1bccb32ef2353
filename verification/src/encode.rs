//! Encoders: from a typed value to the JSON document that stands for it.
//!
//! Writing is the inverse of reading. What a well-formed value is written
//! as is read back as that value, two values that one document stands for
//! are written alike, and every value that is read is well formed.

use crate::decode::{
    first_repeat, lemma_first_entry_failure, lemma_first_failure, lemma_first_repeat, repeats_item, repeats_key,
    Decode, Distinct, Fallback, Key, Pair, Quad, SetItem, Triple,
};
use crate::fields::{
    aliased_failure, aliased_reads, defaulted_failure, defaulted_reads, filled_failure, filled_reads, member_or,
    optional_failure, optional_reads, quoted_failure, quoted_reads, required_failure, required_reads,
    with_default_failure, with_default_reads, WriteScalar,
};
use crate::json::{lemma_array_view, lemma_object_view, Json, JsonNumber, JsonValue};
use vstd::prelude::*;

verus! {

/// A type whose values can be written as JSON documents.
pub trait Encode: Decode {
    /// Whether the value is well formed: no set in it holds an item twice,
    /// and no mapping a key. Every value that is read is well formed.
    spec fn valid(&self) -> bool;

    /// The document that the value is written as.
    spec fn encoded(&self) -> JsonValue;

    /// Writes the value.
    fn encode(&self) -> (j: Json)
        ensures
            j@ == self.encoded(),
    ;

    /// What a well-formed value is written as can be read, and stands for the
    /// value. No value is written as `null`, which stands for the lack of
    /// one.
    proof fn lemma_read_back(&self)
        requires
            self.valid(),
        ensures
            Self::failure(self.encoded()) is None,
            self.reads(self.encoded()),
            !(self.encoded() is Null),
    ;

    /// Two values that one document stands for are written alike.
    proof fn lemma_one_reading(&self, other: &Self, j: JsonValue)
        requires
            Self::failure(j) is None,
            self.reads(j),
            other.reads(j),
        ensures
            self.encoded() == other.encoded(),
    ;

    /// A value that a document stands for is well formed.
    proof fn lemma_read_is_valid(&self, j: JsonValue)
        requires
            Self::failure(j) is None,
            self.reads(j),
        ensures
            self.valid(),
    ;
}

/// An item of a set that can be written.
pub trait WriteItem: SetItem + Encode {
    /// Two items are written as one item exactly where they were read from
    /// one item.
    proof fn lemma_same_item(&self, other: &Self, x: JsonValue, y: JsonValue)
        requires
            self.reads(x),
            other.reads(y),
        ensures
            Self::same_item(self.encoded(), other.encoded()) == Self::same_item(x, y),
    ;
}

/// A type whose fallback is written in one way only.
pub trait Blank: Encode + Fallback {
    /// Two fallbacks are written alike.
    proof fn lemma_fallbacks_alike(&self, other: &Self)
        requires
            self.is_fallback(),
            other.is_fallback(),
        ensures
            self.encoded() == other.encoded(),
    ;

    /// A fallback is well formed.
    proof fn lemma_fallback_is_valid(&self)
        requires
            self.is_fallback(),
        ensures
            self.valid(),
    ;
}

/// A key that can be written as the name of a member.
pub trait WriteKey: Key {
    /// The name that the key is written as.
    spec fn name(&self) -> Seq<char>;

    /// Writes the key.
    fn to_name(&self) -> (r: String)
        ensures
            r@ == self.name(),
    ;

    /// The name of the key is read back as the key.
    proof fn lemma_name_is_read(&self)
        ensures
            Self::admits(self.name()),
            self.named(self.name()),
    ;

    /// Two keys that one name stands for are written alike.
    proof fn lemma_one_key(&self, other: &Self, name: Seq<char>)
        requires
            self.named(name),
            other.named(name),
        ensures
            self.name() == other.name(),
    ;

    /// Two keys are written as one key exactly where they were read from
    /// names of one key.
    proof fn lemma_same_key(&self, other: &Self, a: Seq<char>, b: Seq<char>)
        requires
            self.named(a),
            other.named(b),
        ensures
            Self::same_key(self.name(), other.name()) == Self::same_key(a, b),
    ;
}

/// Writing a value and reading what was written gives the value back: the
/// reading does not fail, and whatever it gives is written as the value was.
pub proof fn lemma_round_trip<T: Encode>(value: &T, back: &T)
    requires
        value.valid(),
        back.reads(value.encoded()),
    ensures
        T::failure(value.encoded()) is None,
        back.encoded() == value.encoded(),
{
    value.lemma_read_back();
    back.lemma_one_reading(value, value.encoded());
}

/// What a required member stands for is well formed.
pub proof fn lemma_required_is_valid<T: Encode>(v: &T, j: JsonValue, name: Seq<char>)
    requires
        required_failure::<T>(j, name) is None,
        required_reads(*v, j, name),
    ensures
        v.valid(),
{
    v.lemma_read_is_valid(j.member(name)->Some_0);
}

/// What a member that goes by two names stands for is well formed.
pub proof fn lemma_aliased_is_valid<T: Encode>(v: &T, j: JsonValue, name: Seq<char>, alias: Seq<char>)
    requires
        aliased_failure::<T>(j, name, alias) is None,
        aliased_reads(*v, j, name, alias),
    ensures
        v.valid(),
{
    v.lemma_read_is_valid(member_or(j, name, alias)->Some_0);
}

/// What an optional member stands for is well formed.
pub proof fn lemma_optional_is_valid<T: Encode>(v: Option<T>, j: JsonValue, name: Seq<char>)
    requires
        optional_failure::<T>(j, name) is None,
        optional_reads(v, j, name),
    ensures
        valid_option(v),
{
    if let Some(value) = v {
        value.lemma_read_is_valid(j.member(name)->Some_0);
    }
}

/// What a member with a fallback stands for is well formed.
pub proof fn lemma_defaulted_is_valid<T: Blank>(v: &T, j: JsonValue, name: Seq<char>)
    requires
        defaulted_failure::<T>(j, name) is None,
        defaulted_reads(*v, j, name),
    ensures
        v.valid(),
{
    if j.member(name) is Some {
        v.lemma_read_is_valid(j.member(name)->Some_0);
    } else {
        v.lemma_fallback_is_valid();
    }
}

/// What a member that falls back on a default stands for is well formed.
pub proof fn lemma_filled_is_valid<T: Blank>(v: &T, j: JsonValue, name: Seq<char>)
    requires
        filled_failure::<T>(j, name) is None,
        filled_reads(*v, j, name),
    ensures
        v.valid(),
{
    if j.member(name) is Some && !(j.member(name)->Some_0 is Null) {
        v.lemma_read_is_valid(j.member(name)->Some_0);
    } else {
        v.lemma_fallback_is_valid();
    }
}

/// A required member that holds what `v` is written as is read as `v`.
pub proof fn lemma_required_read_back<T: Encode>(v: &T, j: JsonValue, name: Seq<char>)
    requires
        v.valid(),
        j is Object,
        j.member(name) == Some(v.encoded()),
    ensures
        required_failure::<T>(j, name) is None,
        required_reads(*v, j, name),
{
    v.lemma_read_back();
}

/// Two values that one required member stands for are written alike.
pub proof fn lemma_required_one_reading<T: Encode>(a: &T, b: &T, j: JsonValue, name: Seq<char>)
    requires
        required_failure::<T>(j, name) is None,
        required_reads(*a, j, name),
        required_reads(*b, j, name),
    ensures
        a.encoded() == b.encoded(),
{
    a.lemma_one_reading(b, j.member(name)->Some_0);
}

/// A member that goes by two names and holds, under the first, what `v` is
/// written as is read as `v`.
pub proof fn lemma_aliased_read_back<T: Encode>(v: &T, j: JsonValue, name: Seq<char>, alias: Seq<char>)
    requires
        v.valid(),
        j is Object,
        j.member(name) == Some(v.encoded()),
    ensures
        aliased_failure::<T>(j, name, alias) is None,
        aliased_reads(*v, j, name, alias),
{
    v.lemma_read_back();
}

/// Two values that one member that goes by two names stands for are written
/// alike.
pub proof fn lemma_aliased_one_reading<T: Encode>(a: &T, b: &T, j: JsonValue, name: Seq<char>, alias: Seq<char>)
    requires
        aliased_failure::<T>(j, name, alias) is None,
        aliased_reads(*a, j, name, alias),
        aliased_reads(*b, j, name, alias),
    ensures
        a.encoded() == b.encoded(),
{
    a.lemma_one_reading(b, member_or(j, name, alias)->Some_0);
}

/// The document that a scalar sent as text is written as.
pub open spec fn encoded_quoted<T: WriteScalar>(v: T) -> JsonValue {
    JsonValue::String(v.text())
}

/// Writes a scalar as text.
pub fn encode_quoted<T: WriteScalar>(v: &T) -> (j: Json)
    ensures
        j@ == encoded_quoted(*v),
{
    Json::String(v.to_text())
}

/// A member that holds the text of the scalar `v` is read as `v`.
pub proof fn lemma_quoted_read_back<T: WriteScalar>(v: &T, j: JsonValue, name: Seq<char>)
    requires
        j is Object,
        j.member(name) == Some(encoded_quoted(*v)),
    ensures
        quoted_failure::<T>(j, name) is None,
        quoted_reads(*v, j, name),
{
    v.lemma_text_is_read();
}

/// Two scalars that the text of one member stands for are written alike.
pub proof fn lemma_quoted_one_reading<T: WriteScalar>(a: &T, b: &T, j: JsonValue, name: Seq<char>)
    requires
        quoted_reads(*a, j, name),
        quoted_reads(*b, j, name),
    ensures
        encoded_quoted(*a) == encoded_quoted(*b),
{
}

/// An optional member that holds what `v` is written as is read as `v`.
pub proof fn lemma_optional_read_back<T: Encode>(v: Option<T>, j: JsonValue, name: Seq<char>)
    requires
        valid_option(v),
        j is Object,
        j.member(name) == Some(encoded_option(v)),
    ensures
        optional_failure::<T>(j, name) is None,
        optional_reads(v, j, name),
{
    lemma_option_read_back(v);
}

/// Two values that one optional member stands for are written alike.
pub proof fn lemma_optional_one_reading<T: Encode>(a: Option<T>, b: Option<T>, j: JsonValue, name: Seq<char>)
    requires
        optional_failure::<T>(j, name) is None,
        optional_reads(a, j, name),
        optional_reads(b, j, name),
    ensures
        encoded_option(a) == encoded_option(b),
{
    if j.member(name) is Some {
        lemma_option_one_reading(a, b, j.member(name)->Some_0);
    }
}

/// A member with a fallback that holds what `v` is written as is read as `v`.
pub proof fn lemma_defaulted_read_back<T: Encode + Fallback>(v: &T, j: JsonValue, name: Seq<char>)
    requires
        v.valid(),
        j is Object,
        j.member(name) == Some(v.encoded()),
    ensures
        defaulted_failure::<T>(j, name) is None,
        defaulted_reads(*v, j, name),
        filled_failure::<T>(j, name) is None,
        filled_reads(*v, j, name),
{
    v.lemma_read_back();
}

/// Two values that one member with a fallback stands for are written alike.
pub proof fn lemma_defaulted_one_reading<T: Blank>(a: &T, b: &T, j: JsonValue, name: Seq<char>)
    requires
        defaulted_failure::<T>(j, name) is None,
        defaulted_reads(*a, j, name),
        defaulted_reads(*b, j, name),
    ensures
        a.encoded() == b.encoded(),
{
    if j.member(name) is Some {
        a.lemma_one_reading(b, j.member(name)->Some_0);
    } else {
        a.lemma_fallbacks_alike(b);
    }
}

/// Two values that one member that falls back on a default stands for are
/// written alike.
pub proof fn lemma_filled_one_reading<T: Blank>(a: &T, b: &T, j: JsonValue, name: Seq<char>)
    requires
        filled_failure::<T>(j, name) is None,
        filled_reads(*a, j, name),
        filled_reads(*b, j, name),
    ensures
        a.encoded() == b.encoded(),
{
    if j.member(name) is Some && !(j.member(name)->Some_0 is Null) {
        a.lemma_one_reading(b, j.member(name)->Some_0);
    } else {
        a.lemma_fallbacks_alike(b);
    }
}

/// Writing a value and reading what was written as a field that falls back
/// on a default gives the value back.
pub proof fn lemma_round_trip_with_default<T: Encode + Fallback>(value: &T, back: &T)
    requires
        value.valid(),
        with_default_reads(*back, Some(value.encoded())),
    ensures
        with_default_failure::<T>(Some(value.encoded())) is None,
        back.encoded() == value.encoded(),
{
    value.lemma_read_back();
    lemma_round_trip(value, back);
}

impl Encode for bool {
    open spec fn valid(&self) -> bool {
        true
    }

    open spec fn encoded(&self) -> JsonValue {
        JsonValue::Bool(*self)
    }

    fn encode(&self) -> (j: Json) {
        Json::Bool(*self)
    }

    proof fn lemma_read_back(&self) {
    }

    proof fn lemma_one_reading(&self, other: &Self, j: JsonValue) {
    }

    proof fn lemma_read_is_valid(&self, j: JsonValue) {
    }
}

impl Encode for u64 {
    open spec fn valid(&self) -> bool {
        true
    }

    open spec fn encoded(&self) -> JsonValue {
        JsonValue::Number(JsonNumber::Unsigned(*self))
    }

    fn encode(&self) -> (j: Json) {
        Json::Number(JsonNumber::Unsigned(*self))
    }

    proof fn lemma_read_back(&self) {
    }

    proof fn lemma_one_reading(&self, other: &Self, j: JsonValue) {
    }

    proof fn lemma_read_is_valid(&self, j: JsonValue) {
    }
}

impl Encode for u8 {
    open spec fn valid(&self) -> bool {
        true
    }

    open spec fn encoded(&self) -> JsonValue {
        JsonValue::Number(JsonNumber::Unsigned(*self as u64))
    }

    fn encode(&self) -> (j: Json) {
        Json::Number(JsonNumber::Unsigned(*self as u64))
    }

    proof fn lemma_read_back(&self) {
    }

    proof fn lemma_one_reading(&self, other: &Self, j: JsonValue) {
    }

    proof fn lemma_read_is_valid(&self, j: JsonValue) {
    }
}

impl Encode for i64 {
    open spec fn valid(&self) -> bool {
        true
    }

    open spec fn encoded(&self) -> JsonValue {
        if *self >= 0 {
            JsonValue::Number(JsonNumber::Unsigned(*self as u64))
        } else {
            JsonValue::Number(JsonNumber::Signed(*self))
        }
    }

    fn encode(&self) -> (j: Json) {
        if *self >= 0 {
            Json::Number(JsonNumber::Unsigned(*self as u64))
        } else {
            Json::Number(JsonNumber::Signed(*self))
        }
    }

    proof fn lemma_read_back(&self) {
    }

    proof fn lemma_one_reading(&self, other: &Self, j: JsonValue) {
    }

    proof fn lemma_read_is_valid(&self, j: JsonValue) {
    }
}

impl Encode for JsonNumber {
    open spec fn valid(&self) -> bool {
        true
    }

    open spec fn encoded(&self) -> JsonValue {
        JsonValue::Number(*self)
    }

    fn encode(&self) -> (j: Json) {
        Json::Number(*self)
    }

    proof fn lemma_read_back(&self) {
    }

    proof fn lemma_one_reading(&self, other: &Self, j: JsonValue) {
    }

    proof fn lemma_read_is_valid(&self, j: JsonValue) {
    }
}

impl Encode for String {
    open spec fn valid(&self) -> bool {
        true
    }

    open spec fn encoded(&self) -> JsonValue {
        JsonValue::String(self@)
    }

    fn encode(&self) -> (j: Json) {
        Json::String(self.clone())
    }

    proof fn lemma_read_back(&self) {
    }

    proof fn lemma_one_reading(&self, other: &Self, j: JsonValue) {
    }

    proof fn lemma_read_is_valid(&self, j: JsonValue) {
    }
}

impl WriteKey for String {
    open spec fn name(&self) -> Seq<char> {
        self@
    }

    fn to_name(&self) -> (r: String) {
        self.clone()
    }

    proof fn lemma_name_is_read(&self) {
    }

    proof fn lemma_one_key(&self, other: &Self, name: Seq<char>) {
    }

    proof fn lemma_same_key(&self, other: &Self, a: Seq<char>, b: Seq<char>) {
    }
}

impl WriteItem for String {
    proof fn lemma_same_item(&self, other: &Self, x: JsonValue, y: JsonValue) {
    }
}

/// Whether a value that may be lacking is well formed where it is there.
pub open spec fn valid_option<T: Encode>(value: Option<T>) -> bool {
    match value {
        Some(value) => value.valid(),
        None => true,
    }
}

/// Whether the items of a sequence are well formed.
pub open spec fn valid_items<T: Encode>(items: Seq<T>) -> bool {
    forall|k: int| 0 <= k < items.len() ==> (#[trigger] items[k]).valid()
}

/// The document that a value that may be lacking is written as: `null`
/// where it is lacking.
pub open spec fn encoded_option<T: Encode>(value: Option<T>) -> JsonValue {
    match value {
        Some(value) => value.encoded(),
        None => JsonValue::Null,
    }
}

/// Writes a value that may be lacking.
pub fn encode_option<T: Encode>(value: &Option<T>) -> (j: Json)
    ensures
        j@ == encoded_option(*value),
{
    match value {
        Some(value) => value.encode(),
        None => Json::Null,
    }
}

/// What a value that may be lacking is written as can be read, and stands
/// for the value.
pub proof fn lemma_option_read_back<T: Encode>(value: Option<T>)
    requires
        valid_option(value),
    ensures
        Option::<T>::failure(encoded_option(value)) is None,
        value.reads(encoded_option(value)),
{
    if let Some(value) = value {
        value.lemma_read_back();
    }
}

/// Two values that may be lacking and that one document stands for are
/// written alike.
pub proof fn lemma_option_one_reading<T: Encode>(value: Option<T>, other: Option<T>, j: JsonValue)
    requires
        Option::<T>::failure(j) is None,
        value.reads(j),
        other.reads(j),
    ensures
        encoded_option(value) == encoded_option(other),
{
    if let Some(value) = value {
        if let Some(same) = other {
            value.lemma_one_reading(&same, j);
        }
    }
}

/// The documents that the items of a sequence are written as.
pub open spec fn encoded_items<T: Encode>(items: Seq<T>) -> Seq<JsonValue> {
    Seq::new(items.len(), |k: int| items[k].encoded())
}

impl<T: Encode> Encode for Vec<T> {
    open spec fn valid(&self) -> bool {
        valid_items(self@)
    }

    open spec fn encoded(&self) -> JsonValue {
        JsonValue::Array(encoded_items(self@))
    }

    fn encode(&self) -> (j: Json) {
        let mut out: Vec<Json> = Vec::new();
        let mut i: usize = 0;
        while i < self.len()
            invariant
                i <= self.len(),
                out.len() == i,
                forall|k: int| 0 <= k < i ==> (#[trigger] out[k])@ == self@[k].encoded(),
            decreases self.len() - i,
        {
            out.push(self[i].encode());
            i += 1;
        }
        let j = Json::Array(out);
        proof {
            lemma_array_view(j);
            assert(j@->Array_0 =~= encoded_items(self@));
        }
        j
    }

    proof fn lemma_read_back(&self) {
        let items = encoded_items(self@);
        assert forall|k: int| 0 <= k < items.len() implies T::failure(#[trigger] items[k]) is None by {
            self@[k].lemma_read_back();
        }
        lemma_first_failure::<T>(items, 0);
        assert forall|k: int| 0 <= k < self@.len() implies (#[trigger] self@[k]).reads(items[k]) by {
            self@[k].lemma_read_back();
        }
    }

    proof fn lemma_one_reading(&self, other: &Self, j: JsonValue) {
        let items = j->Array_0;
        lemma_first_failure::<T>(items, 0);
        assert forall|k: int| 0 <= k < self@.len() implies (#[trigger] self@[k].encoded()) == other@[k].encoded() by {
            assert(self@[k].reads(items[k]));
            assert(other@[k].reads(items[k]));
            assert(T::failure(items[k]) is None);
            self@[k].lemma_one_reading(&other@[k], items[k]);
        }
        assert(encoded_items(self@) =~= encoded_items(other@));
    }

    proof fn lemma_read_is_valid(&self, j: JsonValue) {
        let items = j->Array_0;
        lemma_first_failure::<T>(items, 0);
        assert forall|k: int| 0 <= k < self@.len() implies (#[trigger] self@[k]).valid() by {
            assert(T::failure(items[k]) is None);
            self@[k].lemma_read_is_valid(items[k]);
        }
    }
}

/// The members that the entries of a mapping are written as.
pub open spec fn encoded_entries<K: WriteKey, V: Encode>(entries: Seq<(K, V)>) -> Seq<(Seq<char>, JsonValue)> {
    Seq::new(entries.len(), |k: int| (entries[k].0.name(), entries[k].1.encoded()))
}

impl<K: WriteKey, V: Encode> Encode for Vec<(K, V)> {
    open spec fn valid(&self) -> bool {
        &&& forall|k: int| 0 <= k < self@.len() ==> (#[trigger] self@[k]).1.valid()
        &&& forall|k: int| 0 <= k < self@.len() ==> !(#[trigger] repeats_key::<K>(encoded_entries(self@), k))
    }

    open spec fn encoded(&self) -> JsonValue {
        JsonValue::Object(encoded_entries(self@))
    }

    fn encode(&self) -> (j: Json) {
        let mut out: Vec<(String, Json)> = Vec::new();
        let mut i: usize = 0;
        while i < self.len()
            invariant
                i <= self.len(),
                out.len() == i,
                forall|k: int| 0 <= k < i ==> (#[trigger] out[k]).0@ == self@[k].0.name(),
                forall|k: int| 0 <= k < i ==> (#[trigger] out[k]).1@ == self@[k].1.encoded(),
            decreases self.len() - i,
        {
            out.push((self[i].0.to_name(), self[i].1.encode()));
            i += 1;
        }
        let j = Json::Object(out);
        proof {
            lemma_object_view(j);
            assert(j@->Object_0 =~= encoded_entries(self@));
        }
        j
    }

    proof fn lemma_read_back(&self) {
        let members = encoded_entries(self@);
        assert forall|k: int| 0 <= k < members.len() implies (#[trigger] crate::decode::entry_failure::<K, V>(
            members,
            k,
        )) is None by {
            self@[k].0.lemma_name_is_read();
            self@[k].1.lemma_read_back();
        }
        lemma_first_entry_failure::<K, V>(members, 0);
        assert forall|k: int| 0 <= k < self@.len() implies (#[trigger] self@[k]).0.named(members[k].0)
            && self@[k].1.reads(members[k].1) by {
            self@[k].0.lemma_name_is_read();
            self@[k].1.lemma_read_back();
        }
    }

    proof fn lemma_one_reading(&self, other: &Self, j: JsonValue) {
        let members = j->Object_0;
        lemma_first_entry_failure::<K, V>(members, 0);
        assert forall|k: int| 0 <= k < self@.len() implies (#[trigger] encoded_entries(self@)[k]) == encoded_entries(
            other@,
        )[k] by {
            assert(self@[k].0.named(members[k].0));
            assert(other@[k].0.named(members[k].0));
            assert(crate::decode::entry_failure::<K, V>(members, k) is None);
            self@[k].0.lemma_one_key(&other@[k].0, members[k].0);
            self@[k].1.lemma_one_reading(&other@[k].1, members[k].1);
        }
        assert(encoded_entries(self@) =~= encoded_entries(other@));
    }

    proof fn lemma_read_is_valid(&self, j: JsonValue) {
        let members = j->Object_0;
        let written = encoded_entries(self@);
        lemma_first_entry_failure::<K, V>(members, 0);
        assert forall|k: int| 0 <= k < self@.len() implies (#[trigger] self@[k]).1.valid() by {
            assert(crate::decode::entry_failure::<K, V>(members, k) is None);
            self@[k].1.lemma_read_is_valid(members[k].1);
        }
        assert forall|k: int| 0 <= k < self@.len() implies !(#[trigger] repeats_key::<K>(written, k)) by {
            if repeats_key::<K>(written, k) {
                let a = choose|a: int| 0 <= a < k && K::same_key(#[trigger] written[a].0, written[k].0);
                assert(self@[a].0.named(members[a].0));
                assert(self@[k].0.named(members[k].0));
                self@[a].0.lemma_same_key(&self@[k].0, members[a].0, members[k].0);
                assert(K::same_key(members[a].0, members[k].0));
                assert(repeats_key::<K>(members, k));
            }
        }
    }
}

impl Blank for bool {
    proof fn lemma_fallbacks_alike(&self, other: &Self) {
    }

    proof fn lemma_fallback_is_valid(&self) {
    }
}

impl Blank for u8 {
    proof fn lemma_fallbacks_alike(&self, other: &Self) {
    }

    proof fn lemma_fallback_is_valid(&self) {
    }
}

impl Blank for u64 {
    proof fn lemma_fallbacks_alike(&self, other: &Self) {
    }

    proof fn lemma_fallback_is_valid(&self) {
    }
}

impl Blank for i64 {
    proof fn lemma_fallbacks_alike(&self, other: &Self) {
    }

    proof fn lemma_fallback_is_valid(&self) {
    }
}

impl Blank for String {
    proof fn lemma_fallbacks_alike(&self, other: &Self) {
        assert(self@ =~= other@);
    }

    proof fn lemma_fallback_is_valid(&self) {
    }
}

impl<T: Encode> Blank for Vec<T> {
    proof fn lemma_fallbacks_alike(&self, other: &Self) {
        assert(encoded_items(self@) =~= encoded_items(other@));
    }

    proof fn lemma_fallback_is_valid(&self) {
    }
}

impl<K: WriteKey, V: Encode> Blank for Vec<(K, V)> {
    proof fn lemma_fallbacks_alike(&self, other: &Self) {
        assert(encoded_entries(self@) =~= encoded_entries(other@));
    }

    proof fn lemma_fallback_is_valid(&self) {
    }
}

impl<A: Encode, B: Encode> Encode for Pair<A, B> {
    open spec fn valid(&self) -> bool {
        &&& self.0.0.valid()
        &&& self.0.1.valid()
    }

    open spec fn encoded(&self) -> JsonValue {
        JsonValue::Array(seq![self.0.0.encoded(), self.0.1.encoded()])
    }

    fn encode(&self) -> (j: Json) {
        let mut items: Vec<Json> = Vec::new();
        items.push(self.0.0.encode());
        items.push(self.0.1.encode());
        let j = Json::Array(items);
        proof {
            lemma_array_view(j);
            assert(j@->Array_0 =~= seq![self.0.0.encoded(), self.0.1.encoded()]);
        }
        j
    }

    proof fn lemma_read_back(&self) {
        self.0.0.lemma_read_back();
        self.0.1.lemma_read_back();
    }

    proof fn lemma_one_reading(&self, other: &Self, j: JsonValue) {
        self.0.0.lemma_one_reading(&other.0.0, j->Array_0[0]);
        self.0.1.lemma_one_reading(&other.0.1, j->Array_0[1]);
    }

    proof fn lemma_read_is_valid(&self, j: JsonValue) {
        self.0.0.lemma_read_is_valid(j->Array_0[0]);
        self.0.1.lemma_read_is_valid(j->Array_0[1]);
    }
}

impl<A: Encode, B: Encode, C: Encode> Encode for Triple<A, B, C> {
    open spec fn valid(&self) -> bool {
        &&& self.0.0.valid()
        &&& self.0.1.valid()
        &&& self.0.2.valid()
    }

    open spec fn encoded(&self) -> JsonValue {
        JsonValue::Array(seq![self.0.0.encoded(), self.0.1.encoded(), self.0.2.encoded()])
    }

    fn encode(&self) -> (j: Json) {
        let mut items: Vec<Json> = Vec::new();
        items.push(self.0.0.encode());
        items.push(self.0.1.encode());
        items.push(self.0.2.encode());
        let j = Json::Array(items);
        proof {
            lemma_array_view(j);
            assert(j@->Array_0 =~= seq![self.0.0.encoded(), self.0.1.encoded(), self.0.2.encoded()]);
        }
        j
    }

    proof fn lemma_read_back(&self) {
        self.0.0.lemma_read_back();
        self.0.1.lemma_read_back();
        self.0.2.lemma_read_back();
    }

    proof fn lemma_one_reading(&self, other: &Self, j: JsonValue) {
        self.0.0.lemma_one_reading(&other.0.0, j->Array_0[0]);
        self.0.1.lemma_one_reading(&other.0.1, j->Array_0[1]);
        self.0.2.lemma_one_reading(&other.0.2, j->Array_0[2]);
    }

    proof fn lemma_read_is_valid(&self, j: JsonValue) {
        self.0.0.lemma_read_is_valid(j->Array_0[0]);
        self.0.1.lemma_read_is_valid(j->Array_0[1]);
        self.0.2.lemma_read_is_valid(j->Array_0[2]);
    }
}

impl<A: Encode, B: Encode, C: Encode, D: Encode> Encode for Quad<A, B, C, D> {
    open spec fn valid(&self) -> bool {
        &&& self.0.0.valid()
        &&& self.0.1.valid()
        &&& self.0.2.valid()
        &&& self.0.3.valid()
    }

    open spec fn encoded(&self) -> JsonValue {
        JsonValue::Array(seq![self.0.0.encoded(), self.0.1.encoded(), self.0.2.encoded(), self.0.3.encoded()])
    }

    fn encode(&self) -> (j: Json) {
        let mut items: Vec<Json> = Vec::new();
        items.push(self.0.0.encode());
        items.push(self.0.1.encode());
        items.push(self.0.2.encode());
        items.push(self.0.3.encode());
        let j = Json::Array(items);
        proof {
            lemma_array_view(j);
            assert(
                j@->Array_0 =~= seq![self.0.0.encoded(), self.0.1.encoded(), self.0.2.encoded(), self.0.3.encoded()]
            );
        }
        j
    }

    proof fn lemma_read_back(&self) {
        self.0.0.lemma_read_back();
        self.0.1.lemma_read_back();
        self.0.2.lemma_read_back();
        self.0.3.lemma_read_back();
    }

    proof fn lemma_one_reading(&self, other: &Self, j: JsonValue) {
        self.0.0.lemma_one_reading(&other.0.0, j->Array_0[0]);
        self.0.1.lemma_one_reading(&other.0.1, j->Array_0[1]);
        self.0.2.lemma_one_reading(&other.0.2, j->Array_0[2]);
        self.0.3.lemma_one_reading(&other.0.3, j->Array_0[3]);
    }

    proof fn lemma_read_is_valid(&self, j: JsonValue) {
        self.0.0.lemma_read_is_valid(j->Array_0[0]);
        self.0.1.lemma_read_is_valid(j->Array_0[1]);
        self.0.2.lemma_read_is_valid(j->Array_0[2]);
        self.0.3.lemma_read_is_valid(j->Array_0[3]);
    }
}

impl<T: WriteItem> Encode for Distinct<T> {
    open spec fn valid(&self) -> bool {
        &&& valid_items(self.0@)
        &&& forall|k: int| 0 <= k < self.0@.len() ==> !(#[trigger] repeats_item::<T>(encoded_items(self.0@), k))
    }

    open spec fn encoded(&self) -> JsonValue {
        self.0.encoded()
    }

    fn encode(&self) -> (j: Json) {
        self.0.encode()
    }

    proof fn lemma_read_back(&self) {
        self.0.lemma_read_back();
        lemma_first_repeat::<T>(encoded_items(self.0@), 0);
    }

    proof fn lemma_one_reading(&self, other: &Self, j: JsonValue) {
        self.0.lemma_one_reading(&other.0, j);
    }

    proof fn lemma_read_is_valid(&self, j: JsonValue) {
        let items = j->Array_0;
        let written = encoded_items(self.0@);
        self.0.lemma_read_is_valid(j);
        lemma_first_repeat::<T>(items, 0);
        assert forall|k: int| 0 <= k < self.0@.len() implies !(#[trigger] repeats_item::<T>(written, k)) by {
            if repeats_item::<T>(written, k) {
                let a = choose|a: int| 0 <= a < k && T::same_item(#[trigger] written[a], written[k]);
                assert(self.0@[a].reads(items[a]));
                assert(self.0@[k].reads(items[k]));
                self.0@[a].lemma_same_item(&self.0@[k], items[a], items[k]);
                assert(T::same_item(items[a], items[k]));
                assert(repeats_item::<T>(items, k));
            }
        }
    }
}

impl<T: WriteItem> Blank for Distinct<T> {
    proof fn lemma_fallbacks_alike(&self, other: &Self) {
        assert(encoded_items(self.0@) =~= encoded_items(other.0@));
    }

    proof fn lemma_fallback_is_valid(&self) {
    }
}

} // verus!
