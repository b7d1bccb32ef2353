//! Reading the members of an object: required, optional and defaulted
//! fields, fields that fall back on a default, and scalars sent as text.

use crate::decode::{fault, plain_fault, under, Decode, DecodeError, DecodeFault, ErrorKind, Fallback};
use crate::json::{lemma_object_view, Json, JsonValue};
use crate::text::{
    decimal_of, lemma_decimal_is_read_back, lemma_signed_decimal_is_read_back, parse_signed, parse_unsigned,
    push_decimal, push_signed_decimal, signed_decimal_of, signed_of, unsigned_of,
};
use vstd::prelude::*;

verus! {

/// A scalar that can be written as text.
pub trait Scalar: Sized {
    /// The scalar that a text stands for, if it stands for one.
    spec fn of_text(s: Seq<char>) -> Option<Self>;

    /// Reads a text as a scalar.
    fn from_text(s: &str) -> (r: Option<Self>)
        ensures
            r == Self::of_text(s@),
    ;
}

impl Scalar for u64 {
    open spec fn of_text(s: Seq<char>) -> Option<Self> {
        match unsigned_of(s, u64::MAX as nat) {
            Some(n) => Some(n as u64),
            None => None,
        }
    }

    fn from_text(s: &str) -> (r: Option<Self>) {
        parse_unsigned(s, u64::MAX)
    }
}

impl Scalar for u8 {
    open spec fn of_text(s: Seq<char>) -> Option<Self> {
        match unsigned_of(s, u8::MAX as nat) {
            Some(n) => Some(n as u8),
            None => None,
        }
    }

    fn from_text(s: &str) -> (r: Option<Self>) {
        match parse_unsigned(s, 255) {
            Some(n) => Some(n as u8),
            None => None,
        }
    }
}

impl Scalar for usize {
    open spec fn of_text(s: Seq<char>) -> Option<Self> {
        match unsigned_of(s, usize::MAX as nat) {
            Some(n) => Some(n as usize),
            None => None,
        }
    }

    fn from_text(s: &str) -> (r: Option<Self>) {
        match parse_unsigned(s, usize::MAX as u64) {
            Some(n) => Some(n as usize),
            None => None,
        }
    }
}

impl Scalar for i64 {
    open spec fn of_text(s: Seq<char>) -> Option<Self> {
        match signed_of(s, i64::MIN as int, i64::MAX as int) {
            Some(n) => Some(n as i64),
            None => None,
        }
    }

    fn from_text(s: &str) -> (r: Option<Self>) {
        parse_signed(s)
    }
}

/// A scalar that can be written as text.
pub trait WriteScalar: Scalar + Copy {
    /// The text that the scalar is written as.
    spec fn text(&self) -> Seq<char>;

    /// Writes the scalar.
    fn to_text(&self) -> (r: String)
        ensures
            r@ == self.text(),
    ;

    /// The text of a scalar is read back as the scalar.
    proof fn lemma_text_is_read(&self)
        ensures
            Self::of_text(self.text()) == Some(*self),
    ;
}

impl WriteScalar for u64 {
    open spec fn text(&self) -> Seq<char> {
        decimal_of(*self as nat)
    }

    fn to_text(&self) -> (r: String) {
        let mut out = String::new();
        push_decimal(&mut out, *self);
        out
    }

    proof fn lemma_text_is_read(&self) {
        lemma_decimal_is_read_back(*self as nat, u64::MAX as nat);
    }
}

impl WriteScalar for usize {
    open spec fn text(&self) -> Seq<char> {
        decimal_of(*self as nat)
    }

    fn to_text(&self) -> (r: String) {
        let mut out = String::new();
        push_decimal(&mut out, *self as u64);
        out
    }

    proof fn lemma_text_is_read(&self) {
        lemma_decimal_is_read_back(*self as nat, usize::MAX as nat);
    }
}

impl WriteScalar for i64 {
    open spec fn text(&self) -> Seq<char> {
        signed_decimal_of(*self as int)
    }

    fn to_text(&self) -> (r: String) {
        let mut out = String::new();
        push_signed_decimal(&mut out, *self);
        out
    }

    proof fn lemma_text_is_read(&self) {
        lemma_signed_decimal_is_read_back(*self as int, i64::MIN as int, i64::MAX as int);
    }
}

/// The fault of reading `j` as a scalar sent as text, for the field `field`.
pub open spec fn from_string_failure<T: Scalar>(j: JsonValue, field: Seq<char>) -> Option<DecodeFault> {
    match j {
        JsonValue::String(s) => if T::of_text(s) is Some {
            None
        } else {
            Some(fault(ErrorKind::InvalidScalar, field))
        },
        _ => Some(plain_fault(ErrorKind::WrongType)),
    }
}

/// Reads a scalar that was sent as a JSON string.
///
/// A string whose text is a scalar of the target type gives that scalar. A
/// string with any other text fails with `InvalidScalar`, naming `field`. A
/// document that is no string, a number too, fails with `WrongType`.
pub fn deserialize_from_string<T: Scalar>(j: &Json, field: &str) -> (r: Result<T, DecodeError>)
    ensures
        match r {
            Ok(v) => j@ is String && T::of_text(j@->String_0) == Some(v),
            Err(e) => from_string_failure::<T>(j@, field@) == Some(e@),
        },
{
    match j {
        Json::String(s) => match T::from_text(s.as_str()) {
            Some(v) => Ok(v),
            None => Err(DecodeError::new(ErrorKind::InvalidScalar, field)),
        },
        _ => Err(DecodeError::plain(ErrorKind::WrongType)),
    }
}

/// The fault of reading a field that falls back on a default.
pub open spec fn with_default_failure<T: Decode>(field: Option<JsonValue>) -> Option<DecodeFault> {
    match field {
        Some(j) => if j is Null {
            None
        } else {
            T::failure(j)
        },
        None => None,
    }
}

/// Whether `v` is what a field that falls back on a default stands for.
pub open spec fn with_default_reads<T: Decode + Fallback>(v: T, field: Option<JsonValue>) -> bool {
    match field {
        Some(j) => if j is Null {
            v.is_fallback()
        } else {
            v.reads(j)
        },
        None => v.is_fallback(),
    }
}

/// Reads a field that may be absent or `null`.
///
/// An absent field and a `null` give the fallback of the target type. Any
/// other document is read as the target type, and fails as that does.
pub fn deserialize_with_default<T: Decode + Fallback>(field: Option<&Json>) -> (r: Result<T, DecodeError>)
    ensures
        match r {
            Ok(v) => with_default_failure::<T>(view_of(field)) is None && with_default_reads(v, view_of(field)),
            Err(e) => with_default_failure::<T>(view_of(field)) == Some(e@),
        },
{
    match field {
        Some(j) => {
            if j.is_null() {
                Ok(T::fallback())
            } else {
                T::decode(j)
            }
        },
        None => Ok(T::fallback()),
    }
}

/// The model of a document that may be absent.
pub open spec fn view_of(field: Option<&Json>) -> Option<JsonValue> {
    match field {
        Some(j) => Some(j@),
        None => None,
    }
}

/// The fault of reading the member `name` of `j`, which must be there.
pub open spec fn required_failure<T: Decode>(j: JsonValue, name: Seq<char>) -> Option<DecodeFault> {
    if !(j is Object) {
        Some(plain_fault(ErrorKind::WrongType))
    } else {
        match j.member(name) {
            Some(value) => under(T::failure(value), j.place(name)),
            None => Some(fault(ErrorKind::MissingField, name)),
        }
    }
}

/// Whether `v` is what the member `name` of `j` stands for.
pub open spec fn required_reads<T: Decode>(v: T, j: JsonValue, name: Seq<char>) -> bool {
    j.member(name) matches Some(value) && v.reads(value)
}

/// Reads the member `name` of the object `j`; the member must be there.
pub fn required<T: Decode>(j: &Json, name: &str) -> (r: Result<T, DecodeError>)
    ensures
        match r {
            Ok(v) => required_failure::<T>(j@, name@) is None && required_reads(v, j@, name@),
            Err(e) => required_failure::<T>(j@, name@) == Some(e@),
        },
{
    if !j.is_object() {
        return Err(DecodeError::plain(ErrorKind::WrongType));
    }
    match j.find(name) {
        Some((place, value)) => match T::decode(value) {
            Ok(v) => Ok(v),
            Err(e) => Err(e.under(place)),
        },
        None => Err(DecodeError::new(ErrorKind::MissingField, name)),
    }
}

/// The discriminator of `j`: the string that its member `name` holds.
pub open spec fn tag_of(j: JsonValue, name: Seq<char>) -> Seq<char> {
    j.member(name)->Some_0->String_0
}

/// The member of `j` under `name`, or else under `alias`.
pub open spec fn member_or(j: JsonValue, name: Seq<char>, alias: Seq<char>) -> Option<JsonValue> {
    if j.member(name) is Some {
        j.member(name)
    } else {
        j.member(alias)
    }
}

/// The place of the member of `j` under `name`, or else under `alias`.
pub open spec fn place_or(j: JsonValue, name: Seq<char>, alias: Seq<char>) -> int {
    if j.member(name) is Some {
        j.place(name)
    } else {
        j.place(alias)
    }
}

/// The fault of reading the member of `j` that goes by `name` or by `alias`,
/// and must be there.
pub open spec fn aliased_failure<T: Decode>(j: JsonValue, name: Seq<char>, alias: Seq<char>) -> Option<DecodeFault> {
    if !(j is Object) {
        Some(plain_fault(ErrorKind::WrongType))
    } else {
        match member_or(j, name, alias) {
            Some(value) => under(T::failure(value), place_or(j, name, alias)),
            None => Some(fault(ErrorKind::MissingField, name)),
        }
    }
}

/// Whether `v` is what the member of `j` that goes by `name` or by `alias`
/// stands for.
pub open spec fn aliased_reads<T: Decode>(v: T, j: JsonValue, name: Seq<char>, alias: Seq<char>) -> bool {
    member_or(j, name, alias) matches Some(value) && v.reads(value)
}

/// Reads the member of the object `j` that goes by `name` or, where there is
/// none of that name, by `alias`; one of them must be there.
pub fn aliased<T: Decode>(j: &Json, name: &str, alias: &str) -> (r: Result<T, DecodeError>)
    ensures
        match r {
            Ok(v) => aliased_failure::<T>(j@, name@, alias@) is None && aliased_reads(v, j@, name@, alias@),
            Err(e) => aliased_failure::<T>(j@, name@, alias@) == Some(e@),
        },
{
    if !j.is_object() {
        return Err(DecodeError::plain(ErrorKind::WrongType));
    }
    let found = match j.find(name) {
        Some(found) => Some(found),
        None => j.find(alias),
    };
    match found {
        Some((place, value)) => match T::decode(value) {
            Ok(v) => Ok(v),
            Err(e) => Err(e.under(place)),
        },
        None => Err(DecodeError::new(ErrorKind::MissingField, name)),
    }
}

/// The fault of reading the member `name` of `j`, which may be absent or `null`.
pub open spec fn optional_failure<T: Decode>(j: JsonValue, name: Seq<char>) -> Option<DecodeFault> {
    if !(j is Object) {
        Some(plain_fault(ErrorKind::WrongType))
    } else {
        match j.member(name) {
            Some(value) => if value is Null {
                None
            } else {
                under(T::failure(value), j.place(name))
            },
            None => None,
        }
    }
}

/// Whether `v` is what the member `name` of `j`, which may be absent or
/// `null`, stands for.
pub open spec fn optional_reads<T: Decode>(v: Option<T>, j: JsonValue, name: Seq<char>) -> bool {
    match j.member(name) {
        Some(value) => v.reads(value),
        None => v is None,
    }
}

/// Reads the member `name` of the object `j`; an absent member and a `null`
/// give `None`.
pub fn optional<T: Decode>(j: &Json, name: &str) -> (r: Result<Option<T>, DecodeError>)
    ensures
        match r {
            Ok(v) => optional_failure::<T>(j@, name@) is None && optional_reads(v, j@, name@),
            Err(e) => optional_failure::<T>(j@, name@) == Some(e@),
        },
{
    if !j.is_object() {
        return Err(DecodeError::plain(ErrorKind::WrongType));
    }
    match j.find(name) {
        Some((place, value)) => match Option::<T>::decode(value) {
            Ok(v) => Ok(v),
            Err(e) => Err(e.under(place)),
        },
        None => Ok(None),
    }
}

/// The fault of reading the member `name` of `j`, whose absence gives the
/// fallback.
pub open spec fn defaulted_failure<T: Decode>(j: JsonValue, name: Seq<char>) -> Option<DecodeFault> {
    if !(j is Object) {
        Some(plain_fault(ErrorKind::WrongType))
    } else {
        match j.member(name) {
            Some(value) => under(T::failure(value), j.place(name)),
            None => None,
        }
    }
}

/// Whether `v` is what the member `name` of `j`, whose absence gives the
/// fallback, stands for.
pub open spec fn defaulted_reads<T: Decode + Fallback>(v: T, j: JsonValue, name: Seq<char>) -> bool {
    match j.member(name) {
        Some(value) => v.reads(value),
        None => v.is_fallback(),
    }
}

/// Reads the member `name` of the object `j`; an absent member gives the
/// fallback of the target type, a `null` is read as any other document.
pub fn defaulted<T: Decode + Fallback>(j: &Json, name: &str) -> (r: Result<T, DecodeError>)
    ensures
        match r {
            Ok(v) => defaulted_failure::<T>(j@, name@) is None && defaulted_reads(v, j@, name@),
            Err(e) => defaulted_failure::<T>(j@, name@) == Some(e@),
        },
{
    if !j.is_object() {
        return Err(DecodeError::plain(ErrorKind::WrongType));
    }
    match j.find(name) {
        Some((place, value)) => match T::decode(value) {
            Ok(v) => Ok(v),
            Err(e) => Err(e.under(place)),
        },
        None => Ok(T::fallback()),
    }
}

/// The fault of reading the member `name` of `j`, which falls back on a
/// default.
pub open spec fn filled_failure<T: Decode>(j: JsonValue, name: Seq<char>) -> Option<DecodeFault> {
    if !(j is Object) {
        Some(plain_fault(ErrorKind::WrongType))
    } else {
        under(with_default_failure::<T>(j.member(name)), j.place(name))
    }
}

/// Whether `v` is what the member `name` of `j`, which falls back on a
/// default, stands for.
pub open spec fn filled_reads<T: Decode + Fallback>(v: T, j: JsonValue, name: Seq<char>) -> bool {
    with_default_reads(v, j.member(name))
}

/// Reads the member `name` of the object `j` with [`deserialize_with_default`]:
/// an absent member and a `null` give the fallback of the target type.
pub fn filled<T: Decode + Fallback>(j: &Json, name: &str) -> (r: Result<T, DecodeError>)
    ensures
        match r {
            Ok(v) => filled_failure::<T>(j@, name@) is None && filled_reads(v, j@, name@),
            Err(e) => filled_failure::<T>(j@, name@) == Some(e@),
        },
{
    if !j.is_object() {
        return Err(DecodeError::plain(ErrorKind::WrongType));
    }
    match j.find(name) {
        Some((place, value)) => match deserialize_with_default::<T>(Some(value)) {
            Ok(v) => Ok(v),
            Err(e) => Err(e.under(place)),
        },
        None => deserialize_with_default::<T>(None),
    }
}

/// The fault of reading the member `name` of `j` as a scalar sent as text.
pub open spec fn quoted_failure<T: Scalar>(j: JsonValue, name: Seq<char>) -> Option<DecodeFault> {
    if !(j is Object) {
        Some(plain_fault(ErrorKind::WrongType))
    } else {
        match j.member(name) {
            Some(value) => under(from_string_failure::<T>(value, name), j.place(name)),
            None => Some(fault(ErrorKind::MissingField, name)),
        }
    }
}

/// Whether `v` is the scalar that the member `name` of `j` holds as text.
pub open spec fn quoted_reads<T: Scalar>(v: T, j: JsonValue, name: Seq<char>) -> bool {
    j.member(name) matches Some(JsonValue::String(s)) && T::of_text(s) == Some(v)
}

/// Reads the member `name` of the object `j` with [`deserialize_from_string`].
pub fn quoted<T: Scalar>(j: &Json, name: &str) -> (r: Result<T, DecodeError>)
    ensures
        match r {
            Ok(v) => quoted_failure::<T>(j@, name@) is None && quoted_reads(v, j@, name@),
            Err(e) => quoted_failure::<T>(j@, name@) == Some(e@),
        },
{
    if !j.is_object() {
        return Err(DecodeError::plain(ErrorKind::WrongType));
    }
    match j.find(name) {
        Some((place, value)) => match deserialize_from_string::<T>(value, name) {
            Ok(v) => Ok(v),
            Err(e) => Err(e.under(place)),
        },
        None => Err(DecodeError::new(ErrorKind::MissingField, name)),
    }
}

} // verus!
