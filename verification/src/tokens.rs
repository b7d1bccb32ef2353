//! Enumerations that the API writes as strings.

use crate::decode::{fault, plain_fault, Decode, DecodeError, DecodeFault, ErrorKind, Key, SetItem};
use crate::encode::{Encode, WriteItem, WriteKey};
use crate::json::{Json, JsonValue};
use vstd::prelude::*;
use vstd::string::StringExecFns;

verus! {

/// An enumeration whose variants are written as tokens: strings from a fixed
/// list. Several tokens may stand for one variant.
pub trait Token: Sized {
    /// The variant that a string stands for, if it is a token.
    spec fn of_token(s: Seq<char>) -> Option<Self>;

    /// The token by which the variant is written.
    spec fn token(self) -> Seq<char>;

    /// Reads a token.
    fn from_token(s: &str) -> (r: Option<Self>)
        ensures
            r == Self::of_token(s@),
    ;

    /// Writes the variant as its token.
    fn as_token(self) -> (r: &'static str)
        ensures
            r@ == self.token(),
    ;

    /// Whether the two are one variant.
    fn same_token(&self, other: &Self) -> (r: bool)
        ensures
            r == (*self == *other),
    ;

    /// The token of a variant is read back as the variant.
    proof fn lemma_token_is_read(self)
        ensures
            Self::of_token(self.token()) == Some(self),
    ;
}

impl<E: Token> Decode for E {
    open spec fn failure(j: JsonValue) -> Option<DecodeFault> {
        match j {
            JsonValue::String(s) => if E::of_token(s) is Some {
                None
            } else {
                Some(fault(ErrorKind::UnknownToken, s))
            },
            _ => Some(plain_fault(ErrorKind::WrongType)),
        }
    }

    open spec fn reads(&self, j: JsonValue) -> bool {
        j matches JsonValue::String(s) && E::of_token(s) == Some(*self)
    }

    fn decode(j: &Json) -> (r: Result<Self, DecodeError>) {
        match j {
            Json::String(s) => match E::from_token(s.as_str()) {
                Some(v) => Ok(v),
                None => Err(DecodeError::new(ErrorKind::UnknownToken, s.as_str())),
            },
            _ => Err(DecodeError::plain(ErrorKind::WrongType)),
        }
    }
}

impl<E: Token> Key for E {
    open spec fn admits(name: Seq<char>) -> bool {
        E::of_token(name) is Some
    }

    open spec fn named(&self, name: Seq<char>) -> bool {
        E::of_token(name) == Some(*self)
    }

    open spec fn same_key(a: Seq<char>, b: Seq<char>) -> bool {
        E::of_token(a) == E::of_token(b)
    }

    fn from_name(name: &str) -> (r: Option<Self>) {
        E::from_token(name)
    }

    fn same(&self, other: &Self) -> (r: bool) {
        self.same_token(other)
    }
}

impl<E: Token> SetItem for E {
    open spec fn same_item(x: JsonValue, y: JsonValue) -> bool {
        x is String && y is String && E::of_token(x->String_0) == E::of_token(y->String_0)
    }

    fn alike(&self, other: &Self) -> (r: bool) {
        self.same_token(other)
    }
}

impl<E: Token + Copy> Encode for E {
    open spec fn valid(&self) -> bool {
        true
    }

    open spec fn encoded(&self) -> JsonValue {
        JsonValue::String(self.token())
    }

    fn encode(&self) -> (j: Json) {
        Json::String(String::from_str(self.as_token()))
    }

    proof fn lemma_read_back(&self) {
        self.lemma_token_is_read();
    }

    proof fn lemma_one_reading(&self, other: &Self, j: JsonValue) {
    }

    proof fn lemma_read_is_valid(&self, j: JsonValue) {
    }
}

impl<E: Token + Copy> WriteItem for E {
    proof fn lemma_same_item(&self, other: &Self, x: JsonValue, y: JsonValue) {
        self.lemma_token_is_read();
        other.lemma_token_is_read();
    }
}

impl<E: Token + Copy> WriteKey for E {
    open spec fn name(&self) -> Seq<char> {
        self.token()
    }

    fn to_name(&self) -> (r: String) {
        String::from_str(self.as_token())
    }

    proof fn lemma_name_is_read(&self) {
        self.lemma_token_is_read();
    }

    proof fn lemma_one_key(&self, other: &Self, name: Seq<char>) {
    }

    proof fn lemma_same_key(&self, other: &Self, a: Seq<char>, b: Seq<char>) {
        self.lemma_token_is_read();
        other.lemma_token_is_read();
    }
}

} // verus!
