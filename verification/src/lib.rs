//! Typed decoding of the JSON documents served by the Wynncraft statistics API.
//!
//! The crate turns a response body into validated records, and a record back
//! into the document that stands for it. Every decoder and encoder is stated
//! over [`json::JsonValue`], the mathematical model of a JSON document, and
//! proved against that statement.
//!
//! - [`json`]: documents and their model. [`reader`] reads a body as a
//!   document, with the byte at which each value starts; [`writer`] writes a
//!   document as text.
//! - [`decode`], [`fields`], [`tokens`], [`ordered`]: how values are read:
//!   scalars, lists and mappings; the members of an object, those that fall
//!   back on a default and those sent as text; enumerations written as
//!   tokens; objects that stand for sequences.
//! - [`encode`]: how values are written, and the laws that tie writing to
//!   reading.
//! - [`envelope`]: from a status and a body to a value, a list of choices or
//!   a failure with the byte of the body at which it was found.
//! - [`request`]: the address of each endpoint.
//! - [`ability`], [`classes`], [`guild`], [`item`], [`leaderboard`], [`map`],
//!   [`news`], [`player`], [`search`]: the records of the API.
//!
//! The crate does no input or output. A client hands it the status and the
//! body of a response and gets an outcome back.

pub mod ability;
pub mod classes;
pub mod decode;
pub mod encode;
pub mod envelope;
pub mod fields;
pub mod guild;
pub mod item;
pub mod json;
pub mod leaderboard;
pub mod map;
pub mod news;
pub mod ordered;
pub mod player;
pub mod reader;
pub mod request;
pub mod search;
pub mod text;
pub mod tokens;
pub mod writer;

use crate::decode::{plain_fault, Decode, DecodeError, DecodeFault, ErrorKind};
use crate::encode::Encode;
use crate::fields::Scalar;
use crate::json::{Json, JsonValue};
use crate::text::{chars_of, decimal_of, lemma_decimal_is_read_back, push_decimal, read_unsigned, same_text};
use crate::tokens::Token;
use vstd::prelude::*;
use vstd::string::StringExecFns;

verus! {

/// Where the API is served.
pub const API_LOCATION: &'static str = "https://api.wynncraft.com/v3";

/// By what the players of a list are named.
#[derive(Clone, Copy, Debug, PartialEq, Eq, Structural)]
pub enum Identifier {
    Username,
    Uuid,
}

impl Token for Identifier {
    open spec fn of_token(s: Seq<char>) -> Option<Self> {
        if s == "username"@ {
            Some(Identifier::Username)
        } else if s == "uuid"@ {
            Some(Identifier::Uuid)
        } else {
            None
        }
    }

    open spec fn token(self) -> Seq<char> {
        match self {
            Identifier::Username => "username"@,
            Identifier::Uuid => "uuid"@,
        }
    }

    fn from_token(s: &str) -> (r: Option<Self>) {
        if same_text(s, "username") {
            Some(Identifier::Username)
        } else if same_text(s, "uuid") {
            Some(Identifier::Uuid)
        } else {
            None
        }
    }

    fn as_token(self) -> (r: &'static str) {
        match self {
            Identifier::Username => "username",
            Identifier::Uuid => "uuid",
        }
    }

    fn same_token(&self, other: &Self) -> (r: bool) {
        *self == *other
    }

    proof fn lemma_token_is_read(self) {
        reveal_strlit("username");
        assert("username"@.len() == 8);
        reveal_strlit("uuid");
        assert("uuid"@.len() == 4);
    }
}

impl Identifier {
    /// The identifier as the API writes it.
    pub fn to_string(&self) -> (r: String)
        ensures
            r@ == self.token(),
    {
        String::from_str(self.as_token())
    }
}

/// A game server, by its number. The API names it `WC` and the number.
#[derive(Clone, Copy, Debug, PartialEq, Eq, Hash, Structural)]
pub struct World(pub u8);

impl World {
    /// The world that a name stands for: `WC` and the decimal notation of a
    /// number up to 255.
    pub open spec fn of_name(s: Seq<char>) -> Option<World> {
        if s.len() >= 2 && s[0] == 'W' && s[1] == 'C' {
            match u8::of_text(s.subrange(2, s.len() as int)) {
                Some(n) => Some(World(n)),
                None => None,
            }
        } else {
            None
        }
    }

    /// The name of the world.
    pub open spec fn name(self) -> Seq<char> {
        seq!['W', 'C'] + decimal_of(self.0 as nat)
    }

    /// The world with the number `world_number`.
    #[inline]
    pub fn new(world_number: u8) -> (r: World)
        ensures
            r == World(world_number),
    {
        World(world_number)
    }

    /// The number of the world.
    #[inline]
    pub fn world_number(&self) -> (r: u8)
        ensures
            r == self.0,
    {
        self.0
    }

    /// Reads the name of a world.
    pub fn from_name(s: &str) -> (r: Option<World>)
        ensures
            r == Self::of_name(s@),
    {
        let chars = chars_of(s);
        if chars.len() >= 2 && chars[0] == 'W' && chars[1] == 'C' {
            match read_unsigned(&chars, 2, 255) {
                Some(n) => Some(World(n as u8)),
                None => None,
            }
        } else {
            None
        }
    }

    /// The name of the world.
    pub fn to_string(&self) -> (r: String)
        ensures
            r@ == self.name(),
    {
        let mut out = String::from_str("WC");
        proof {
            reveal_strlit("WC");
            assert("WC"@ == seq!['W', 'C']);
        }
        push_decimal(&mut out, self.0 as u64);
        out
    }
}

/// The name of a world is read back as that world.
pub proof fn lemma_world_name_is_read_back(world: World)
    ensures
        World::of_name(world.name()) == Some(world),
{
    let name = world.name();
    lemma_decimal_is_read_back(world.0 as nat, u8::MAX as nat);
    assert(name.subrange(2, name.len() as int) == decimal_of(world.0 as nat));
}

impl Decode for World {
    open spec fn failure(j: JsonValue) -> Option<DecodeFault> {
        match j {
            JsonValue::String(s) => if World::of_name(s) is Some {
                None
            } else {
                Some(plain_fault(ErrorKind::NotAWorld))
            },
            _ => Some(plain_fault(ErrorKind::WrongType)),
        }
    }

    open spec fn reads(&self, j: JsonValue) -> bool {
        j is String && World::of_name(j->String_0) == Some(*self)
    }

    fn decode(j: &Json) -> (r: Result<Self, DecodeError>) {
        match j {
            Json::String(s) => match World::from_name(s.as_str()) {
                Some(world) => Ok(world),
                None => Err(DecodeError::plain(ErrorKind::NotAWorld)),
            },
            _ => Err(DecodeError::plain(ErrorKind::WrongType)),
        }
    }
}

impl Encode for World {
    open spec fn valid(&self) -> bool {
        true
    }

    open spec fn encoded(&self) -> JsonValue {
        JsonValue::String(self.name())
    }

    fn encode(&self) -> (j: Json) {
        Json::String(self.to_string())
    }

    proof fn lemma_read_back(&self) {
        lemma_world_name_is_read_back(*self);
    }

    proof fn lemma_one_reading(&self, other: &Self, j: JsonValue) {
    }

    proof fn lemma_read_is_valid(&self, j: JsonValue) {
    }
}

} // verus!
