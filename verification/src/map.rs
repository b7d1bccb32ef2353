//! The map: markers, and where the players are.

use crate::World;
use crate::decode::{Decode, DecodeError, DecodeFault, Otherwise};
use crate::encode::{
    Encode, encode_option, encode_quoted, encoded_option, encoded_quoted, lemma_optional_is_valid,
    lemma_optional_one_reading, lemma_optional_read_back, lemma_quoted_one_reading, lemma_quoted_read_back,
    lemma_required_is_valid, lemma_required_one_reading, lemma_required_read_back, valid_option,
};
use crate::fields::{
    optional, optional_failure, optional_reads, quoted, quoted_failure, quoted_reads, required, required_failure,
    required_reads,
};
use crate::json::{Json, JsonValue, lemma_member_at, ObjectWriter};
use vstd::prelude::*;

verus! {

/// The number of quests in the game.
#[derive(Clone, Debug, PartialEq)]
pub struct Quests {
    pub quests: u64,
}

impl Decode for Quests {
    open spec fn failure(j: JsonValue) -> Option<DecodeFault> {
        required_failure::<u64>(j, "quests"@)
    }

    open spec fn reads(&self, j: JsonValue) -> bool {
        &&& required_reads(self.quests, j, "quests"@)
    }

    fn decode(j: &Json) -> (r: Result<Self, DecodeError>) {
        let quests = required::<u64>(j, "quests")?;
        Ok(Quests { quests })
    }
}

impl Encode for Quests {
    open spec fn valid(&self) -> bool {
        &&& self.quests.valid()
    }

    open spec fn encoded(&self) -> JsonValue {
        JsonValue::Object(
            seq![
                ("quests"@, self.quests.encoded()),
            ],
        )
    }

    fn encode(&self) -> (j: Json) {
        let j = ObjectWriter::new()
            .with("quests", self.quests.encode())
            .done();
        assert(j@->Object_0 =~= self.encoded()->Object_0);
        j
    }

    proof fn lemma_read_back(&self) {
        let j = self.encoded();
        let members = j->Object_0;
        reveal_strlit("quests");
        assert("quests"@.len() == 6);
        lemma_member_at(members, "quests"@, 0);
        lemma_required_read_back(&self.quests, j, "quests"@);
    }

    proof fn lemma_one_reading(&self, other: &Self, j: JsonValue) {
        lemma_required_one_reading(&self.quests, &other.quests, j, "quests"@);
    }

    proof fn lemma_read_is_valid(&self, j: JsonValue) {
        lemma_required_is_valid(&self.quests, j, "quests"@);
    }
}

/// A marker on the map. The API sends its coordinates as text.
#[derive(Clone, Debug, PartialEq)]
pub struct MarkerLocation {
    pub name: String,
    pub icon: String,
    pub x: i64,
    pub y: i64,
    pub z: i64,
}

impl Decode for MarkerLocation {
    open spec fn failure(j: JsonValue) -> Option<DecodeFault> {
        required_failure::<String>(j, "name"@)
            .otherwise(required_failure::<String>(j, "icon"@))
            .otherwise(quoted_failure::<i64>(j, "x"@))
            .otherwise(quoted_failure::<i64>(j, "y"@))
            .otherwise(quoted_failure::<i64>(j, "z"@))
    }

    open spec fn reads(&self, j: JsonValue) -> bool {
        &&& required_reads(self.name, j, "name"@)
        &&& required_reads(self.icon, j, "icon"@)
        &&& quoted_reads(self.x, j, "x"@)
        &&& quoted_reads(self.y, j, "y"@)
        &&& quoted_reads(self.z, j, "z"@)
    }

    fn decode(j: &Json) -> (r: Result<Self, DecodeError>) {
        let name = required::<String>(j, "name")?;
        let icon = required::<String>(j, "icon")?;
        let x = quoted::<i64>(j, "x")?;
        let y = quoted::<i64>(j, "y")?;
        let z = quoted::<i64>(j, "z")?;
        Ok(MarkerLocation { name, icon, x, y, z })
    }
}

impl Encode for MarkerLocation {
    open spec fn valid(&self) -> bool {
        &&& self.name.valid()
        &&& self.icon.valid()
    }

    open spec fn encoded(&self) -> JsonValue {
        JsonValue::Object(
            seq![
                ("name"@, self.name.encoded()),
                ("icon"@, self.icon.encoded()),
                ("x"@, encoded_quoted(self.x)),
                ("y"@, encoded_quoted(self.y)),
                ("z"@, encoded_quoted(self.z)),
            ],
        )
    }

    fn encode(&self) -> (j: Json) {
        let j = ObjectWriter::new()
            .with("name", self.name.encode())
            .with("icon", self.icon.encode())
            .with("x", encode_quoted(&self.x))
            .with("y", encode_quoted(&self.y))
            .with("z", encode_quoted(&self.z))
            .done();
        assert(j@->Object_0 =~= self.encoded()->Object_0);
        j
    }

    proof fn lemma_read_back(&self) {
        let j = self.encoded();
        let members = j->Object_0;
        reveal_strlit("name");
        assert("name"@.len() == 4 && "name"@[0] == 'n');
        reveal_strlit("icon");
        assert("icon"@.len() == 4 && "icon"@[0] == 'i');
        reveal_strlit("x");
        assert("x"@.len() == 1 && "x"@[0] == 'x');
        reveal_strlit("y");
        assert("y"@.len() == 1 && "y"@[0] == 'y');
        reveal_strlit("z");
        assert("z"@.len() == 1 && "z"@[0] == 'z');
        lemma_member_at(members, "name"@, 0);
        lemma_required_read_back(&self.name, j, "name"@);
        lemma_member_at(members, "icon"@, 1);
        lemma_required_read_back(&self.icon, j, "icon"@);
        lemma_member_at(members, "x"@, 2);
        lemma_quoted_read_back(&self.x, j, "x"@);
        lemma_member_at(members, "y"@, 3);
        lemma_quoted_read_back(&self.y, j, "y"@);
        lemma_member_at(members, "z"@, 4);
        lemma_quoted_read_back(&self.z, j, "z"@);
    }

    proof fn lemma_one_reading(&self, other: &Self, j: JsonValue) {
        lemma_required_one_reading(&self.name, &other.name, j, "name"@);
        lemma_required_one_reading(&self.icon, &other.icon, j, "icon"@);
        lemma_quoted_one_reading(&self.x, &other.x, j, "x"@);
        lemma_quoted_one_reading(&self.y, &other.y, j, "y"@);
        lemma_quoted_one_reading(&self.z, &other.z, j, "z"@);
    }

    proof fn lemma_read_is_valid(&self, j: JsonValue) {
        lemma_required_is_valid(&self.name, j, "name"@);
        lemma_required_is_valid(&self.icon, j, "icon"@);
    }
}

/// Where a player is, with the friends, party and guild members that are online.
#[derive(Clone, Debug, PartialEq)]
pub struct PlayerLocation {
    pub uuid: String,
    pub name: String,
    pub nickname: Option<String>,
    pub server: Option<World>,
    pub x: i64,
    pub y: i64,
    pub z: i64,
    pub friends: Vec<FriendLocation>,
    pub party: Vec<FriendLocation>,
    pub guild: Vec<FriendLocation>,
}

impl Decode for PlayerLocation {
    open spec fn failure(j: JsonValue) -> Option<DecodeFault> {
        required_failure::<String>(j, "uuid"@)
            .otherwise(required_failure::<String>(j, "name"@))
            .otherwise(optional_failure::<String>(j, "nickname"@))
            .otherwise(optional_failure::<World>(j, "server"@))
            .otherwise(required_failure::<i64>(j, "x"@))
            .otherwise(required_failure::<i64>(j, "y"@))
            .otherwise(required_failure::<i64>(j, "z"@))
            .otherwise(required_failure::<Vec<FriendLocation>>(j, "friends"@))
            .otherwise(required_failure::<Vec<FriendLocation>>(j, "party"@))
            .otherwise(required_failure::<Vec<FriendLocation>>(j, "guild"@))
    }

    open spec fn reads(&self, j: JsonValue) -> bool {
        &&& required_reads(self.uuid, j, "uuid"@)
        &&& required_reads(self.name, j, "name"@)
        &&& optional_reads(self.nickname, j, "nickname"@)
        &&& optional_reads(self.server, j, "server"@)
        &&& required_reads(self.x, j, "x"@)
        &&& required_reads(self.y, j, "y"@)
        &&& required_reads(self.z, j, "z"@)
        &&& required_reads(self.friends, j, "friends"@)
        &&& required_reads(self.party, j, "party"@)
        &&& required_reads(self.guild, j, "guild"@)
    }

    fn decode(j: &Json) -> (r: Result<Self, DecodeError>) {
        let uuid = required::<String>(j, "uuid")?;
        let name = required::<String>(j, "name")?;
        let nickname = optional::<String>(j, "nickname")?;
        let server = optional::<World>(j, "server")?;
        let x = required::<i64>(j, "x")?;
        let y = required::<i64>(j, "y")?;
        let z = required::<i64>(j, "z")?;
        let friends = required::<Vec<FriendLocation>>(j, "friends")?;
        let party = required::<Vec<FriendLocation>>(j, "party")?;
        let guild = required::<Vec<FriendLocation>>(j, "guild")?;
        Ok(PlayerLocation { uuid, name, nickname, server, x, y, z, friends, party, guild })
    }
}

impl Encode for PlayerLocation {
    open spec fn valid(&self) -> bool {
        &&& self.uuid.valid()
        &&& self.name.valid()
        &&& valid_option(self.nickname)
        &&& valid_option(self.server)
        &&& self.x.valid()
        &&& self.y.valid()
        &&& self.z.valid()
        &&& self.friends.valid()
        &&& self.party.valid()
        &&& self.guild.valid()
    }

    open spec fn encoded(&self) -> JsonValue {
        JsonValue::Object(
            seq![
                ("uuid"@, self.uuid.encoded()),
                ("name"@, self.name.encoded()),
                ("nickname"@, encoded_option(self.nickname)),
                ("server"@, encoded_option(self.server)),
                ("x"@, self.x.encoded()),
                ("y"@, self.y.encoded()),
                ("z"@, self.z.encoded()),
                ("friends"@, self.friends.encoded()),
                ("party"@, self.party.encoded()),
                ("guild"@, self.guild.encoded()),
            ],
        )
    }

    fn encode(&self) -> (j: Json) {
        let j = ObjectWriter::new()
            .with("uuid", self.uuid.encode())
            .with("name", self.name.encode())
            .with("nickname", encode_option(&self.nickname))
            .with("server", encode_option(&self.server))
            .with("x", self.x.encode())
            .with("y", self.y.encode())
            .with("z", self.z.encode())
            .with("friends", self.friends.encode())
            .with("party", self.party.encode())
            .with("guild", self.guild.encode())
            .done();
        assert(j@->Object_0 =~= self.encoded()->Object_0);
        j
    }

    proof fn lemma_read_back(&self) {
        let j = self.encoded();
        let members = j->Object_0;
        reveal_strlit("uuid");
        assert("uuid"@.len() == 4 && "uuid"@[0] == 'u');
        reveal_strlit("name");
        assert("name"@.len() == 4 && "name"@[0] == 'n');
        reveal_strlit("nickname");
        assert("nickname"@.len() == 8 && "nickname"@[0] == 'n');
        reveal_strlit("server");
        assert("server"@.len() == 6 && "server"@[0] == 's');
        reveal_strlit("x");
        assert("x"@.len() == 1 && "x"@[0] == 'x');
        reveal_strlit("y");
        assert("y"@.len() == 1 && "y"@[0] == 'y');
        reveal_strlit("z");
        assert("z"@.len() == 1 && "z"@[0] == 'z');
        reveal_strlit("friends");
        assert("friends"@.len() == 7 && "friends"@[0] == 'f');
        reveal_strlit("party");
        assert("party"@.len() == 5 && "party"@[0] == 'p');
        reveal_strlit("guild");
        assert("guild"@.len() == 5 && "guild"@[0] == 'g');
        lemma_member_at(members, "uuid"@, 0);
        lemma_required_read_back(&self.uuid, j, "uuid"@);
        lemma_member_at(members, "name"@, 1);
        lemma_required_read_back(&self.name, j, "name"@);
        lemma_member_at(members, "nickname"@, 2);
        lemma_optional_read_back(self.nickname, j, "nickname"@);
        lemma_member_at(members, "server"@, 3);
        lemma_optional_read_back(self.server, j, "server"@);
        lemma_member_at(members, "x"@, 4);
        lemma_required_read_back(&self.x, j, "x"@);
        lemma_member_at(members, "y"@, 5);
        lemma_required_read_back(&self.y, j, "y"@);
        lemma_member_at(members, "z"@, 6);
        lemma_required_read_back(&self.z, j, "z"@);
        lemma_member_at(members, "friends"@, 7);
        lemma_required_read_back(&self.friends, j, "friends"@);
        lemma_member_at(members, "party"@, 8);
        lemma_required_read_back(&self.party, j, "party"@);
        lemma_member_at(members, "guild"@, 9);
        lemma_required_read_back(&self.guild, j, "guild"@);
    }

    proof fn lemma_one_reading(&self, other: &Self, j: JsonValue) {
        lemma_required_one_reading(&self.uuid, &other.uuid, j, "uuid"@);
        lemma_required_one_reading(&self.name, &other.name, j, "name"@);
        lemma_optional_one_reading(self.nickname, other.nickname, j, "nickname"@);
        lemma_optional_one_reading(self.server, other.server, j, "server"@);
        lemma_required_one_reading(&self.x, &other.x, j, "x"@);
        lemma_required_one_reading(&self.y, &other.y, j, "y"@);
        lemma_required_one_reading(&self.z, &other.z, j, "z"@);
        lemma_required_one_reading(&self.friends, &other.friends, j, "friends"@);
        lemma_required_one_reading(&self.party, &other.party, j, "party"@);
        lemma_required_one_reading(&self.guild, &other.guild, j, "guild"@);
    }

    proof fn lemma_read_is_valid(&self, j: JsonValue) {
        lemma_required_is_valid(&self.uuid, j, "uuid"@);
        lemma_required_is_valid(&self.name, j, "name"@);
        lemma_optional_is_valid(self.nickname, j, "nickname"@);
        lemma_optional_is_valid(self.server, j, "server"@);
        lemma_required_is_valid(&self.x, j, "x"@);
        lemma_required_is_valid(&self.y, j, "y"@);
        lemma_required_is_valid(&self.z, j, "z"@);
        lemma_required_is_valid(&self.friends, j, "friends"@);
        lemma_required_is_valid(&self.party, j, "party"@);
        lemma_required_is_valid(&self.guild, j, "guild"@);
    }
}

/// Where a friend, a party member or a guild member is.
#[derive(Clone, Debug, PartialEq)]
pub struct FriendLocation {
    pub uuid: String,
    pub name: String,
    pub nickname: Option<String>,
    pub server: Option<World>,
    pub x: i64,
    pub y: i64,
    pub z: i64,
}

impl Decode for FriendLocation {
    open spec fn failure(j: JsonValue) -> Option<DecodeFault> {
        required_failure::<String>(j, "uuid"@)
            .otherwise(required_failure::<String>(j, "name"@))
            .otherwise(optional_failure::<String>(j, "nickname"@))
            .otherwise(optional_failure::<World>(j, "server"@))
            .otherwise(required_failure::<i64>(j, "x"@))
            .otherwise(required_failure::<i64>(j, "y"@))
            .otherwise(required_failure::<i64>(j, "z"@))
    }

    open spec fn reads(&self, j: JsonValue) -> bool {
        &&& required_reads(self.uuid, j, "uuid"@)
        &&& required_reads(self.name, j, "name"@)
        &&& optional_reads(self.nickname, j, "nickname"@)
        &&& optional_reads(self.server, j, "server"@)
        &&& required_reads(self.x, j, "x"@)
        &&& required_reads(self.y, j, "y"@)
        &&& required_reads(self.z, j, "z"@)
    }

    fn decode(j: &Json) -> (r: Result<Self, DecodeError>) {
        let uuid = required::<String>(j, "uuid")?;
        let name = required::<String>(j, "name")?;
        let nickname = optional::<String>(j, "nickname")?;
        let server = optional::<World>(j, "server")?;
        let x = required::<i64>(j, "x")?;
        let y = required::<i64>(j, "y")?;
        let z = required::<i64>(j, "z")?;
        Ok(FriendLocation { uuid, name, nickname, server, x, y, z })
    }
}

impl Encode for FriendLocation {
    open spec fn valid(&self) -> bool {
        &&& self.uuid.valid()
        &&& self.name.valid()
        &&& valid_option(self.nickname)
        &&& valid_option(self.server)
        &&& self.x.valid()
        &&& self.y.valid()
        &&& self.z.valid()
    }

    open spec fn encoded(&self) -> JsonValue {
        JsonValue::Object(
            seq![
                ("uuid"@, self.uuid.encoded()),
                ("name"@, self.name.encoded()),
                ("nickname"@, encoded_option(self.nickname)),
                ("server"@, encoded_option(self.server)),
                ("x"@, self.x.encoded()),
                ("y"@, self.y.encoded()),
                ("z"@, self.z.encoded()),
            ],
        )
    }

    fn encode(&self) -> (j: Json) {
        let j = ObjectWriter::new()
            .with("uuid", self.uuid.encode())
            .with("name", self.name.encode())
            .with("nickname", encode_option(&self.nickname))
            .with("server", encode_option(&self.server))
            .with("x", self.x.encode())
            .with("y", self.y.encode())
            .with("z", self.z.encode())
            .done();
        assert(j@->Object_0 =~= self.encoded()->Object_0);
        j
    }

    proof fn lemma_read_back(&self) {
        let j = self.encoded();
        let members = j->Object_0;
        reveal_strlit("uuid");
        assert("uuid"@.len() == 4 && "uuid"@[0] == 'u');
        reveal_strlit("name");
        assert("name"@.len() == 4 && "name"@[0] == 'n');
        reveal_strlit("nickname");
        assert("nickname"@.len() == 8 && "nickname"@[0] == 'n');
        reveal_strlit("server");
        assert("server"@.len() == 6 && "server"@[0] == 's');
        reveal_strlit("x");
        assert("x"@.len() == 1 && "x"@[0] == 'x');
        reveal_strlit("y");
        assert("y"@.len() == 1 && "y"@[0] == 'y');
        reveal_strlit("z");
        assert("z"@.len() == 1 && "z"@[0] == 'z');
        lemma_member_at(members, "uuid"@, 0);
        lemma_required_read_back(&self.uuid, j, "uuid"@);
        lemma_member_at(members, "name"@, 1);
        lemma_required_read_back(&self.name, j, "name"@);
        lemma_member_at(members, "nickname"@, 2);
        lemma_optional_read_back(self.nickname, j, "nickname"@);
        lemma_member_at(members, "server"@, 3);
        lemma_optional_read_back(self.server, j, "server"@);
        lemma_member_at(members, "x"@, 4);
        lemma_required_read_back(&self.x, j, "x"@);
        lemma_member_at(members, "y"@, 5);
        lemma_required_read_back(&self.y, j, "y"@);
        lemma_member_at(members, "z"@, 6);
        lemma_required_read_back(&self.z, j, "z"@);
    }

    proof fn lemma_one_reading(&self, other: &Self, j: JsonValue) {
        lemma_required_one_reading(&self.uuid, &other.uuid, j, "uuid"@);
        lemma_required_one_reading(&self.name, &other.name, j, "name"@);
        lemma_optional_one_reading(self.nickname, other.nickname, j, "nickname"@);
        lemma_optional_one_reading(self.server, other.server, j, "server"@);
        lemma_required_one_reading(&self.x, &other.x, j, "x"@);
        lemma_required_one_reading(&self.y, &other.y, j, "y"@);
        lemma_required_one_reading(&self.z, &other.z, j, "z"@);
    }

    proof fn lemma_read_is_valid(&self, j: JsonValue) {
        lemma_required_is_valid(&self.uuid, j, "uuid"@);
        lemma_required_is_valid(&self.name, j, "name"@);
        lemma_optional_is_valid(self.nickname, j, "nickname"@);
        lemma_optional_is_valid(self.server, j, "server"@);
        lemma_required_is_valid(&self.x, j, "x"@);
        lemma_required_is_valid(&self.y, j, "y"@);
        lemma_required_is_valid(&self.z, j, "z"@);
    }
}

} // verus!
