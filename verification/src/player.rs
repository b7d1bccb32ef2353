//! Players and their characters.

use crate::World;
use crate::classes::Class;
use crate::decode::{Decode, DecodeError, DecodeFault, Distinct, ErrorKind, Fallback, fault, Otherwise, under};
use crate::encode::{
    Blank, Encode, encode_option, encoded_option, lemma_aliased_is_valid, lemma_aliased_one_reading,
    lemma_aliased_read_back, lemma_defaulted_is_valid, lemma_defaulted_one_reading, lemma_defaulted_read_back,
    lemma_filled_is_valid, lemma_filled_one_reading, lemma_optional_is_valid, lemma_optional_one_reading,
    lemma_optional_read_back, lemma_required_is_valid, lemma_required_one_reading, lemma_required_read_back,
    valid_option,
};
use crate::fields::{
    aliased, aliased_failure, aliased_reads, defaulted, defaulted_failure, defaulted_reads, filled, filled_failure,
    filled_reads, optional, optional_failure, optional_reads, required, required_failure, required_reads, tag_of,
};
use crate::item::Profession;
use crate::json::{Json, JsonNumber, JsonValue, lemma_member_among, lemma_member_at, ObjectWriter};
use crate::text::same_text;
use crate::tokens::Token;
use vstd::prelude::*;
use vstd::string::StringExecFns;

verus! {

/// A player.
#[derive(Clone, Debug, PartialEq)]
pub struct PlayerStats {
    pub username: String,
    pub online: bool,
    pub server: Option<World>,
    pub active_character: Option<String>,
    pub uuid: String,
    pub rank: String,
    pub rank_badge: Option<String>,
    pub legacy_rank_colour: Option<LegacyRankColour>,
    pub shortened_rank: Option<String>,
    pub support_rank: SupportRank,
    pub veteran: bool,
    pub first_join: String,
    pub last_join: String,
    /// Playtime in hours
    pub playtime: JsonNumber,
    pub guild: GuildInfo,
    /// Data independent of profile
    pub global_data: GlobalData,
    pub forum_link: Option<u64>,
    pub ranking: Vec<(String, i64)>,
    pub previous_ranking: Vec<(String, i64)>,
    pub public_profile: bool,
}

impl Decode for PlayerStats {
    open spec fn failure(j: JsonValue) -> Option<DecodeFault> {
        required_failure::<String>(j, "username"@)
            .otherwise(required_failure::<bool>(j, "online"@))
            .otherwise(optional_failure::<World>(j, "server"@))
            .otherwise(optional_failure::<String>(j, "activeCharacter"@))
            .otherwise(required_failure::<String>(j, "uuid"@))
            .otherwise(required_failure::<String>(j, "rank"@))
            .otherwise(optional_failure::<String>(j, "rankBadge"@))
            .otherwise(optional_failure::<LegacyRankColour>(j, "legacyRankColour"@))
            .otherwise(optional_failure::<String>(j, "shortenedRank"@))
            .otherwise(required_failure::<SupportRank>(j, "supportRank"@))
            .otherwise(filled_failure::<bool>(j, "veteran"@))
            .otherwise(required_failure::<String>(j, "firstJoin"@))
            .otherwise(required_failure::<String>(j, "lastJoin"@))
            .otherwise(required_failure::<JsonNumber>(j, "playtime"@))
            .otherwise(required_failure::<GuildInfo>(j, "guild"@))
            .otherwise(required_failure::<GlobalData>(j, "globalData"@))
            .otherwise(optional_failure::<u64>(j, "forumLink"@))
            .otherwise(required_failure::<Vec<(String, i64)>>(j, "ranking"@))
            .otherwise(required_failure::<Vec<(String, i64)>>(j, "previousRanking"@))
            .otherwise(required_failure::<bool>(j, "publicProfile"@))
    }

    open spec fn reads(&self, j: JsonValue) -> bool {
        &&& required_reads(self.username, j, "username"@)
        &&& required_reads(self.online, j, "online"@)
        &&& optional_reads(self.server, j, "server"@)
        &&& optional_reads(self.active_character, j, "activeCharacter"@)
        &&& required_reads(self.uuid, j, "uuid"@)
        &&& required_reads(self.rank, j, "rank"@)
        &&& optional_reads(self.rank_badge, j, "rankBadge"@)
        &&& optional_reads(self.legacy_rank_colour, j, "legacyRankColour"@)
        &&& optional_reads(self.shortened_rank, j, "shortenedRank"@)
        &&& required_reads(self.support_rank, j, "supportRank"@)
        &&& filled_reads(self.veteran, j, "veteran"@)
        &&& required_reads(self.first_join, j, "firstJoin"@)
        &&& required_reads(self.last_join, j, "lastJoin"@)
        &&& required_reads(self.playtime, j, "playtime"@)
        &&& required_reads(self.guild, j, "guild"@)
        &&& required_reads(self.global_data, j, "globalData"@)
        &&& optional_reads(self.forum_link, j, "forumLink"@)
        &&& required_reads(self.ranking, j, "ranking"@)
        &&& required_reads(self.previous_ranking, j, "previousRanking"@)
        &&& required_reads(self.public_profile, j, "publicProfile"@)
    }

    fn decode(j: &Json) -> (r: Result<Self, DecodeError>) {
        let username = required::<String>(j, "username")?;
        let online = required::<bool>(j, "online")?;
        let server = optional::<World>(j, "server")?;
        let active_character = optional::<String>(j, "activeCharacter")?;
        let uuid = required::<String>(j, "uuid")?;
        let rank = required::<String>(j, "rank")?;
        let rank_badge = optional::<String>(j, "rankBadge")?;
        let legacy_rank_colour = optional::<LegacyRankColour>(j, "legacyRankColour")?;
        let shortened_rank = optional::<String>(j, "shortenedRank")?;
        let support_rank = required::<SupportRank>(j, "supportRank")?;
        let veteran = filled::<bool>(j, "veteran")?;
        let first_join = required::<String>(j, "firstJoin")?;
        let last_join = required::<String>(j, "lastJoin")?;
        let playtime = required::<JsonNumber>(j, "playtime")?;
        let guild = required::<GuildInfo>(j, "guild")?;
        let global_data = required::<GlobalData>(j, "globalData")?;
        let forum_link = optional::<u64>(j, "forumLink")?;
        let ranking = required::<Vec<(String, i64)>>(j, "ranking")?;
        let previous_ranking = required::<Vec<(String, i64)>>(j, "previousRanking")?;
        let public_profile = required::<bool>(j, "publicProfile")?;
        Ok(
            PlayerStats {
                username,
                online,
                server,
                active_character,
                uuid,
                rank,
                rank_badge,
                legacy_rank_colour,
                shortened_rank,
                support_rank,
                veteran,
                first_join,
                last_join,
                playtime,
                guild,
                global_data,
                forum_link,
                ranking,
                previous_ranking,
                public_profile,
            }
        )
    }
}

impl PlayerStats {
    /// Whether a record of this type reads the member `name`.
    pub open spec fn owns(name: Seq<char>) -> bool {
        name == "username"@
            || name == "online"@
            || name == "server"@
            || name == "activeCharacter"@
            || name == "uuid"@
            || name == "rank"@
            || name == "rankBadge"@
            || name == "legacyRankColour"@
            || name == "shortenedRank"@
            || name == "supportRank"@
            || name == "veteran"@
            || name == "firstJoin"@
            || name == "lastJoin"@
            || name == "playtime"@
            || name == "guild"@
            || name == "globalData"@
            || name == "forumLink"@
            || name == "ranking"@
            || name == "previousRanking"@
            || name == "publicProfile"@
    }

    /// The members that the record is written as.
    pub open spec fn members(&self) -> Seq<(Seq<char>, JsonValue)> {
        seq![
            ("username"@, self.username.encoded()),
            ("online"@, self.online.encoded()),
            ("server"@, encoded_option(self.server)),
            ("activeCharacter"@, encoded_option(self.active_character)),
            ("uuid"@, self.uuid.encoded()),
            ("rank"@, self.rank.encoded()),
            ("rankBadge"@, encoded_option(self.rank_badge)),
            ("legacyRankColour"@, encoded_option(self.legacy_rank_colour)),
            ("shortenedRank"@, encoded_option(self.shortened_rank)),
            ("supportRank"@, self.support_rank.encoded()),
            ("veteran"@, self.veteran.encoded()),
            ("firstJoin"@, self.first_join.encoded()),
            ("lastJoin"@, self.last_join.encoded()),
            ("playtime"@, self.playtime.encoded()),
            ("guild"@, self.guild.encoded()),
            ("globalData"@, self.global_data.encoded()),
            ("forumLink"@, encoded_option(self.forum_link)),
            ("ranking"@, self.ranking.encoded()),
            ("previousRanking"@, self.previous_ranking.encoded()),
            ("publicProfile"@, self.public_profile.encoded()),
        ]
    }

    /// What the record is written as is read as the record, also where its
    /// members come after others, as long as the record reads none of those.
    pub proof fn lemma_read_back_among(&self, before: Seq<(Seq<char>, JsonValue)>)
        requires
            self.valid(),
            forall|k: int| 0 <= k < before.len() ==> !Self::owns(#[trigger] before[k].0),
        ensures
            Self::failure(JsonValue::Object(before + self.members())) is None,
            self.reads(JsonValue::Object(before + self.members())),
    {
        let members = self.members();
        let j = JsonValue::Object(before + members);
        reveal_strlit("username");
        assert("username"@.len() == 8 && "username"@[1] == 's');
        reveal_strlit("online");
        assert("online"@.len() == 6 && "online"@[1] == 'n');
        reveal_strlit("server");
        assert("server"@.len() == 6 && "server"@[1] == 'e');
        reveal_strlit("activeCharacter");
        assert("activeCharacter"@.len() == 15 && "activeCharacter"@[1] == 'c');
        reveal_strlit("uuid");
        assert("uuid"@.len() == 4 && "uuid"@[1] == 'u');
        reveal_strlit("rank");
        assert("rank"@.len() == 4 && "rank"@[1] == 'a');
        reveal_strlit("rankBadge");
        assert("rankBadge"@.len() == 9 && "rankBadge"@[1] == 'a');
        reveal_strlit("legacyRankColour");
        assert("legacyRankColour"@.len() == 16 && "legacyRankColour"@[1] == 'e');
        reveal_strlit("shortenedRank");
        assert("shortenedRank"@.len() == 13 && "shortenedRank"@[1] == 'h');
        reveal_strlit("supportRank");
        assert("supportRank"@.len() == 11 && "supportRank"@[1] == 'u');
        reveal_strlit("veteran");
        assert("veteran"@.len() == 7 && "veteran"@[1] == 'e');
        reveal_strlit("firstJoin");
        assert("firstJoin"@.len() == 9 && "firstJoin"@[1] == 'i');
        reveal_strlit("lastJoin");
        assert("lastJoin"@.len() == 8 && "lastJoin"@[1] == 'a');
        reveal_strlit("playtime");
        assert("playtime"@.len() == 8 && "playtime"@[1] == 'l');
        reveal_strlit("guild");
        assert("guild"@.len() == 5 && "guild"@[1] == 'u');
        reveal_strlit("globalData");
        assert("globalData"@.len() == 10 && "globalData"@[1] == 'l');
        reveal_strlit("forumLink");
        assert("forumLink"@.len() == 9 && "forumLink"@[1] == 'o');
        reveal_strlit("ranking");
        assert("ranking"@.len() == 7 && "ranking"@[1] == 'a');
        reveal_strlit("previousRanking");
        assert("previousRanking"@.len() == 15 && "previousRanking"@[1] == 'r');
        reveal_strlit("publicProfile");
        assert("publicProfile"@.len() == 13 && "publicProfile"@[1] == 'u');
        lemma_member_among(before, members, "username"@, 0);
        lemma_required_read_back(&self.username, j, "username"@);
        lemma_member_among(before, members, "online"@, 1);
        lemma_required_read_back(&self.online, j, "online"@);
        lemma_member_among(before, members, "server"@, 2);
        lemma_optional_read_back(self.server, j, "server"@);
        lemma_member_among(before, members, "activeCharacter"@, 3);
        lemma_optional_read_back(self.active_character, j, "activeCharacter"@);
        lemma_member_among(before, members, "uuid"@, 4);
        lemma_required_read_back(&self.uuid, j, "uuid"@);
        lemma_member_among(before, members, "rank"@, 5);
        lemma_required_read_back(&self.rank, j, "rank"@);
        lemma_member_among(before, members, "rankBadge"@, 6);
        lemma_optional_read_back(self.rank_badge, j, "rankBadge"@);
        lemma_member_among(before, members, "legacyRankColour"@, 7);
        lemma_optional_read_back(self.legacy_rank_colour, j, "legacyRankColour"@);
        lemma_member_among(before, members, "shortenedRank"@, 8);
        lemma_optional_read_back(self.shortened_rank, j, "shortenedRank"@);
        lemma_member_among(before, members, "supportRank"@, 9);
        lemma_required_read_back(&self.support_rank, j, "supportRank"@);
        lemma_member_among(before, members, "veteran"@, 10);
        lemma_defaulted_read_back(&self.veteran, j, "veteran"@);
        lemma_member_among(before, members, "firstJoin"@, 11);
        lemma_required_read_back(&self.first_join, j, "firstJoin"@);
        lemma_member_among(before, members, "lastJoin"@, 12);
        lemma_required_read_back(&self.last_join, j, "lastJoin"@);
        lemma_member_among(before, members, "playtime"@, 13);
        lemma_required_read_back(&self.playtime, j, "playtime"@);
        lemma_member_among(before, members, "guild"@, 14);
        lemma_required_read_back(&self.guild, j, "guild"@);
        lemma_member_among(before, members, "globalData"@, 15);
        lemma_required_read_back(&self.global_data, j, "globalData"@);
        lemma_member_among(before, members, "forumLink"@, 16);
        lemma_optional_read_back(self.forum_link, j, "forumLink"@);
        lemma_member_among(before, members, "ranking"@, 17);
        lemma_required_read_back(&self.ranking, j, "ranking"@);
        lemma_member_among(before, members, "previousRanking"@, 18);
        lemma_required_read_back(&self.previous_ranking, j, "previousRanking"@);
        lemma_member_among(before, members, "publicProfile"@, 19);
        lemma_required_read_back(&self.public_profile, j, "publicProfile"@);
    }
}

impl Encode for PlayerStats {
    open spec fn valid(&self) -> bool {
        &&& self.username.valid()
        &&& self.online.valid()
        &&& valid_option(self.server)
        &&& valid_option(self.active_character)
        &&& self.uuid.valid()
        &&& self.rank.valid()
        &&& valid_option(self.rank_badge)
        &&& valid_option(self.legacy_rank_colour)
        &&& valid_option(self.shortened_rank)
        &&& self.support_rank.valid()
        &&& self.veteran.valid()
        &&& self.first_join.valid()
        &&& self.last_join.valid()
        &&& self.playtime.valid()
        &&& self.guild.valid()
        &&& self.global_data.valid()
        &&& valid_option(self.forum_link)
        &&& self.ranking.valid()
        &&& self.previous_ranking.valid()
        &&& self.public_profile.valid()
    }

    open spec fn encoded(&self) -> JsonValue {
        JsonValue::Object(self.members())
    }

    fn encode(&self) -> (j: Json) {
        let j = ObjectWriter::new()
            .with("username", self.username.encode())
            .with("online", self.online.encode())
            .with("server", encode_option(&self.server))
            .with("activeCharacter", encode_option(&self.active_character))
            .with("uuid", self.uuid.encode())
            .with("rank", self.rank.encode())
            .with("rankBadge", encode_option(&self.rank_badge))
            .with("legacyRankColour", encode_option(&self.legacy_rank_colour))
            .with("shortenedRank", encode_option(&self.shortened_rank))
            .with("supportRank", self.support_rank.encode())
            .with("veteran", self.veteran.encode())
            .with("firstJoin", self.first_join.encode())
            .with("lastJoin", self.last_join.encode())
            .with("playtime", self.playtime.encode())
            .with("guild", self.guild.encode())
            .with("globalData", self.global_data.encode())
            .with("forumLink", encode_option(&self.forum_link))
            .with("ranking", self.ranking.encode())
            .with("previousRanking", self.previous_ranking.encode())
            .with("publicProfile", self.public_profile.encode())
            .done();
        assert(j@->Object_0 =~= self.encoded()->Object_0);
        j
    }

    proof fn lemma_read_back(&self) {
        assert(Seq::<(Seq<char>, JsonValue)>::empty() + self.members() =~= self.members());
        self.lemma_read_back_among(Seq::empty());
    }

    proof fn lemma_one_reading(&self, other: &Self, j: JsonValue) {
        lemma_required_one_reading(&self.username, &other.username, j, "username"@);
        lemma_required_one_reading(&self.online, &other.online, j, "online"@);
        lemma_optional_one_reading(self.server, other.server, j, "server"@);
        lemma_optional_one_reading(self.active_character, other.active_character, j, "activeCharacter"@);
        lemma_required_one_reading(&self.uuid, &other.uuid, j, "uuid"@);
        lemma_required_one_reading(&self.rank, &other.rank, j, "rank"@);
        lemma_optional_one_reading(self.rank_badge, other.rank_badge, j, "rankBadge"@);
        lemma_optional_one_reading(self.legacy_rank_colour, other.legacy_rank_colour, j, "legacyRankColour"@);
        lemma_optional_one_reading(self.shortened_rank, other.shortened_rank, j, "shortenedRank"@);
        lemma_required_one_reading(&self.support_rank, &other.support_rank, j, "supportRank"@);
        lemma_filled_one_reading(&self.veteran, &other.veteran, j, "veteran"@);
        lemma_required_one_reading(&self.first_join, &other.first_join, j, "firstJoin"@);
        lemma_required_one_reading(&self.last_join, &other.last_join, j, "lastJoin"@);
        lemma_required_one_reading(&self.playtime, &other.playtime, j, "playtime"@);
        lemma_required_one_reading(&self.guild, &other.guild, j, "guild"@);
        lemma_required_one_reading(&self.global_data, &other.global_data, j, "globalData"@);
        lemma_optional_one_reading(self.forum_link, other.forum_link, j, "forumLink"@);
        lemma_required_one_reading(&self.ranking, &other.ranking, j, "ranking"@);
        lemma_required_one_reading(&self.previous_ranking, &other.previous_ranking, j, "previousRanking"@);
        lemma_required_one_reading(&self.public_profile, &other.public_profile, j, "publicProfile"@);
    }

    proof fn lemma_read_is_valid(&self, j: JsonValue) {
        lemma_required_is_valid(&self.username, j, "username"@);
        lemma_required_is_valid(&self.online, j, "online"@);
        lemma_optional_is_valid(self.server, j, "server"@);
        lemma_optional_is_valid(self.active_character, j, "activeCharacter"@);
        lemma_required_is_valid(&self.uuid, j, "uuid"@);
        lemma_required_is_valid(&self.rank, j, "rank"@);
        lemma_optional_is_valid(self.rank_badge, j, "rankBadge"@);
        lemma_optional_is_valid(self.legacy_rank_colour, j, "legacyRankColour"@);
        lemma_optional_is_valid(self.shortened_rank, j, "shortenedRank"@);
        lemma_required_is_valid(&self.support_rank, j, "supportRank"@);
        lemma_filled_is_valid(&self.veteran, j, "veteran"@);
        lemma_required_is_valid(&self.first_join, j, "firstJoin"@);
        lemma_required_is_valid(&self.last_join, j, "lastJoin"@);
        lemma_required_is_valid(&self.playtime, j, "playtime"@);
        lemma_required_is_valid(&self.guild, j, "guild"@);
        lemma_required_is_valid(&self.global_data, j, "globalData"@);
        lemma_optional_is_valid(self.forum_link, j, "forumLink"@);
        lemma_required_is_valid(&self.ranking, j, "ranking"@);
        lemma_required_is_valid(&self.previous_ranking, j, "previousRanking"@);
        lemma_required_is_valid(&self.public_profile, j, "publicProfile"@);
    }
}

/// The colours of a rank from before the ranks were reworked.
#[derive(Clone, Debug, PartialEq)]
pub struct LegacyRankColour {
    pub main: String,
    pub sub: String,
}

impl Decode for LegacyRankColour {
    open spec fn failure(j: JsonValue) -> Option<DecodeFault> {
        required_failure::<String>(j, "main"@)
            .otherwise(required_failure::<String>(j, "sub"@))
    }

    open spec fn reads(&self, j: JsonValue) -> bool {
        &&& required_reads(self.main, j, "main"@)
        &&& required_reads(self.sub, j, "sub"@)
    }

    fn decode(j: &Json) -> (r: Result<Self, DecodeError>) {
        let main = required::<String>(j, "main")?;
        let sub = required::<String>(j, "sub")?;
        Ok(LegacyRankColour { main, sub })
    }
}

impl Encode for LegacyRankColour {
    open spec fn valid(&self) -> bool {
        &&& self.main.valid()
        &&& self.sub.valid()
    }

    open spec fn encoded(&self) -> JsonValue {
        JsonValue::Object(
            seq![
                ("main"@, self.main.encoded()),
                ("sub"@, self.sub.encoded()),
            ],
        )
    }

    fn encode(&self) -> (j: Json) {
        let j = ObjectWriter::new()
            .with("main", self.main.encode())
            .with("sub", self.sub.encode())
            .done();
        assert(j@->Object_0 =~= self.encoded()->Object_0);
        j
    }

    proof fn lemma_read_back(&self) {
        let j = self.encoded();
        let members = j->Object_0;
        reveal_strlit("main");
        assert("main"@.len() == 4);
        reveal_strlit("sub");
        assert("sub"@.len() == 3);
        lemma_member_at(members, "main"@, 0);
        lemma_required_read_back(&self.main, j, "main"@);
        lemma_member_at(members, "sub"@, 1);
        lemma_required_read_back(&self.sub, j, "sub"@);
    }

    proof fn lemma_one_reading(&self, other: &Self, j: JsonValue) {
        lemma_required_one_reading(&self.main, &other.main, j, "main"@);
        lemma_required_one_reading(&self.sub, &other.sub, j, "sub"@);
    }

    proof fn lemma_read_is_valid(&self, j: JsonValue) {
        lemma_required_is_valid(&self.main, j, "main"@);
        lemma_required_is_valid(&self.sub, j, "sub"@);
    }
}

/// The guild of a player.
#[derive(Clone, Debug, PartialEq)]
pub struct GuildInfo {
    pub name: String,
    pub prefix: String,
    pub rank: String,
    pub rank_stars: String,
}

impl Decode for GuildInfo {
    open spec fn failure(j: JsonValue) -> Option<DecodeFault> {
        required_failure::<String>(j, "name"@)
            .otherwise(filled_failure::<String>(j, "prefix"@))
            .otherwise(required_failure::<String>(j, "rank"@))
            .otherwise(required_failure::<String>(j, "rankStars"@))
    }

    open spec fn reads(&self, j: JsonValue) -> bool {
        &&& required_reads(self.name, j, "name"@)
        &&& filled_reads(self.prefix, j, "prefix"@)
        &&& required_reads(self.rank, j, "rank"@)
        &&& required_reads(self.rank_stars, j, "rankStars"@)
    }

    fn decode(j: &Json) -> (r: Result<Self, DecodeError>) {
        let name = required::<String>(j, "name")?;
        let prefix = filled::<String>(j, "prefix")?;
        let rank = required::<String>(j, "rank")?;
        let rank_stars = required::<String>(j, "rankStars")?;
        Ok(GuildInfo { name, prefix, rank, rank_stars })
    }
}

impl Encode for GuildInfo {
    open spec fn valid(&self) -> bool {
        &&& self.name.valid()
        &&& self.prefix.valid()
        &&& self.rank.valid()
        &&& self.rank_stars.valid()
    }

    open spec fn encoded(&self) -> JsonValue {
        JsonValue::Object(
            seq![
                ("name"@, self.name.encoded()),
                ("prefix"@, self.prefix.encoded()),
                ("rank"@, self.rank.encoded()),
                ("rankStars"@, self.rank_stars.encoded()),
            ],
        )
    }

    fn encode(&self) -> (j: Json) {
        let j = ObjectWriter::new()
            .with("name", self.name.encode())
            .with("prefix", self.prefix.encode())
            .with("rank", self.rank.encode())
            .with("rankStars", self.rank_stars.encode())
            .done();
        assert(j@->Object_0 =~= self.encoded()->Object_0);
        j
    }

    proof fn lemma_read_back(&self) {
        let j = self.encoded();
        let members = j->Object_0;
        reveal_strlit("name");
        assert("name"@.len() == 4 && "name"@[0] == 'n');
        reveal_strlit("prefix");
        assert("prefix"@.len() == 6 && "prefix"@[0] == 'p');
        reveal_strlit("rank");
        assert("rank"@.len() == 4 && "rank"@[0] == 'r');
        reveal_strlit("rankStars");
        assert("rankStars"@.len() == 9 && "rankStars"@[0] == 'r');
        lemma_member_at(members, "name"@, 0);
        lemma_required_read_back(&self.name, j, "name"@);
        lemma_member_at(members, "prefix"@, 1);
        lemma_defaulted_read_back(&self.prefix, j, "prefix"@);
        lemma_member_at(members, "rank"@, 2);
        lemma_required_read_back(&self.rank, j, "rank"@);
        lemma_member_at(members, "rankStars"@, 3);
        lemma_required_read_back(&self.rank_stars, j, "rankStars"@);
    }

    proof fn lemma_one_reading(&self, other: &Self, j: JsonValue) {
        lemma_required_one_reading(&self.name, &other.name, j, "name"@);
        lemma_filled_one_reading(&self.prefix, &other.prefix, j, "prefix"@);
        lemma_required_one_reading(&self.rank, &other.rank, j, "rank"@);
        lemma_required_one_reading(&self.rank_stars, &other.rank_stars, j, "rankStars"@);
    }

    proof fn lemma_read_is_valid(&self, j: JsonValue) {
        lemma_required_is_valid(&self.name, j, "name"@);
        lemma_filled_is_valid(&self.prefix, j, "prefix"@);
        lemma_required_is_valid(&self.rank, j, "rank"@);
        lemma_required_is_valid(&self.rank_stars, j, "rankStars"@);
    }
}

/// What a player has done over all characters.
#[derive(Clone, Debug, PartialEq)]
pub struct GlobalData {
    pub wars: u64,
    pub total_level: u64,
    pub killed_mobs: u64,
    pub chests_found: u64,
    pub dungeons: DungeonInfo,
    pub raids: RaidInfo,
    pub completed_quests: u64,
    pub pvp: Pvp,
}

impl Decode for GlobalData {
    open spec fn failure(j: JsonValue) -> Option<DecodeFault> {
        required_failure::<u64>(j, "wars"@)
            .otherwise(required_failure::<u64>(j, "totalLevel"@))
            .otherwise(required_failure::<u64>(j, "killedMobs"@))
            .otherwise(required_failure::<u64>(j, "chestsFound"@))
            .otherwise(defaulted_failure::<DungeonInfo>(j, "dungeons"@))
            .otherwise(defaulted_failure::<RaidInfo>(j, "raids"@))
            .otherwise(required_failure::<u64>(j, "completedQuests"@))
            .otherwise(required_failure::<Pvp>(j, "pvp"@))
    }

    open spec fn reads(&self, j: JsonValue) -> bool {
        &&& required_reads(self.wars, j, "wars"@)
        &&& required_reads(self.total_level, j, "totalLevel"@)
        &&& required_reads(self.killed_mobs, j, "killedMobs"@)
        &&& required_reads(self.chests_found, j, "chestsFound"@)
        &&& defaulted_reads(self.dungeons, j, "dungeons"@)
        &&& defaulted_reads(self.raids, j, "raids"@)
        &&& required_reads(self.completed_quests, j, "completedQuests"@)
        &&& required_reads(self.pvp, j, "pvp"@)
    }

    fn decode(j: &Json) -> (r: Result<Self, DecodeError>) {
        let wars = required::<u64>(j, "wars")?;
        let total_level = required::<u64>(j, "totalLevel")?;
        let killed_mobs = required::<u64>(j, "killedMobs")?;
        let chests_found = required::<u64>(j, "chestsFound")?;
        let dungeons = defaulted::<DungeonInfo>(j, "dungeons")?;
        let raids = defaulted::<RaidInfo>(j, "raids")?;
        let completed_quests = required::<u64>(j, "completedQuests")?;
        let pvp = required::<Pvp>(j, "pvp")?;
        Ok(GlobalData { wars, total_level, killed_mobs, chests_found, dungeons, raids, completed_quests, pvp })
    }
}

impl Encode for GlobalData {
    open spec fn valid(&self) -> bool {
        &&& self.wars.valid()
        &&& self.total_level.valid()
        &&& self.killed_mobs.valid()
        &&& self.chests_found.valid()
        &&& self.dungeons.valid()
        &&& self.raids.valid()
        &&& self.completed_quests.valid()
        &&& self.pvp.valid()
    }

    open spec fn encoded(&self) -> JsonValue {
        JsonValue::Object(
            seq![
                ("wars"@, self.wars.encoded()),
                ("totalLevel"@, self.total_level.encoded()),
                ("killedMobs"@, self.killed_mobs.encoded()),
                ("chestsFound"@, self.chests_found.encoded()),
                ("dungeons"@, self.dungeons.encoded()),
                ("raids"@, self.raids.encoded()),
                ("completedQuests"@, self.completed_quests.encoded()),
                ("pvp"@, self.pvp.encoded()),
            ],
        )
    }

    fn encode(&self) -> (j: Json) {
        let j = ObjectWriter::new()
            .with("wars", self.wars.encode())
            .with("totalLevel", self.total_level.encode())
            .with("killedMobs", self.killed_mobs.encode())
            .with("chestsFound", self.chests_found.encode())
            .with("dungeons", self.dungeons.encode())
            .with("raids", self.raids.encode())
            .with("completedQuests", self.completed_quests.encode())
            .with("pvp", self.pvp.encode())
            .done();
        assert(j@->Object_0 =~= self.encoded()->Object_0);
        j
    }

    proof fn lemma_read_back(&self) {
        let j = self.encoded();
        let members = j->Object_0;
        reveal_strlit("wars");
        assert("wars"@.len() == 4 && "wars"@[0] == 'w');
        reveal_strlit("totalLevel");
        assert("totalLevel"@.len() == 10 && "totalLevel"@[0] == 't');
        reveal_strlit("killedMobs");
        assert("killedMobs"@.len() == 10 && "killedMobs"@[0] == 'k');
        reveal_strlit("chestsFound");
        assert("chestsFound"@.len() == 11 && "chestsFound"@[0] == 'c');
        reveal_strlit("dungeons");
        assert("dungeons"@.len() == 8 && "dungeons"@[0] == 'd');
        reveal_strlit("raids");
        assert("raids"@.len() == 5 && "raids"@[0] == 'r');
        reveal_strlit("completedQuests");
        assert("completedQuests"@.len() == 15 && "completedQuests"@[0] == 'c');
        reveal_strlit("pvp");
        assert("pvp"@.len() == 3 && "pvp"@[0] == 'p');
        lemma_member_at(members, "wars"@, 0);
        lemma_required_read_back(&self.wars, j, "wars"@);
        lemma_member_at(members, "totalLevel"@, 1);
        lemma_required_read_back(&self.total_level, j, "totalLevel"@);
        lemma_member_at(members, "killedMobs"@, 2);
        lemma_required_read_back(&self.killed_mobs, j, "killedMobs"@);
        lemma_member_at(members, "chestsFound"@, 3);
        lemma_required_read_back(&self.chests_found, j, "chestsFound"@);
        lemma_member_at(members, "dungeons"@, 4);
        lemma_defaulted_read_back(&self.dungeons, j, "dungeons"@);
        lemma_member_at(members, "raids"@, 5);
        lemma_defaulted_read_back(&self.raids, j, "raids"@);
        lemma_member_at(members, "completedQuests"@, 6);
        lemma_required_read_back(&self.completed_quests, j, "completedQuests"@);
        lemma_member_at(members, "pvp"@, 7);
        lemma_required_read_back(&self.pvp, j, "pvp"@);
    }

    proof fn lemma_one_reading(&self, other: &Self, j: JsonValue) {
        lemma_required_one_reading(&self.wars, &other.wars, j, "wars"@);
        lemma_required_one_reading(&self.total_level, &other.total_level, j, "totalLevel"@);
        lemma_required_one_reading(&self.killed_mobs, &other.killed_mobs, j, "killedMobs"@);
        lemma_required_one_reading(&self.chests_found, &other.chests_found, j, "chestsFound"@);
        lemma_defaulted_one_reading(&self.dungeons, &other.dungeons, j, "dungeons"@);
        lemma_defaulted_one_reading(&self.raids, &other.raids, j, "raids"@);
        lemma_required_one_reading(&self.completed_quests, &other.completed_quests, j, "completedQuests"@);
        lemma_required_one_reading(&self.pvp, &other.pvp, j, "pvp"@);
    }

    proof fn lemma_read_is_valid(&self, j: JsonValue) {
        lemma_required_is_valid(&self.wars, j, "wars"@);
        lemma_required_is_valid(&self.total_level, j, "totalLevel"@);
        lemma_required_is_valid(&self.killed_mobs, j, "killedMobs"@);
        lemma_required_is_valid(&self.chests_found, j, "chestsFound"@);
        lemma_defaulted_is_valid(&self.dungeons, j, "dungeons"@);
        lemma_defaulted_is_valid(&self.raids, j, "raids"@);
        lemma_required_is_valid(&self.completed_quests, j, "completedQuests"@);
        lemma_required_is_valid(&self.pvp, j, "pvp"@);
    }
}

/// The dungeons that were completed, by name.
#[derive(Clone, Debug, PartialEq)]
pub struct DungeonInfo {
    pub total: u64,
    pub list: Vec<(String, u64)>,
}

impl Decode for DungeonInfo {
    open spec fn failure(j: JsonValue) -> Option<DecodeFault> {
        required_failure::<u64>(j, "total"@)
            .otherwise(required_failure::<Vec<(String, u64)>>(j, "list"@))
    }

    open spec fn reads(&self, j: JsonValue) -> bool {
        &&& required_reads(self.total, j, "total"@)
        &&& required_reads(self.list, j, "list"@)
    }

    fn decode(j: &Json) -> (r: Result<Self, DecodeError>) {
        let total = required::<u64>(j, "total")?;
        let list = required::<Vec<(String, u64)>>(j, "list")?;
        Ok(DungeonInfo { total, list })
    }
}

impl Encode for DungeonInfo {
    open spec fn valid(&self) -> bool {
        &&& self.total.valid()
        &&& self.list.valid()
    }

    open spec fn encoded(&self) -> JsonValue {
        JsonValue::Object(
            seq![
                ("total"@, self.total.encoded()),
                ("list"@, self.list.encoded()),
            ],
        )
    }

    fn encode(&self) -> (j: Json) {
        let j = ObjectWriter::new()
            .with("total", self.total.encode())
            .with("list", self.list.encode())
            .done();
        assert(j@->Object_0 =~= self.encoded()->Object_0);
        j
    }

    proof fn lemma_read_back(&self) {
        let j = self.encoded();
        let members = j->Object_0;
        reveal_strlit("total");
        assert("total"@.len() == 5);
        reveal_strlit("list");
        assert("list"@.len() == 4);
        lemma_member_at(members, "total"@, 0);
        lemma_required_read_back(&self.total, j, "total"@);
        lemma_member_at(members, "list"@, 1);
        lemma_required_read_back(&self.list, j, "list"@);
    }

    proof fn lemma_one_reading(&self, other: &Self, j: JsonValue) {
        lemma_required_one_reading(&self.total, &other.total, j, "total"@);
        lemma_required_one_reading(&self.list, &other.list, j, "list"@);
    }

    proof fn lemma_read_is_valid(&self, j: JsonValue) {
        lemma_required_is_valid(&self.total, j, "total"@);
        lemma_required_is_valid(&self.list, j, "list"@);
    }
}

/// The raids that were completed, by name.
#[derive(Clone, Debug, PartialEq)]
pub struct RaidInfo {
    pub total: u64,
    pub list: Vec<(String, u64)>,
}

impl Decode for RaidInfo {
    open spec fn failure(j: JsonValue) -> Option<DecodeFault> {
        required_failure::<u64>(j, "total"@)
            .otherwise(required_failure::<Vec<(String, u64)>>(j, "list"@))
    }

    open spec fn reads(&self, j: JsonValue) -> bool {
        &&& required_reads(self.total, j, "total"@)
        &&& required_reads(self.list, j, "list"@)
    }

    fn decode(j: &Json) -> (r: Result<Self, DecodeError>) {
        let total = required::<u64>(j, "total")?;
        let list = required::<Vec<(String, u64)>>(j, "list")?;
        Ok(RaidInfo { total, list })
    }
}

impl Encode for RaidInfo {
    open spec fn valid(&self) -> bool {
        &&& self.total.valid()
        &&& self.list.valid()
    }

    open spec fn encoded(&self) -> JsonValue {
        JsonValue::Object(
            seq![
                ("total"@, self.total.encoded()),
                ("list"@, self.list.encoded()),
            ],
        )
    }

    fn encode(&self) -> (j: Json) {
        let j = ObjectWriter::new()
            .with("total", self.total.encode())
            .with("list", self.list.encode())
            .done();
        assert(j@->Object_0 =~= self.encoded()->Object_0);
        j
    }

    proof fn lemma_read_back(&self) {
        let j = self.encoded();
        let members = j->Object_0;
        reveal_strlit("total");
        assert("total"@.len() == 5);
        reveal_strlit("list");
        assert("list"@.len() == 4);
        lemma_member_at(members, "total"@, 0);
        lemma_required_read_back(&self.total, j, "total"@);
        lemma_member_at(members, "list"@, 1);
        lemma_required_read_back(&self.list, j, "list"@);
    }

    proof fn lemma_one_reading(&self, other: &Self, j: JsonValue) {
        lemma_required_one_reading(&self.total, &other.total, j, "total"@);
        lemma_required_one_reading(&self.list, &other.list, j, "list"@);
    }

    proof fn lemma_read_is_valid(&self, j: JsonValue) {
        lemma_required_is_valid(&self.total, j, "total"@);
        lemma_required_is_valid(&self.list, j, "list"@);
    }
}

/// Kills and deaths against other players.
#[derive(Clone, Debug, PartialEq)]
pub struct Pvp {
    pub kills: u64,
    pub deaths: u64,
}

impl Decode for Pvp {
    open spec fn failure(j: JsonValue) -> Option<DecodeFault> {
        required_failure::<u64>(j, "kills"@)
            .otherwise(required_failure::<u64>(j, "deaths"@))
    }

    open spec fn reads(&self, j: JsonValue) -> bool {
        &&& required_reads(self.kills, j, "kills"@)
        &&& required_reads(self.deaths, j, "deaths"@)
    }

    fn decode(j: &Json) -> (r: Result<Self, DecodeError>) {
        let kills = required::<u64>(j, "kills")?;
        let deaths = required::<u64>(j, "deaths")?;
        Ok(Pvp { kills, deaths })
    }
}

impl Encode for Pvp {
    open spec fn valid(&self) -> bool {
        &&& self.kills.valid()
        &&& self.deaths.valid()
    }

    open spec fn encoded(&self) -> JsonValue {
        JsonValue::Object(
            seq![
                ("kills"@, self.kills.encoded()),
                ("deaths"@, self.deaths.encoded()),
            ],
        )
    }

    fn encode(&self) -> (j: Json) {
        let j = ObjectWriter::new()
            .with("kills", self.kills.encode())
            .with("deaths", self.deaths.encode())
            .done();
        assert(j@->Object_0 =~= self.encoded()->Object_0);
        j
    }

    proof fn lemma_read_back(&self) {
        let j = self.encoded();
        let members = j->Object_0;
        reveal_strlit("kills");
        assert("kills"@.len() == 5);
        reveal_strlit("deaths");
        assert("deaths"@.len() == 6);
        lemma_member_at(members, "kills"@, 0);
        lemma_required_read_back(&self.kills, j, "kills"@);
        lemma_member_at(members, "deaths"@, 1);
        lemma_required_read_back(&self.deaths, j, "deaths"@);
    }

    proof fn lemma_one_reading(&self, other: &Self, j: JsonValue) {
        lemma_required_one_reading(&self.kills, &other.kills, j, "kills"@);
        lemma_required_one_reading(&self.deaths, &other.deaths, j, "deaths"@);
    }

    proof fn lemma_read_is_valid(&self, j: JsonValue) {
        lemma_required_is_valid(&self.kills, j, "kills"@);
        lemma_required_is_valid(&self.deaths, j, "deaths"@);
    }
}

/// A character of a player.
#[derive(Clone, Debug, PartialEq)]
pub struct Character {
    pub class_type: Class,
    pub nickname: Option<String>,
    pub level: u8,
    pub xp: u64,
    /// Always between 0 and 100 even when lvl 106
    pub xp_percent: u8,
    pub total_level: u64,
    pub wars: u64,
    pub playtime: JsonNumber,
    pub mobs_killed: u64,
    pub chests_found: u64,
    pub blocks_walked: u64,
    pub items_identified: u64,
    pub logins: u64,
    pub deaths: u64,
    pub discoveries: u64,
    /// This field isnt documented for some reason
    pub pre_economy: bool,
    pub pvp: Pvp,
    pub gamemode: Vec<String>,
    pub skill_points: SkillPoints,
    pub professions: Professions,
    pub dungeons: DungeonInfo,
    pub raids: RaidInfo,
    pub quests: Vec<String>,
}

impl Decode for Character {
    open spec fn failure(j: JsonValue) -> Option<DecodeFault> {
        required_failure::<Class>(j, "type"@)
            .otherwise(optional_failure::<String>(j, "nickname"@))
            .otherwise(required_failure::<u8>(j, "level"@))
            .otherwise(required_failure::<u64>(j, "xp"@))
            .otherwise(required_failure::<u8>(j, "xpPercent"@))
            .otherwise(required_failure::<u64>(j, "totalLevel"@))
            .otherwise(required_failure::<u64>(j, "wars"@))
            .otherwise(required_failure::<JsonNumber>(j, "playtime"@))
            .otherwise(required_failure::<u64>(j, "mobsKilled"@))
            .otherwise(required_failure::<u64>(j, "chestsFound"@))
            .otherwise(required_failure::<u64>(j, "blocksWalked"@))
            .otherwise(required_failure::<u64>(j, "itemsIdentified"@))
            .otherwise(required_failure::<u64>(j, "logins"@))
            .otherwise(required_failure::<u64>(j, "deaths"@))
            .otherwise(required_failure::<u64>(j, "discoveries"@))
            .otherwise(required_failure::<bool>(j, "preEconomy"@))
            .otherwise(required_failure::<Pvp>(j, "pvp"@))
            .otherwise(required_failure::<Distinct<String>>(j, "gamemode"@))
            .otherwise(required_failure::<SkillPoints>(j, "skillPoints"@))
            .otherwise(required_failure::<Professions>(j, "professions"@))
            .otherwise(required_failure::<DungeonInfo>(j, "dungeons"@))
            .otherwise(required_failure::<RaidInfo>(j, "raids"@))
            .otherwise(required_failure::<Distinct<String>>(j, "quests"@))
    }

    open spec fn reads(&self, j: JsonValue) -> bool {
        &&& required_reads(self.class_type, j, "type"@)
        &&& optional_reads(self.nickname, j, "nickname"@)
        &&& required_reads(self.level, j, "level"@)
        &&& required_reads(self.xp, j, "xp"@)
        &&& required_reads(self.xp_percent, j, "xpPercent"@)
        &&& required_reads(self.total_level, j, "totalLevel"@)
        &&& required_reads(self.wars, j, "wars"@)
        &&& required_reads(self.playtime, j, "playtime"@)
        &&& required_reads(self.mobs_killed, j, "mobsKilled"@)
        &&& required_reads(self.chests_found, j, "chestsFound"@)
        &&& required_reads(self.blocks_walked, j, "blocksWalked"@)
        &&& required_reads(self.items_identified, j, "itemsIdentified"@)
        &&& required_reads(self.logins, j, "logins"@)
        &&& required_reads(self.deaths, j, "deaths"@)
        &&& required_reads(self.discoveries, j, "discoveries"@)
        &&& required_reads(self.pre_economy, j, "preEconomy"@)
        &&& required_reads(self.pvp, j, "pvp"@)
        &&& required_reads(Distinct(self.gamemode), j, "gamemode"@)
        &&& required_reads(self.skill_points, j, "skillPoints"@)
        &&& required_reads(self.professions, j, "professions"@)
        &&& required_reads(self.dungeons, j, "dungeons"@)
        &&& required_reads(self.raids, j, "raids"@)
        &&& required_reads(Distinct(self.quests), j, "quests"@)
    }

    fn decode(j: &Json) -> (r: Result<Self, DecodeError>) {
        let class_type = required::<Class>(j, "type")?;
        let nickname = optional::<String>(j, "nickname")?;
        let level = required::<u8>(j, "level")?;
        let xp = required::<u64>(j, "xp")?;
        let xp_percent = required::<u8>(j, "xpPercent")?;
        let total_level = required::<u64>(j, "totalLevel")?;
        let wars = required::<u64>(j, "wars")?;
        let playtime = required::<JsonNumber>(j, "playtime")?;
        let mobs_killed = required::<u64>(j, "mobsKilled")?;
        let chests_found = required::<u64>(j, "chestsFound")?;
        let blocks_walked = required::<u64>(j, "blocksWalked")?;
        let items_identified = required::<u64>(j, "itemsIdentified")?;
        let logins = required::<u64>(j, "logins")?;
        let deaths = required::<u64>(j, "deaths")?;
        let discoveries = required::<u64>(j, "discoveries")?;
        let pre_economy = required::<bool>(j, "preEconomy")?;
        let pvp = required::<Pvp>(j, "pvp")?;
        let gamemode = required::<Distinct<String>>(j, "gamemode")?.0;
        let skill_points = required::<SkillPoints>(j, "skillPoints")?;
        let professions = required::<Professions>(j, "professions")?;
        let dungeons = required::<DungeonInfo>(j, "dungeons")?;
        let raids = required::<RaidInfo>(j, "raids")?;
        let quests = required::<Distinct<String>>(j, "quests")?.0;
        Ok(
            Character {
                class_type,
                nickname,
                level,
                xp,
                xp_percent,
                total_level,
                wars,
                playtime,
                mobs_killed,
                chests_found,
                blocks_walked,
                items_identified,
                logins,
                deaths,
                discoveries,
                pre_economy,
                pvp,
                gamemode,
                skill_points,
                professions,
                dungeons,
                raids,
                quests,
            }
        )
    }
}

impl Encode for Character {
    open spec fn valid(&self) -> bool {
        &&& self.class_type.valid()
        &&& valid_option(self.nickname)
        &&& self.level.valid()
        &&& self.xp.valid()
        &&& self.xp_percent.valid()
        &&& self.total_level.valid()
        &&& self.wars.valid()
        &&& self.playtime.valid()
        &&& self.mobs_killed.valid()
        &&& self.chests_found.valid()
        &&& self.blocks_walked.valid()
        &&& self.items_identified.valid()
        &&& self.logins.valid()
        &&& self.deaths.valid()
        &&& self.discoveries.valid()
        &&& self.pre_economy.valid()
        &&& self.pvp.valid()
        &&& Distinct(self.gamemode).valid()
        &&& self.skill_points.valid()
        &&& self.professions.valid()
        &&& self.dungeons.valid()
        &&& self.raids.valid()
        &&& Distinct(self.quests).valid()
    }

    open spec fn encoded(&self) -> JsonValue {
        JsonValue::Object(
            seq![
                ("type"@, self.class_type.encoded()),
                ("nickname"@, encoded_option(self.nickname)),
                ("level"@, self.level.encoded()),
                ("xp"@, self.xp.encoded()),
                ("xpPercent"@, self.xp_percent.encoded()),
                ("totalLevel"@, self.total_level.encoded()),
                ("wars"@, self.wars.encoded()),
                ("playtime"@, self.playtime.encoded()),
                ("mobsKilled"@, self.mobs_killed.encoded()),
                ("chestsFound"@, self.chests_found.encoded()),
                ("blocksWalked"@, self.blocks_walked.encoded()),
                ("itemsIdentified"@, self.items_identified.encoded()),
                ("logins"@, self.logins.encoded()),
                ("deaths"@, self.deaths.encoded()),
                ("discoveries"@, self.discoveries.encoded()),
                ("preEconomy"@, self.pre_economy.encoded()),
                ("pvp"@, self.pvp.encoded()),
                ("gamemode"@, Distinct(self.gamemode).encoded()),
                ("skillPoints"@, self.skill_points.encoded()),
                ("professions"@, self.professions.encoded()),
                ("dungeons"@, self.dungeons.encoded()),
                ("raids"@, self.raids.encoded()),
                ("quests"@, Distinct(self.quests).encoded()),
            ],
        )
    }

    fn encode(&self) -> (j: Json) {
        let j = ObjectWriter::new()
            .with("type", self.class_type.encode())
            .with("nickname", encode_option(&self.nickname))
            .with("level", self.level.encode())
            .with("xp", self.xp.encode())
            .with("xpPercent", self.xp_percent.encode())
            .with("totalLevel", self.total_level.encode())
            .with("wars", self.wars.encode())
            .with("playtime", self.playtime.encode())
            .with("mobsKilled", self.mobs_killed.encode())
            .with("chestsFound", self.chests_found.encode())
            .with("blocksWalked", self.blocks_walked.encode())
            .with("itemsIdentified", self.items_identified.encode())
            .with("logins", self.logins.encode())
            .with("deaths", self.deaths.encode())
            .with("discoveries", self.discoveries.encode())
            .with("preEconomy", self.pre_economy.encode())
            .with("pvp", self.pvp.encode())
            .with("gamemode", self.gamemode.encode())
            .with("skillPoints", self.skill_points.encode())
            .with("professions", self.professions.encode())
            .with("dungeons", self.dungeons.encode())
            .with("raids", self.raids.encode())
            .with("quests", self.quests.encode())
            .done();
        assert(j@->Object_0 =~= self.encoded()->Object_0);
        j
    }

    proof fn lemma_read_back(&self) {
        let j = self.encoded();
        let members = j->Object_0;
        reveal_strlit("type");
        assert("type"@.len() == 4 && "type"@[0] == 't');
        reveal_strlit("nickname");
        assert("nickname"@.len() == 8 && "nickname"@[0] == 'n');
        reveal_strlit("level");
        assert("level"@.len() == 5 && "level"@[0] == 'l');
        reveal_strlit("xp");
        assert("xp"@.len() == 2 && "xp"@[0] == 'x');
        reveal_strlit("xpPercent");
        assert("xpPercent"@.len() == 9 && "xpPercent"@[0] == 'x');
        reveal_strlit("totalLevel");
        assert("totalLevel"@.len() == 10 && "totalLevel"@[0] == 't');
        reveal_strlit("wars");
        assert("wars"@.len() == 4 && "wars"@[0] == 'w');
        reveal_strlit("playtime");
        assert("playtime"@.len() == 8 && "playtime"@[0] == 'p');
        reveal_strlit("mobsKilled");
        assert("mobsKilled"@.len() == 10 && "mobsKilled"@[0] == 'm');
        reveal_strlit("chestsFound");
        assert("chestsFound"@.len() == 11 && "chestsFound"@[0] == 'c');
        reveal_strlit("blocksWalked");
        assert("blocksWalked"@.len() == 12 && "blocksWalked"@[0] == 'b');
        reveal_strlit("itemsIdentified");
        assert("itemsIdentified"@.len() == 15 && "itemsIdentified"@[0] == 'i');
        reveal_strlit("logins");
        assert("logins"@.len() == 6 && "logins"@[0] == 'l');
        reveal_strlit("deaths");
        assert("deaths"@.len() == 6 && "deaths"@[0] == 'd');
        reveal_strlit("discoveries");
        assert("discoveries"@.len() == 11 && "discoveries"@[0] == 'd');
        reveal_strlit("preEconomy");
        assert("preEconomy"@.len() == 10 && "preEconomy"@[0] == 'p');
        reveal_strlit("pvp");
        assert("pvp"@.len() == 3 && "pvp"@[0] == 'p');
        reveal_strlit("gamemode");
        assert("gamemode"@.len() == 8 && "gamemode"@[0] == 'g');
        reveal_strlit("skillPoints");
        assert("skillPoints"@.len() == 11 && "skillPoints"@[0] == 's');
        reveal_strlit("professions");
        assert("professions"@.len() == 11 && "professions"@[0] == 'p');
        reveal_strlit("dungeons");
        assert("dungeons"@.len() == 8 && "dungeons"@[0] == 'd');
        reveal_strlit("raids");
        assert("raids"@.len() == 5 && "raids"@[0] == 'r');
        reveal_strlit("quests");
        assert("quests"@.len() == 6 && "quests"@[0] == 'q');
        lemma_member_at(members, "type"@, 0);
        lemma_required_read_back(&self.class_type, j, "type"@);
        lemma_member_at(members, "nickname"@, 1);
        lemma_optional_read_back(self.nickname, j, "nickname"@);
        lemma_member_at(members, "level"@, 2);
        lemma_required_read_back(&self.level, j, "level"@);
        lemma_member_at(members, "xp"@, 3);
        lemma_required_read_back(&self.xp, j, "xp"@);
        lemma_member_at(members, "xpPercent"@, 4);
        lemma_required_read_back(&self.xp_percent, j, "xpPercent"@);
        lemma_member_at(members, "totalLevel"@, 5);
        lemma_required_read_back(&self.total_level, j, "totalLevel"@);
        lemma_member_at(members, "wars"@, 6);
        lemma_required_read_back(&self.wars, j, "wars"@);
        lemma_member_at(members, "playtime"@, 7);
        lemma_required_read_back(&self.playtime, j, "playtime"@);
        lemma_member_at(members, "mobsKilled"@, 8);
        lemma_required_read_back(&self.mobs_killed, j, "mobsKilled"@);
        lemma_member_at(members, "chestsFound"@, 9);
        lemma_required_read_back(&self.chests_found, j, "chestsFound"@);
        lemma_member_at(members, "blocksWalked"@, 10);
        lemma_required_read_back(&self.blocks_walked, j, "blocksWalked"@);
        lemma_member_at(members, "itemsIdentified"@, 11);
        lemma_required_read_back(&self.items_identified, j, "itemsIdentified"@);
        lemma_member_at(members, "logins"@, 12);
        lemma_required_read_back(&self.logins, j, "logins"@);
        lemma_member_at(members, "deaths"@, 13);
        lemma_required_read_back(&self.deaths, j, "deaths"@);
        lemma_member_at(members, "discoveries"@, 14);
        lemma_required_read_back(&self.discoveries, j, "discoveries"@);
        lemma_member_at(members, "preEconomy"@, 15);
        lemma_required_read_back(&self.pre_economy, j, "preEconomy"@);
        lemma_member_at(members, "pvp"@, 16);
        lemma_required_read_back(&self.pvp, j, "pvp"@);
        lemma_member_at(members, "gamemode"@, 17);
        lemma_required_read_back(&Distinct(self.gamemode), j, "gamemode"@);
        lemma_member_at(members, "skillPoints"@, 18);
        lemma_required_read_back(&self.skill_points, j, "skillPoints"@);
        lemma_member_at(members, "professions"@, 19);
        lemma_required_read_back(&self.professions, j, "professions"@);
        lemma_member_at(members, "dungeons"@, 20);
        lemma_required_read_back(&self.dungeons, j, "dungeons"@);
        lemma_member_at(members, "raids"@, 21);
        lemma_required_read_back(&self.raids, j, "raids"@);
        lemma_member_at(members, "quests"@, 22);
        lemma_required_read_back(&Distinct(self.quests), j, "quests"@);
    }

    proof fn lemma_one_reading(&self, other: &Self, j: JsonValue) {
        lemma_required_one_reading(&self.class_type, &other.class_type, j, "type"@);
        lemma_optional_one_reading(self.nickname, other.nickname, j, "nickname"@);
        lemma_required_one_reading(&self.level, &other.level, j, "level"@);
        lemma_required_one_reading(&self.xp, &other.xp, j, "xp"@);
        lemma_required_one_reading(&self.xp_percent, &other.xp_percent, j, "xpPercent"@);
        lemma_required_one_reading(&self.total_level, &other.total_level, j, "totalLevel"@);
        lemma_required_one_reading(&self.wars, &other.wars, j, "wars"@);
        lemma_required_one_reading(&self.playtime, &other.playtime, j, "playtime"@);
        lemma_required_one_reading(&self.mobs_killed, &other.mobs_killed, j, "mobsKilled"@);
        lemma_required_one_reading(&self.chests_found, &other.chests_found, j, "chestsFound"@);
        lemma_required_one_reading(&self.blocks_walked, &other.blocks_walked, j, "blocksWalked"@);
        lemma_required_one_reading(&self.items_identified, &other.items_identified, j, "itemsIdentified"@);
        lemma_required_one_reading(&self.logins, &other.logins, j, "logins"@);
        lemma_required_one_reading(&self.deaths, &other.deaths, j, "deaths"@);
        lemma_required_one_reading(&self.discoveries, &other.discoveries, j, "discoveries"@);
        lemma_required_one_reading(&self.pre_economy, &other.pre_economy, j, "preEconomy"@);
        lemma_required_one_reading(&self.pvp, &other.pvp, j, "pvp"@);
        lemma_required_one_reading(&Distinct(self.gamemode), &Distinct(other.gamemode), j, "gamemode"@);
        lemma_required_one_reading(&self.skill_points, &other.skill_points, j, "skillPoints"@);
        lemma_required_one_reading(&self.professions, &other.professions, j, "professions"@);
        lemma_required_one_reading(&self.dungeons, &other.dungeons, j, "dungeons"@);
        lemma_required_one_reading(&self.raids, &other.raids, j, "raids"@);
        lemma_required_one_reading(&Distinct(self.quests), &Distinct(other.quests), j, "quests"@);
    }

    proof fn lemma_read_is_valid(&self, j: JsonValue) {
        lemma_required_is_valid(&self.class_type, j, "type"@);
        lemma_optional_is_valid(self.nickname, j, "nickname"@);
        lemma_required_is_valid(&self.level, j, "level"@);
        lemma_required_is_valid(&self.xp, j, "xp"@);
        lemma_required_is_valid(&self.xp_percent, j, "xpPercent"@);
        lemma_required_is_valid(&self.total_level, j, "totalLevel"@);
        lemma_required_is_valid(&self.wars, j, "wars"@);
        lemma_required_is_valid(&self.playtime, j, "playtime"@);
        lemma_required_is_valid(&self.mobs_killed, j, "mobsKilled"@);
        lemma_required_is_valid(&self.chests_found, j, "chestsFound"@);
        lemma_required_is_valid(&self.blocks_walked, j, "blocksWalked"@);
        lemma_required_is_valid(&self.items_identified, j, "itemsIdentified"@);
        lemma_required_is_valid(&self.logins, j, "logins"@);
        lemma_required_is_valid(&self.deaths, j, "deaths"@);
        lemma_required_is_valid(&self.discoveries, j, "discoveries"@);
        lemma_required_is_valid(&self.pre_economy, j, "preEconomy"@);
        lemma_required_is_valid(&self.pvp, j, "pvp"@);
        lemma_required_is_valid(&Distinct(self.gamemode), j, "gamemode"@);
        lemma_required_is_valid(&self.skill_points, j, "skillPoints"@);
        lemma_required_is_valid(&self.professions, j, "professions"@);
        lemma_required_is_valid(&self.dungeons, j, "dungeons"@);
        lemma_required_is_valid(&self.raids, j, "raids"@);
        lemma_required_is_valid(&Distinct(self.quests), j, "quests"@);
    }
}

/// The skill points of a character.
#[derive(Clone, Debug, PartialEq)]
pub struct SkillPoints {
    pub strength: u64,
    pub dexterity: u64,
    pub intelligence: u64,
    pub defence: u64,
    pub agility: u64,
}

impl Decode for SkillPoints {
    open spec fn failure(j: JsonValue) -> Option<DecodeFault> {
        required_failure::<u64>(j, "strength"@)
            .otherwise(required_failure::<u64>(j, "dexterity"@))
            .otherwise(required_failure::<u64>(j, "intelligence"@))
            .otherwise(aliased_failure::<u64>(j, "defence"@, "defense"@))
            .otherwise(required_failure::<u64>(j, "agility"@))
    }

    open spec fn reads(&self, j: JsonValue) -> bool {
        &&& required_reads(self.strength, j, "strength"@)
        &&& required_reads(self.dexterity, j, "dexterity"@)
        &&& required_reads(self.intelligence, j, "intelligence"@)
        &&& aliased_reads(self.defence, j, "defence"@, "defense"@)
        &&& required_reads(self.agility, j, "agility"@)
    }

    fn decode(j: &Json) -> (r: Result<Self, DecodeError>) {
        let strength = required::<u64>(j, "strength")?;
        let dexterity = required::<u64>(j, "dexterity")?;
        let intelligence = required::<u64>(j, "intelligence")?;
        let defence = aliased::<u64>(j, "defence", "defense")?;
        let agility = required::<u64>(j, "agility")?;
        Ok(SkillPoints { strength, dexterity, intelligence, defence, agility })
    }
}

impl Encode for SkillPoints {
    open spec fn valid(&self) -> bool {
        &&& self.strength.valid()
        &&& self.dexterity.valid()
        &&& self.intelligence.valid()
        &&& self.defence.valid()
        &&& self.agility.valid()
    }

    open spec fn encoded(&self) -> JsonValue {
        JsonValue::Object(
            seq![
                ("strength"@, self.strength.encoded()),
                ("dexterity"@, self.dexterity.encoded()),
                ("intelligence"@, self.intelligence.encoded()),
                ("defence"@, self.defence.encoded()),
                ("agility"@, self.agility.encoded()),
            ],
        )
    }

    fn encode(&self) -> (j: Json) {
        let j = ObjectWriter::new()
            .with("strength", self.strength.encode())
            .with("dexterity", self.dexterity.encode())
            .with("intelligence", self.intelligence.encode())
            .with("defence", self.defence.encode())
            .with("agility", self.agility.encode())
            .done();
        assert(j@->Object_0 =~= self.encoded()->Object_0);
        j
    }

    proof fn lemma_read_back(&self) {
        let j = self.encoded();
        let members = j->Object_0;
        reveal_strlit("strength");
        assert("strength"@.len() == 8 && "strength"@[5] == 'g');
        reveal_strlit("dexterity");
        assert("dexterity"@.len() == 9 && "dexterity"@[5] == 'r');
        reveal_strlit("intelligence");
        assert("intelligence"@.len() == 12 && "intelligence"@[5] == 'l');
        reveal_strlit("defence");
        assert("defence"@.len() == 7 && "defence"@[5] == 'c');
        reveal_strlit("defense");
        assert("defense"@.len() == 7 && "defense"@[5] == 's');
        reveal_strlit("agility");
        assert("agility"@.len() == 7 && "agility"@[5] == 't');
        lemma_member_at(members, "strength"@, 0);
        lemma_required_read_back(&self.strength, j, "strength"@);
        lemma_member_at(members, "dexterity"@, 1);
        lemma_required_read_back(&self.dexterity, j, "dexterity"@);
        lemma_member_at(members, "intelligence"@, 2);
        lemma_required_read_back(&self.intelligence, j, "intelligence"@);
        lemma_member_at(members, "defence"@, 3);
        lemma_aliased_read_back(&self.defence, j, "defence"@, "defense"@);
        lemma_member_at(members, "agility"@, 4);
        lemma_required_read_back(&self.agility, j, "agility"@);
    }

    proof fn lemma_one_reading(&self, other: &Self, j: JsonValue) {
        lemma_required_one_reading(&self.strength, &other.strength, j, "strength"@);
        lemma_required_one_reading(&self.dexterity, &other.dexterity, j, "dexterity"@);
        lemma_required_one_reading(&self.intelligence, &other.intelligence, j, "intelligence"@);
        lemma_aliased_one_reading(&self.defence, &other.defence, j, "defence"@, "defense"@);
        lemma_required_one_reading(&self.agility, &other.agility, j, "agility"@);
    }

    proof fn lemma_read_is_valid(&self, j: JsonValue) {
        lemma_required_is_valid(&self.strength, j, "strength"@);
        lemma_required_is_valid(&self.dexterity, j, "dexterity"@);
        lemma_required_is_valid(&self.intelligence, j, "intelligence"@);
        lemma_aliased_is_valid(&self.defence, j, "defence"@, "defense"@);
        lemma_required_is_valid(&self.agility, j, "agility"@);
    }
}

/// The professions of a character.
#[derive(Clone, Debug, PartialEq)]
pub struct Professions {
    pub fishing: ProfessionInfo,
    pub woodcutting: ProfessionInfo,
    pub mining: ProfessionInfo,
    pub farming: ProfessionInfo,
    pub scribing: ProfessionInfo,
    pub jeweling: ProfessionInfo,
    pub alchemism: ProfessionInfo,
    pub cooking: ProfessionInfo,
    pub weaponsmithing: ProfessionInfo,
    pub tailoring: ProfessionInfo,
    pub woodworking: ProfessionInfo,
    pub armouring: ProfessionInfo,
}

impl Decode for Professions {
    open spec fn failure(j: JsonValue) -> Option<DecodeFault> {
        required_failure::<ProfessionInfo>(j, "fishing"@)
            .otherwise(required_failure::<ProfessionInfo>(j, "woodcutting"@))
            .otherwise(required_failure::<ProfessionInfo>(j, "mining"@))
            .otherwise(required_failure::<ProfessionInfo>(j, "farming"@))
            .otherwise(required_failure::<ProfessionInfo>(j, "scribing"@))
            .otherwise(required_failure::<ProfessionInfo>(j, "jeweling"@))
            .otherwise(required_failure::<ProfessionInfo>(j, "alchemism"@))
            .otherwise(required_failure::<ProfessionInfo>(j, "cooking"@))
            .otherwise(required_failure::<ProfessionInfo>(j, "weaponsmithing"@))
            .otherwise(required_failure::<ProfessionInfo>(j, "tailoring"@))
            .otherwise(required_failure::<ProfessionInfo>(j, "woodworking"@))
            .otherwise(required_failure::<ProfessionInfo>(j, "armouring"@))
    }

    open spec fn reads(&self, j: JsonValue) -> bool {
        &&& required_reads(self.fishing, j, "fishing"@)
        &&& required_reads(self.woodcutting, j, "woodcutting"@)
        &&& required_reads(self.mining, j, "mining"@)
        &&& required_reads(self.farming, j, "farming"@)
        &&& required_reads(self.scribing, j, "scribing"@)
        &&& required_reads(self.jeweling, j, "jeweling"@)
        &&& required_reads(self.alchemism, j, "alchemism"@)
        &&& required_reads(self.cooking, j, "cooking"@)
        &&& required_reads(self.weaponsmithing, j, "weaponsmithing"@)
        &&& required_reads(self.tailoring, j, "tailoring"@)
        &&& required_reads(self.woodworking, j, "woodworking"@)
        &&& required_reads(self.armouring, j, "armouring"@)
    }

    fn decode(j: &Json) -> (r: Result<Self, DecodeError>) {
        let fishing = required::<ProfessionInfo>(j, "fishing")?;
        let woodcutting = required::<ProfessionInfo>(j, "woodcutting")?;
        let mining = required::<ProfessionInfo>(j, "mining")?;
        let farming = required::<ProfessionInfo>(j, "farming")?;
        let scribing = required::<ProfessionInfo>(j, "scribing")?;
        let jeweling = required::<ProfessionInfo>(j, "jeweling")?;
        let alchemism = required::<ProfessionInfo>(j, "alchemism")?;
        let cooking = required::<ProfessionInfo>(j, "cooking")?;
        let weaponsmithing = required::<ProfessionInfo>(j, "weaponsmithing")?;
        let tailoring = required::<ProfessionInfo>(j, "tailoring")?;
        let woodworking = required::<ProfessionInfo>(j, "woodworking")?;
        let armouring = required::<ProfessionInfo>(j, "armouring")?;
        Ok(
            Professions {
                fishing,
                woodcutting,
                mining,
                farming,
                scribing,
                jeweling,
                alchemism,
                cooking,
                weaponsmithing,
                tailoring,
                woodworking,
                armouring,
            }
        )
    }
}

impl Encode for Professions {
    open spec fn valid(&self) -> bool {
        &&& self.fishing.valid()
        &&& self.woodcutting.valid()
        &&& self.mining.valid()
        &&& self.farming.valid()
        &&& self.scribing.valid()
        &&& self.jeweling.valid()
        &&& self.alchemism.valid()
        &&& self.cooking.valid()
        &&& self.weaponsmithing.valid()
        &&& self.tailoring.valid()
        &&& self.woodworking.valid()
        &&& self.armouring.valid()
    }

    open spec fn encoded(&self) -> JsonValue {
        JsonValue::Object(
            seq![
                ("fishing"@, self.fishing.encoded()),
                ("woodcutting"@, self.woodcutting.encoded()),
                ("mining"@, self.mining.encoded()),
                ("farming"@, self.farming.encoded()),
                ("scribing"@, self.scribing.encoded()),
                ("jeweling"@, self.jeweling.encoded()),
                ("alchemism"@, self.alchemism.encoded()),
                ("cooking"@, self.cooking.encoded()),
                ("weaponsmithing"@, self.weaponsmithing.encoded()),
                ("tailoring"@, self.tailoring.encoded()),
                ("woodworking"@, self.woodworking.encoded()),
                ("armouring"@, self.armouring.encoded()),
            ],
        )
    }

    fn encode(&self) -> (j: Json) {
        let j = ObjectWriter::new()
            .with("fishing", self.fishing.encode())
            .with("woodcutting", self.woodcutting.encode())
            .with("mining", self.mining.encode())
            .with("farming", self.farming.encode())
            .with("scribing", self.scribing.encode())
            .with("jeweling", self.jeweling.encode())
            .with("alchemism", self.alchemism.encode())
            .with("cooking", self.cooking.encode())
            .with("weaponsmithing", self.weaponsmithing.encode())
            .with("tailoring", self.tailoring.encode())
            .with("woodworking", self.woodworking.encode())
            .with("armouring", self.armouring.encode())
            .done();
        assert(j@->Object_0 =~= self.encoded()->Object_0);
        j
    }

    proof fn lemma_read_back(&self) {
        let j = self.encoded();
        let members = j->Object_0;
        reveal_strlit("fishing");
        assert("fishing"@.len() == 7 && "fishing"@[1] == 'i' && "fishing"@[4] == 'i');
        reveal_strlit("woodcutting");
        assert("woodcutting"@.len() == 11 && "woodcutting"@[1] == 'o' && "woodcutting"@[4] == 'c');
        reveal_strlit("mining");
        assert("mining"@.len() == 6 && "mining"@[1] == 'i' && "mining"@[4] == 'n');
        reveal_strlit("farming");
        assert("farming"@.len() == 7 && "farming"@[1] == 'a' && "farming"@[4] == 'i');
        reveal_strlit("scribing");
        assert("scribing"@.len() == 8 && "scribing"@[1] == 'c' && "scribing"@[4] == 'b');
        reveal_strlit("jeweling");
        assert("jeweling"@.len() == 8 && "jeweling"@[1] == 'e' && "jeweling"@[4] == 'l');
        reveal_strlit("alchemism");
        assert("alchemism"@.len() == 9 && "alchemism"@[1] == 'l' && "alchemism"@[4] == 'e');
        reveal_strlit("cooking");
        assert("cooking"@.len() == 7 && "cooking"@[1] == 'o' && "cooking"@[4] == 'i');
        reveal_strlit("weaponsmithing");
        assert("weaponsmithing"@.len() == 14 && "weaponsmithing"@[1] == 'e' && "weaponsmithing"@[4] == 'o');
        reveal_strlit("tailoring");
        assert("tailoring"@.len() == 9 && "tailoring"@[1] == 'a' && "tailoring"@[4] == 'o');
        reveal_strlit("woodworking");
        assert("woodworking"@.len() == 11 && "woodworking"@[1] == 'o' && "woodworking"@[4] == 'w');
        reveal_strlit("armouring");
        assert("armouring"@.len() == 9 && "armouring"@[1] == 'r' && "armouring"@[4] == 'u');
        lemma_member_at(members, "fishing"@, 0);
        lemma_required_read_back(&self.fishing, j, "fishing"@);
        lemma_member_at(members, "woodcutting"@, 1);
        lemma_required_read_back(&self.woodcutting, j, "woodcutting"@);
        lemma_member_at(members, "mining"@, 2);
        lemma_required_read_back(&self.mining, j, "mining"@);
        lemma_member_at(members, "farming"@, 3);
        lemma_required_read_back(&self.farming, j, "farming"@);
        lemma_member_at(members, "scribing"@, 4);
        lemma_required_read_back(&self.scribing, j, "scribing"@);
        lemma_member_at(members, "jeweling"@, 5);
        lemma_required_read_back(&self.jeweling, j, "jeweling"@);
        lemma_member_at(members, "alchemism"@, 6);
        lemma_required_read_back(&self.alchemism, j, "alchemism"@);
        lemma_member_at(members, "cooking"@, 7);
        lemma_required_read_back(&self.cooking, j, "cooking"@);
        lemma_member_at(members, "weaponsmithing"@, 8);
        lemma_required_read_back(&self.weaponsmithing, j, "weaponsmithing"@);
        lemma_member_at(members, "tailoring"@, 9);
        lemma_required_read_back(&self.tailoring, j, "tailoring"@);
        lemma_member_at(members, "woodworking"@, 10);
        lemma_required_read_back(&self.woodworking, j, "woodworking"@);
        lemma_member_at(members, "armouring"@, 11);
        lemma_required_read_back(&self.armouring, j, "armouring"@);
    }

    proof fn lemma_one_reading(&self, other: &Self, j: JsonValue) {
        lemma_required_one_reading(&self.fishing, &other.fishing, j, "fishing"@);
        lemma_required_one_reading(&self.woodcutting, &other.woodcutting, j, "woodcutting"@);
        lemma_required_one_reading(&self.mining, &other.mining, j, "mining"@);
        lemma_required_one_reading(&self.farming, &other.farming, j, "farming"@);
        lemma_required_one_reading(&self.scribing, &other.scribing, j, "scribing"@);
        lemma_required_one_reading(&self.jeweling, &other.jeweling, j, "jeweling"@);
        lemma_required_one_reading(&self.alchemism, &other.alchemism, j, "alchemism"@);
        lemma_required_one_reading(&self.cooking, &other.cooking, j, "cooking"@);
        lemma_required_one_reading(&self.weaponsmithing, &other.weaponsmithing, j, "weaponsmithing"@);
        lemma_required_one_reading(&self.tailoring, &other.tailoring, j, "tailoring"@);
        lemma_required_one_reading(&self.woodworking, &other.woodworking, j, "woodworking"@);
        lemma_required_one_reading(&self.armouring, &other.armouring, j, "armouring"@);
    }

    proof fn lemma_read_is_valid(&self, j: JsonValue) {
        lemma_required_is_valid(&self.fishing, j, "fishing"@);
        lemma_required_is_valid(&self.woodcutting, j, "woodcutting"@);
        lemma_required_is_valid(&self.mining, j, "mining"@);
        lemma_required_is_valid(&self.farming, j, "farming"@);
        lemma_required_is_valid(&self.scribing, j, "scribing"@);
        lemma_required_is_valid(&self.jeweling, j, "jeweling"@);
        lemma_required_is_valid(&self.alchemism, j, "alchemism"@);
        lemma_required_is_valid(&self.cooking, j, "cooking"@);
        lemma_required_is_valid(&self.weaponsmithing, j, "weaponsmithing"@);
        lemma_required_is_valid(&self.tailoring, j, "tailoring"@);
        lemma_required_is_valid(&self.woodworking, j, "woodworking"@);
        lemma_required_is_valid(&self.armouring, j, "armouring"@);
    }
}

/// How far a character is in a profession.
#[derive(Clone, Debug, PartialEq)]
pub struct ProfessionInfo {
    pub level: u8,
    pub xp_percent: u8,
}

impl Decode for ProfessionInfo {
    open spec fn failure(j: JsonValue) -> Option<DecodeFault> {
        required_failure::<u8>(j, "level"@)
            .otherwise(required_failure::<u8>(j, "xpPercent"@))
    }

    open spec fn reads(&self, j: JsonValue) -> bool {
        &&& required_reads(self.level, j, "level"@)
        &&& required_reads(self.xp_percent, j, "xpPercent"@)
    }

    fn decode(j: &Json) -> (r: Result<Self, DecodeError>) {
        let level = required::<u8>(j, "level")?;
        let xp_percent = required::<u8>(j, "xpPercent")?;
        Ok(ProfessionInfo { level, xp_percent })
    }
}

impl Encode for ProfessionInfo {
    open spec fn valid(&self) -> bool {
        &&& self.level.valid()
        &&& self.xp_percent.valid()
    }

    open spec fn encoded(&self) -> JsonValue {
        JsonValue::Object(
            seq![
                ("level"@, self.level.encoded()),
                ("xpPercent"@, self.xp_percent.encoded()),
            ],
        )
    }

    fn encode(&self) -> (j: Json) {
        let j = ObjectWriter::new()
            .with("level", self.level.encode())
            .with("xpPercent", self.xp_percent.encode())
            .done();
        assert(j@->Object_0 =~= self.encoded()->Object_0);
        j
    }

    proof fn lemma_read_back(&self) {
        let j = self.encoded();
        let members = j->Object_0;
        reveal_strlit("level");
        assert("level"@.len() == 5);
        reveal_strlit("xpPercent");
        assert("xpPercent"@.len() == 9);
        lemma_member_at(members, "level"@, 0);
        lemma_required_read_back(&self.level, j, "level"@);
        lemma_member_at(members, "xpPercent"@, 1);
        lemma_required_read_back(&self.xp_percent, j, "xpPercent"@);
    }

    proof fn lemma_one_reading(&self, other: &Self, j: JsonValue) {
        lemma_required_one_reading(&self.level, &other.level, j, "level"@);
        lemma_required_one_reading(&self.xp_percent, &other.xp_percent, j, "xpPercent"@);
    }

    proof fn lemma_read_is_valid(&self, j: JsonValue) {
        lemma_required_is_valid(&self.level, j, "level"@);
        lemma_required_is_valid(&self.xp_percent, j, "xpPercent"@);
    }
}

/// A player with all characters.
#[derive(Clone, Debug, PartialEq)]
pub struct FullPlayerStats {
    pub player_stats: PlayerStats,
    pub characters: Vec<(String, Character)>,
}

impl Decode for FullPlayerStats {
    open spec fn failure(j: JsonValue) -> Option<DecodeFault> {
        <PlayerStats as Decode>::failure(j)
            .otherwise(required_failure::<Vec<(String, Character)>>(j, "characters"@))
    }

    open spec fn reads(&self, j: JsonValue) -> bool {
        &&& self.player_stats.reads(j)
        &&& required_reads(self.characters, j, "characters"@)
    }

    fn decode(j: &Json) -> (r: Result<Self, DecodeError>) {
        let player_stats = <PlayerStats as Decode>::decode(j)?;
        let characters = required::<Vec<(String, Character)>>(j, "characters")?;
        Ok(FullPlayerStats { player_stats, characters })
    }
}

impl Encode for FullPlayerStats {
    open spec fn valid(&self) -> bool {
        &&& self.characters.valid()
        &&& self.player_stats.valid()
    }

    open spec fn encoded(&self) -> JsonValue {
        JsonValue::Object(
            seq![
                ("characters"@, self.characters.encoded()),
            ] + self.player_stats.members(),
        )
    }

    fn encode(&self) -> (j: Json) {
        let j = ObjectWriter::new()
            .with("characters", self.characters.encode())
            .with_all(self.player_stats.encode())
            .done();
        assert(j@->Object_0 =~= self.encoded()->Object_0);
        j
    }

    proof fn lemma_read_back(&self) {
        let j = self.encoded();
        let members = j->Object_0;
        reveal_strlit("characters");
        assert("characters"@.len() == 10 && "characters"@[1] == 'h');
        reveal_strlit("username");
        assert("username"@.len() == 8 && "username"@[1] == 's');
        reveal_strlit("online");
        assert("online"@.len() == 6 && "online"@[1] == 'n');
        reveal_strlit("server");
        assert("server"@.len() == 6 && "server"@[1] == 'e');
        reveal_strlit("activeCharacter");
        assert("activeCharacter"@.len() == 15 && "activeCharacter"@[1] == 'c');
        reveal_strlit("uuid");
        assert("uuid"@.len() == 4 && "uuid"@[1] == 'u');
        reveal_strlit("rank");
        assert("rank"@.len() == 4 && "rank"@[1] == 'a');
        reveal_strlit("rankBadge");
        assert("rankBadge"@.len() == 9 && "rankBadge"@[1] == 'a');
        reveal_strlit("legacyRankColour");
        assert("legacyRankColour"@.len() == 16 && "legacyRankColour"@[1] == 'e');
        reveal_strlit("shortenedRank");
        assert("shortenedRank"@.len() == 13 && "shortenedRank"@[1] == 'h');
        reveal_strlit("supportRank");
        assert("supportRank"@.len() == 11 && "supportRank"@[1] == 'u');
        reveal_strlit("veteran");
        assert("veteran"@.len() == 7 && "veteran"@[1] == 'e');
        reveal_strlit("firstJoin");
        assert("firstJoin"@.len() == 9 && "firstJoin"@[1] == 'i');
        reveal_strlit("lastJoin");
        assert("lastJoin"@.len() == 8 && "lastJoin"@[1] == 'a');
        reveal_strlit("playtime");
        assert("playtime"@.len() == 8 && "playtime"@[1] == 'l');
        reveal_strlit("guild");
        assert("guild"@.len() == 5 && "guild"@[1] == 'u');
        reveal_strlit("globalData");
        assert("globalData"@.len() == 10 && "globalData"@[1] == 'l');
        reveal_strlit("forumLink");
        assert("forumLink"@.len() == 9 && "forumLink"@[1] == 'o');
        reveal_strlit("ranking");
        assert("ranking"@.len() == 7 && "ranking"@[1] == 'a');
        reveal_strlit("previousRanking");
        assert("previousRanking"@.len() == 15 && "previousRanking"@[1] == 'r');
        reveal_strlit("publicProfile");
        assert("publicProfile"@.len() == 13 && "publicProfile"@[1] == 'u');
        lemma_member_at(members, "characters"@, 0);
        lemma_required_read_back(&self.characters, j, "characters"@);
        let own = members.subrange(0, 1);
        assert(members =~= own + self.player_stats.members());
        assert(!PlayerStats::owns("characters"@));
        self.player_stats.lemma_read_back_among(own);
    }

    proof fn lemma_one_reading(&self, other: &Self, j: JsonValue) {
        lemma_required_one_reading(&self.characters, &other.characters, j, "characters"@);
        self.player_stats.lemma_one_reading(&other.player_stats, j);
    }

    proof fn lemma_read_is_valid(&self, j: JsonValue) {
        lemma_required_is_valid(&self.characters, j, "characters"@);
        self.player_stats.lemma_read_is_valid(j);
    }
}

/// A character as the list of characters gives it.
#[derive(Clone, Debug, PartialEq)]
pub struct CharacterInfo {
    pub class_type: Class,
    pub nickname: Option<String>,
    pub level: u8,
    pub xp: u64,
    /// Always between 0 and 100 even when lvl 106
    pub xp_percent: u8,
    pub total_level: u64,
    pub gamemode: Vec<String>,
    pub meta: Meta,
}

impl Decode for CharacterInfo {
    open spec fn failure(j: JsonValue) -> Option<DecodeFault> {
        required_failure::<Class>(j, "type"@)
            .otherwise(optional_failure::<String>(j, "nickname"@))
            .otherwise(required_failure::<u8>(j, "level"@))
            .otherwise(required_failure::<u64>(j, "xp"@))
            .otherwise(required_failure::<u8>(j, "xpPercent"@))
            .otherwise(required_failure::<u64>(j, "totalLevel"@))
            .otherwise(required_failure::<Distinct<String>>(j, "gamemode"@))
            .otherwise(required_failure::<Meta>(j, "meta"@))
    }

    open spec fn reads(&self, j: JsonValue) -> bool {
        &&& required_reads(self.class_type, j, "type"@)
        &&& optional_reads(self.nickname, j, "nickname"@)
        &&& required_reads(self.level, j, "level"@)
        &&& required_reads(self.xp, j, "xp"@)
        &&& required_reads(self.xp_percent, j, "xpPercent"@)
        &&& required_reads(self.total_level, j, "totalLevel"@)
        &&& required_reads(Distinct(self.gamemode), j, "gamemode"@)
        &&& required_reads(self.meta, j, "meta"@)
    }

    fn decode(j: &Json) -> (r: Result<Self, DecodeError>) {
        let class_type = required::<Class>(j, "type")?;
        let nickname = optional::<String>(j, "nickname")?;
        let level = required::<u8>(j, "level")?;
        let xp = required::<u64>(j, "xp")?;
        let xp_percent = required::<u8>(j, "xpPercent")?;
        let total_level = required::<u64>(j, "totalLevel")?;
        let gamemode = required::<Distinct<String>>(j, "gamemode")?.0;
        let meta = required::<Meta>(j, "meta")?;
        Ok(CharacterInfo { class_type, nickname, level, xp, xp_percent, total_level, gamemode, meta })
    }
}

impl Encode for CharacterInfo {
    open spec fn valid(&self) -> bool {
        &&& self.class_type.valid()
        &&& valid_option(self.nickname)
        &&& self.level.valid()
        &&& self.xp.valid()
        &&& self.xp_percent.valid()
        &&& self.total_level.valid()
        &&& Distinct(self.gamemode).valid()
        &&& self.meta.valid()
    }

    open spec fn encoded(&self) -> JsonValue {
        JsonValue::Object(
            seq![
                ("type"@, self.class_type.encoded()),
                ("nickname"@, encoded_option(self.nickname)),
                ("level"@, self.level.encoded()),
                ("xp"@, self.xp.encoded()),
                ("xpPercent"@, self.xp_percent.encoded()),
                ("totalLevel"@, self.total_level.encoded()),
                ("gamemode"@, Distinct(self.gamemode).encoded()),
                ("meta"@, self.meta.encoded()),
            ],
        )
    }

    fn encode(&self) -> (j: Json) {
        let j = ObjectWriter::new()
            .with("type", self.class_type.encode())
            .with("nickname", encode_option(&self.nickname))
            .with("level", self.level.encode())
            .with("xp", self.xp.encode())
            .with("xpPercent", self.xp_percent.encode())
            .with("totalLevel", self.total_level.encode())
            .with("gamemode", self.gamemode.encode())
            .with("meta", self.meta.encode())
            .done();
        assert(j@->Object_0 =~= self.encoded()->Object_0);
        j
    }

    proof fn lemma_read_back(&self) {
        let j = self.encoded();
        let members = j->Object_0;
        reveal_strlit("type");
        assert("type"@.len() == 4 && "type"@[0] == 't');
        reveal_strlit("nickname");
        assert("nickname"@.len() == 8 && "nickname"@[0] == 'n');
        reveal_strlit("level");
        assert("level"@.len() == 5 && "level"@[0] == 'l');
        reveal_strlit("xp");
        assert("xp"@.len() == 2 && "xp"@[0] == 'x');
        reveal_strlit("xpPercent");
        assert("xpPercent"@.len() == 9 && "xpPercent"@[0] == 'x');
        reveal_strlit("totalLevel");
        assert("totalLevel"@.len() == 10 && "totalLevel"@[0] == 't');
        reveal_strlit("gamemode");
        assert("gamemode"@.len() == 8 && "gamemode"@[0] == 'g');
        reveal_strlit("meta");
        assert("meta"@.len() == 4 && "meta"@[0] == 'm');
        lemma_member_at(members, "type"@, 0);
        lemma_required_read_back(&self.class_type, j, "type"@);
        lemma_member_at(members, "nickname"@, 1);
        lemma_optional_read_back(self.nickname, j, "nickname"@);
        lemma_member_at(members, "level"@, 2);
        lemma_required_read_back(&self.level, j, "level"@);
        lemma_member_at(members, "xp"@, 3);
        lemma_required_read_back(&self.xp, j, "xp"@);
        lemma_member_at(members, "xpPercent"@, 4);
        lemma_required_read_back(&self.xp_percent, j, "xpPercent"@);
        lemma_member_at(members, "totalLevel"@, 5);
        lemma_required_read_back(&self.total_level, j, "totalLevel"@);
        lemma_member_at(members, "gamemode"@, 6);
        lemma_required_read_back(&Distinct(self.gamemode), j, "gamemode"@);
        lemma_member_at(members, "meta"@, 7);
        lemma_required_read_back(&self.meta, j, "meta"@);
    }

    proof fn lemma_one_reading(&self, other: &Self, j: JsonValue) {
        lemma_required_one_reading(&self.class_type, &other.class_type, j, "type"@);
        lemma_optional_one_reading(self.nickname, other.nickname, j, "nickname"@);
        lemma_required_one_reading(&self.level, &other.level, j, "level"@);
        lemma_required_one_reading(&self.xp, &other.xp, j, "xp"@);
        lemma_required_one_reading(&self.xp_percent, &other.xp_percent, j, "xpPercent"@);
        lemma_required_one_reading(&self.total_level, &other.total_level, j, "totalLevel"@);
        lemma_required_one_reading(&Distinct(self.gamemode), &Distinct(other.gamemode), j, "gamemode"@);
        lemma_required_one_reading(&self.meta, &other.meta, j, "meta"@);
    }

    proof fn lemma_read_is_valid(&self, j: JsonValue) {
        lemma_required_is_valid(&self.class_type, j, "type"@);
        lemma_optional_is_valid(self.nickname, j, "nickname"@);
        lemma_required_is_valid(&self.level, j, "level"@);
        lemma_required_is_valid(&self.xp, j, "xp"@);
        lemma_required_is_valid(&self.xp_percent, j, "xpPercent"@);
        lemma_required_is_valid(&self.total_level, j, "totalLevel"@);
        lemma_required_is_valid(&Distinct(self.gamemode), j, "gamemode"@);
        lemma_required_is_valid(&self.meta, j, "meta"@);
    }
}

/// What else the list of characters tells of a character.
#[derive(Clone, Debug, PartialEq)]
pub struct Meta {
    pub died: Option<bool>,
}

impl Decode for Meta {
    open spec fn failure(j: JsonValue) -> Option<DecodeFault> {
        optional_failure::<bool>(j, "died"@)
    }

    open spec fn reads(&self, j: JsonValue) -> bool {
        &&& optional_reads(self.died, j, "died"@)
    }

    fn decode(j: &Json) -> (r: Result<Self, DecodeError>) {
        let died = optional::<bool>(j, "died")?;
        Ok(Meta { died })
    }
}

impl Encode for Meta {
    open spec fn valid(&self) -> bool {
        &&& valid_option(self.died)
    }

    open spec fn encoded(&self) -> JsonValue {
        JsonValue::Object(
            seq![
                ("died"@, encoded_option(self.died)),
            ],
        )
    }

    fn encode(&self) -> (j: Json) {
        let j = ObjectWriter::new()
            .with("died", encode_option(&self.died))
            .done();
        assert(j@->Object_0 =~= self.encoded()->Object_0);
        j
    }

    proof fn lemma_read_back(&self) {
        let j = self.encoded();
        let members = j->Object_0;
        reveal_strlit("died");
        assert("died"@.len() == 4);
        lemma_member_at(members, "died"@, 0);
        lemma_optional_read_back(self.died, j, "died"@);
    }

    proof fn lemma_one_reading(&self, other: &Self, j: JsonValue) {
        lemma_optional_one_reading(self.died, other.died, j, "died"@);
    }

    proof fn lemma_read_is_valid(&self, j: JsonValue) {
        lemma_optional_is_valid(self.died, j, "died"@);
    }
}

/// A rank that a player has bought.
#[derive(Clone, Copy, Debug, PartialEq, Eq, Structural)]
pub enum SupportRank {
    Vip,
    VipPlus,
    Hero,
    Champion,
}

impl Token for SupportRank {
    open spec fn of_token(s: Seq<char>) -> Option<Self> {
        if s == "vip"@ {
            Some(SupportRank::Vip)
        } else if s == "vipplus"@ {
            Some(SupportRank::VipPlus)
        } else if s == "hero"@ {
            Some(SupportRank::Hero)
        } else if s == "champion"@ {
            Some(SupportRank::Champion)
        } else {
            None
        }
    }

    open spec fn token(self) -> Seq<char> {
        match self {
            SupportRank::Vip => "vip"@,
            SupportRank::VipPlus => "vipplus"@,
            SupportRank::Hero => "hero"@,
            SupportRank::Champion => "champion"@,
        }
    }

    fn from_token(s: &str) -> (r: Option<Self>) {
        if same_text(s, "vip") {
            Some(SupportRank::Vip)
        } else if same_text(s, "vipplus") {
            Some(SupportRank::VipPlus)
        } else if same_text(s, "hero") {
            Some(SupportRank::Hero)
        } else if same_text(s, "champion") {
            Some(SupportRank::Champion)
        } else {
            None
        }
    }

    fn as_token(self) -> (r: &'static str) {
        match self {
            SupportRank::Vip => "vip",
            SupportRank::VipPlus => "vipplus",
            SupportRank::Hero => "hero",
            SupportRank::Champion => "champion",
        }
    }

    fn same_token(&self, other: &Self) -> (r: bool) {
        *self == *other
    }

    proof fn lemma_token_is_read(self) {
        reveal_strlit("vip");
        assert("vip"@.len() == 3);
        reveal_strlit("vipplus");
        assert("vipplus"@.len() == 7);
        reveal_strlit("hero");
        assert("hero"@.len() == 4);
        reveal_strlit("champion");
        assert("champion"@.len() == 8);
    }
}

/// A node of an ability map.
#[derive(Clone, Debug, PartialEq)]
pub struct Ability {
    pub coordinates: AbilityNodeCoordinate,
    pub meta: AbilityMeta,
    pub family: Vec<String>,
}

impl Decode for Ability {
    open spec fn failure(j: JsonValue) -> Option<DecodeFault> {
        required_failure::<AbilityNodeCoordinate>(j, "coordinates"@)
            .otherwise(<AbilityMeta as Decode>::failure(j))
            .otherwise(required_failure::<Distinct<String>>(j, "family"@))
    }

    open spec fn reads(&self, j: JsonValue) -> bool {
        &&& required_reads(self.coordinates, j, "coordinates"@)
        &&& self.meta.reads(j)
        &&& required_reads(Distinct(self.family), j, "family"@)
    }

    fn decode(j: &Json) -> (r: Result<Self, DecodeError>) {
        let coordinates = required::<AbilityNodeCoordinate>(j, "coordinates")?;
        let meta = <AbilityMeta as Decode>::decode(j)?;
        let family = required::<Distinct<String>>(j, "family")?.0;
        Ok(Ability { coordinates, meta, family })
    }
}

impl Encode for Ability {
    open spec fn valid(&self) -> bool {
        &&& self.coordinates.valid()
        &&& Distinct(self.family).valid()
        &&& self.meta.valid()
    }

    open spec fn encoded(&self) -> JsonValue {
        JsonValue::Object(
            seq![
                ("coordinates"@, self.coordinates.encoded()),
                ("family"@, Distinct(self.family).encoded()),
            ] + self.meta.members(),
        )
    }

    fn encode(&self) -> (j: Json) {
        let j = ObjectWriter::new()
            .with("coordinates", self.coordinates.encode())
            .with("family", self.family.encode())
            .with_all(self.meta.encode())
            .done();
        assert(j@->Object_0 =~= self.encoded()->Object_0);
        j
    }

    proof fn lemma_read_back(&self) {
        let j = self.encoded();
        let members = j->Object_0;
        reveal_strlit("coordinates");
        assert("coordinates"@.len() == 11 && "coordinates"@[0] == 'c');
        reveal_strlit("family");
        assert("family"@.len() == 6 && "family"@[0] == 'f');
        reveal_strlit("type");
        assert("type"@.len() == 4 && "type"@[0] == 't');
        reveal_strlit("meta");
        assert("meta"@.len() == 4 && "meta"@[0] == 'm');
        lemma_member_at(members, "coordinates"@, 0);
        lemma_required_read_back(&self.coordinates, j, "coordinates"@);
        lemma_member_at(members, "family"@, 1);
        lemma_required_read_back(&Distinct(self.family), j, "family"@);
        let own = members.subrange(0, 2);
        assert(members =~= own + self.meta.members());
        assert(!AbilityMeta::owns("coordinates"@));
        assert(!AbilityMeta::owns("family"@));
        self.meta.lemma_read_back_among(own);
    }

    proof fn lemma_one_reading(&self, other: &Self, j: JsonValue) {
        lemma_required_one_reading(&self.coordinates, &other.coordinates, j, "coordinates"@);
        lemma_required_one_reading(&Distinct(self.family), &Distinct(other.family), j, "family"@);
        self.meta.lemma_one_reading(&other.meta, j);
    }

    proof fn lemma_read_is_valid(&self, j: JsonValue) {
        lemma_required_is_valid(&self.coordinates, j, "coordinates"@);
        lemma_required_is_valid(&Distinct(self.family), j, "family"@);
        self.meta.lemma_read_is_valid(j);
    }
}

/// The place of a node on a page of the ability map.
#[derive(Clone, Debug, PartialEq)]
pub struct AbilityNodeCoordinate {
    pub x: u8,
    pub y: u8,
}

impl Decode for AbilityNodeCoordinate {
    open spec fn failure(j: JsonValue) -> Option<DecodeFault> {
        required_failure::<u8>(j, "x"@)
            .otherwise(required_failure::<u8>(j, "y"@))
    }

    open spec fn reads(&self, j: JsonValue) -> bool {
        &&& required_reads(self.x, j, "x"@)
        &&& required_reads(self.y, j, "y"@)
    }

    fn decode(j: &Json) -> (r: Result<Self, DecodeError>) {
        let x = required::<u8>(j, "x")?;
        let y = required::<u8>(j, "y")?;
        Ok(AbilityNodeCoordinate { x, y })
    }
}

impl Encode for AbilityNodeCoordinate {
    open spec fn valid(&self) -> bool {
        &&& self.x.valid()
        &&& self.y.valid()
    }

    open spec fn encoded(&self) -> JsonValue {
        JsonValue::Object(
            seq![
                ("x"@, self.x.encoded()),
                ("y"@, self.y.encoded()),
            ],
        )
    }

    fn encode(&self) -> (j: Json) {
        let j = ObjectWriter::new()
            .with("x", self.x.encode())
            .with("y", self.y.encode())
            .done();
        assert(j@->Object_0 =~= self.encoded()->Object_0);
        j
    }

    proof fn lemma_read_back(&self) {
        let j = self.encoded();
        let members = j->Object_0;
        reveal_strlit("x");
        assert("x"@.len() == 1 && "x"@[0] == 'x');
        reveal_strlit("y");
        assert("y"@.len() == 1 && "y"@[0] == 'y');
        lemma_member_at(members, "x"@, 0);
        lemma_required_read_back(&self.x, j, "x"@);
        lemma_member_at(members, "y"@, 1);
        lemma_required_read_back(&self.y, j, "y"@);
    }

    proof fn lemma_one_reading(&self, other: &Self, j: JsonValue) {
        lemma_required_one_reading(&self.x, &other.x, j, "x"@);
        lemma_required_one_reading(&self.y, &other.y, j, "y"@);
    }

    proof fn lemma_read_is_valid(&self, j: JsonValue) {
        lemma_required_is_valid(&self.x, j, "x"@);
        lemma_required_is_valid(&self.y, j, "y"@);
    }
}

/// An icon given by the attributes of the item that shows it.
#[derive(Clone, Debug, PartialEq)]
pub struct AttributeIcon {
    pub id: String,
    pub name: String,
    pub custom_model_data: String,
}

impl Decode for AttributeIcon {
    open spec fn failure(j: JsonValue) -> Option<DecodeFault> {
        required_failure::<String>(j, "id"@)
            .otherwise(required_failure::<String>(j, "name"@))
            .otherwise(required_failure::<String>(j, "customModelData"@))
    }

    open spec fn reads(&self, j: JsonValue) -> bool {
        &&& required_reads(self.id, j, "id"@)
        &&& required_reads(self.name, j, "name"@)
        &&& required_reads(self.custom_model_data, j, "customModelData"@)
    }

    fn decode(j: &Json) -> (r: Result<Self, DecodeError>) {
        let id = required::<String>(j, "id")?;
        let name = required::<String>(j, "name")?;
        let custom_model_data = required::<String>(j, "customModelData")?;
        Ok(AttributeIcon { id, name, custom_model_data })
    }
}

impl Encode for AttributeIcon {
    open spec fn valid(&self) -> bool {
        &&& self.id.valid()
        &&& self.name.valid()
        &&& self.custom_model_data.valid()
    }

    open spec fn encoded(&self) -> JsonValue {
        JsonValue::Object(
            seq![
                ("id"@, self.id.encoded()),
                ("name"@, self.name.encoded()),
                ("customModelData"@, self.custom_model_data.encoded()),
            ],
        )
    }

    fn encode(&self) -> (j: Json) {
        let j = ObjectWriter::new()
            .with("id", self.id.encode())
            .with("name", self.name.encode())
            .with("customModelData", self.custom_model_data.encode())
            .done();
        assert(j@->Object_0 =~= self.encoded()->Object_0);
        j
    }

    proof fn lemma_read_back(&self) {
        let j = self.encoded();
        let members = j->Object_0;
        reveal_strlit("id");
        assert("id"@.len() == 2);
        reveal_strlit("name");
        assert("name"@.len() == 4);
        reveal_strlit("customModelData");
        assert("customModelData"@.len() == 15);
        lemma_member_at(members, "id"@, 0);
        lemma_required_read_back(&self.id, j, "id"@);
        lemma_member_at(members, "name"@, 1);
        lemma_required_read_back(&self.name, j, "name"@);
        lemma_member_at(members, "customModelData"@, 2);
        lemma_required_read_back(&self.custom_model_data, j, "customModelData"@);
    }

    proof fn lemma_one_reading(&self, other: &Self, j: JsonValue) {
        lemma_required_one_reading(&self.id, &other.id, j, "id"@);
        lemma_required_one_reading(&self.name, &other.name, j, "name"@);
        lemma_required_one_reading(&self.custom_model_data, &other.custom_model_data, j, "customModelData"@);
    }

    proof fn lemma_read_is_valid(&self, j: JsonValue) {
        lemma_required_is_valid(&self.id, j, "id"@);
        lemma_required_is_valid(&self.name, j, "name"@);
        lemma_required_is_valid(&self.custom_model_data, j, "customModelData"@);
    }
}

/// The players that are online, each with the world they are on.
#[derive(Clone, Debug, PartialEq)]
pub struct OnlinePlayerList {
    pub total: u64,
    pub players: Vec<(String, World)>,
}

impl Decode for OnlinePlayerList {
    open spec fn failure(j: JsonValue) -> Option<DecodeFault> {
        required_failure::<u64>(j, "total"@)
            .otherwise(required_failure::<Vec<(String, World)>>(j, "players"@))
    }

    open spec fn reads(&self, j: JsonValue) -> bool {
        &&& required_reads(self.total, j, "total"@)
        &&& required_reads(self.players, j, "players"@)
    }

    fn decode(j: &Json) -> (r: Result<Self, DecodeError>) {
        let total = required::<u64>(j, "total")?;
        let players = required::<Vec<(String, World)>>(j, "players")?;
        Ok(OnlinePlayerList { total, players })
    }
}

impl Encode for OnlinePlayerList {
    open spec fn valid(&self) -> bool {
        &&& self.total.valid()
        &&& self.players.valid()
    }

    open spec fn encoded(&self) -> JsonValue {
        JsonValue::Object(
            seq![
                ("total"@, self.total.encoded()),
                ("players"@, self.players.encoded()),
            ],
        )
    }

    fn encode(&self) -> (j: Json) {
        let j = ObjectWriter::new()
            .with("total", self.total.encode())
            .with("players", self.players.encode())
            .done();
        assert(j@->Object_0 =~= self.encoded()->Object_0);
        j
    }

    proof fn lemma_read_back(&self) {
        let j = self.encoded();
        let members = j->Object_0;
        reveal_strlit("total");
        assert("total"@.len() == 5);
        reveal_strlit("players");
        assert("players"@.len() == 7);
        lemma_member_at(members, "total"@, 0);
        lemma_required_read_back(&self.total, j, "total"@);
        lemma_member_at(members, "players"@, 1);
        lemma_required_read_back(&self.players, j, "players"@);
    }

    proof fn lemma_one_reading(&self, other: &Self, j: JsonValue) {
        lemma_required_one_reading(&self.total, &other.total, j, "total"@);
        lemma_required_one_reading(&self.players, &other.players, j, "players"@);
    }

    proof fn lemma_read_is_valid(&self, j: JsonValue) {
        lemma_required_is_valid(&self.total, j, "total"@);
        lemma_required_is_valid(&self.players, j, "players"@);
    }
}

impl Professions {
    /// What the record holds for `profession`.
    pub open spec fn of(self, profession: Profession) -> ProfessionInfo {
        match profession {
            Profession::Alchemism => self.alchemism,
            Profession::Armouring => self.armouring,
            Profession::Cooking => self.cooking,
            Profession::Jeweling => self.jeweling,
            Profession::Scribing => self.scribing,
            Profession::Tailoring => self.tailoring,
            Profession::Weaponsmithing => self.weaponsmithing,
            Profession::Woodworking => self.woodworking,
            Profession::Mining => self.mining,
            Profession::Fishing => self.fishing,
            Profession::Farming => self.farming,
            Profession::Woodcutting => self.woodcutting,
        }
    }

    /// How far the character is in `profession`.
    pub fn get_profession(&self, profession: Profession) -> (r: &ProfessionInfo)
        ensures
            *r == self.of(profession),
    {
        match profession {
            Profession::Alchemism => &self.alchemism,
            Profession::Armouring => &self.armouring,
            Profession::Cooking => &self.cooking,
            Profession::Jeweling => &self.jeweling,
            Profession::Scribing => &self.scribing,
            Profession::Tailoring => &self.tailoring,
            Profession::Weaponsmithing => &self.weaponsmithing,
            Profession::Woodworking => &self.woodworking,
            Profession::Mining => &self.mining,
            Profession::Fishing => &self.fishing,
            Profession::Farming => &self.farming,
            Profession::Woodcutting => &self.woodcutting,
        }
    }
}

impl Fallback for DungeonInfo {
    open spec fn is_fallback(&self) -> bool {
        self.total == 0 && self.list@.len() == 0
    }

    fn fallback() -> (r: Self) {
        DungeonInfo { total: 0, list: Vec::new() }
    }
}

impl Fallback for RaidInfo {
    open spec fn is_fallback(&self) -> bool {
        self.total == 0 && self.list@.len() == 0
    }

    fn fallback() -> (r: Self) {
        RaidInfo { total: 0, list: Vec::new() }
    }
}

impl Blank for DungeonInfo {
    proof fn lemma_fallbacks_alike(&self, other: &Self) {
        self.list.lemma_fallbacks_alike(&other.list);
    }

    proof fn lemma_fallback_is_valid(&self) {
    }
}

impl Blank for RaidInfo {
    proof fn lemma_fallbacks_alike(&self, other: &Self) {
        self.list.lemma_fallbacks_alike(&other.list);
    }

    proof fn lemma_fallback_is_valid(&self) {
    }
}

/// What a node of an ability map is: an ability, or a piece of the lines
/// that connect abilities. The member `type` says which; what it is made of
/// stands under the member `meta`.
#[allow(inconsistent_fields)]
#[derive(Clone, Debug, PartialEq)]
pub enum AbilityMeta {
    Ability { icon: Icon, page: u8, id: String },
    Connector { icon: String, page: u8 },
}

impl AbilityMeta {
    /// The fault of reading `meta` as what the discriminator `tag` names.
    pub open spec fn content_failure(tag: Seq<char>, meta: JsonValue) -> Option<DecodeFault> {
        if tag == "ability"@ {
            required_failure::<Icon>(meta, "icon"@)
                .otherwise(required_failure::<u8>(meta, "page"@))
                .otherwise(required_failure::<String>(meta, "id"@))
        } else {
            required_failure::<String>(meta, "icon"@)
                .otherwise(required_failure::<u8>(meta, "page"@))
        }
    }

    /// The fault of reading `j` as what the discriminator `tag` names.
    pub open spec fn variant_failure(tag: Seq<char>, j: JsonValue) -> Option<DecodeFault> {
        if tag != "ability"@ && tag != "connector"@ {
            Some(fault(ErrorKind::UnknownTag, tag))
        } else {
            match j.member("meta"@) {
                Some(meta) => under(Self::content_failure(tag, meta), j.place("meta"@)),
                None => Some(fault(ErrorKind::MissingField, "meta"@)),
            }
        }
    }

    /// Whether `self` is what `meta` stands for under the discriminator
    /// `tag`.
    pub open spec fn content_reads(self, tag: Seq<char>, meta: JsonValue) -> bool {
        match self {
            AbilityMeta::Ability { icon, page, id } => {
                &&& tag == "ability"@
                &&& required_reads(icon, meta, "icon"@)
                &&& required_reads(page, meta, "page"@)
                &&& required_reads(id, meta, "id"@)
            },
            AbilityMeta::Connector { icon, page } => {
                &&& tag == "connector"@
                &&& tag != "ability"@
                &&& required_reads(icon, meta, "icon"@)
                &&& required_reads(page, meta, "page"@)
            },
        }
    }
}

impl Decode for AbilityMeta {
    open spec fn failure(j: JsonValue) -> Option<DecodeFault> {
        required_failure::<String>(j, "type"@).otherwise(Self::variant_failure(tag_of(j, "type"@), j))
    }

    open spec fn reads(&self, j: JsonValue) -> bool {
        &&& required_failure::<String>(j, "type"@) is None
        &&& j.member("meta"@) matches Some(meta) && self.content_reads(tag_of(j, "type"@), meta)
    }

    fn decode(j: &Json) -> (r: Result<Self, DecodeError>) {
        let tag = required::<String>(j, "type")?;
        let tag = tag.as_str();
        let ability = same_text(tag, "ability");
        if !ability && !same_text(tag, "connector") {
            return Err(DecodeError::new(ErrorKind::UnknownTag, tag));
        }
        match j.find("meta") {
            Some((place, meta)) => match Self::read_content(tag, ability, meta) {
                Ok(node) => Ok(node),
                Err(e) => Err(e.under(place)),
            },
            None => Err(DecodeError::new(ErrorKind::MissingField, "meta")),
        }
    }
}

impl AbilityMeta {
    /// Reads what a node is made of.
    fn read_content(tag: &str, ability: bool, meta: &Json) -> (r: Result<AbilityMeta, DecodeError>)
        requires
            ability == (tag@ == "ability"@),
            ability || tag@ == "connector"@,
        ensures
            match r {
                Ok(node) => Self::content_failure(tag@, meta@) is None && node.content_reads(tag@, meta@),
                Err(e) => Self::content_failure(tag@, meta@) == Some(e@),
            },
    {
        if ability {
            let icon = required::<Icon>(meta, "icon")?;
            let page = required::<u8>(meta, "page")?;
            let id = required::<String>(meta, "id")?;
            Ok(AbilityMeta::Ability { icon, page, id })
        } else {
            let icon = required::<String>(meta, "icon")?;
            let page = required::<u8>(meta, "page")?;
            Ok(AbilityMeta::Connector { icon, page })
        }
    }
}

/// The icon of an item or an ability. The member `format` says how it is
/// given; the icon itself stands under the member `value`.
#[derive(Clone, Debug, PartialEq)]
pub enum Icon {
    Attribute(AttributeIcon),
    Skin(String),
    Legacy(String),
}

impl Icon {
    /// The fault of reading `j` as the icon of the format that the
    /// discriminator `tag` names.
    pub open spec fn variant_failure(tag: Seq<char>, j: JsonValue) -> Option<DecodeFault> {
        if tag == "attribute"@ {
            required_failure::<AttributeIcon>(j, "value"@)
        } else if tag == "skin"@ || tag == "legacy"@ {
            required_failure::<String>(j, "value"@)
        } else {
            Some(fault(ErrorKind::UnknownTag, tag))
        }
    }

    /// Whether `self` is what `j` stands for as the icon of the format that
    /// the discriminator `tag` names.
    pub open spec fn variant_reads(self, tag: Seq<char>, j: JsonValue) -> bool {
        if tag == "attribute"@ {
            self matches Icon::Attribute(icon) && required_reads(icon, j, "value"@)
        } else if tag == "skin"@ {
            self matches Icon::Skin(skin) && required_reads(skin, j, "value"@)
        } else if tag == "legacy"@ {
            self matches Icon::Legacy(name) && required_reads(name, j, "value"@)
        } else {
            false
        }
    }
}

impl Decode for Icon {
    open spec fn failure(j: JsonValue) -> Option<DecodeFault> {
        required_failure::<String>(j, "format"@).otherwise(Self::variant_failure(tag_of(j, "format"@), j))
    }

    open spec fn reads(&self, j: JsonValue) -> bool {
        &&& required_failure::<String>(j, "format"@) is None
        &&& self.variant_reads(tag_of(j, "format"@), j)
    }

    fn decode(j: &Json) -> (r: Result<Self, DecodeError>) {
        let tag = required::<String>(j, "format")?;
        let tag = tag.as_str();
        if same_text(tag, "attribute") {
            Ok(Icon::Attribute(required::<AttributeIcon>(j, "value")?))
        } else if same_text(tag, "skin") {
            Ok(Icon::Skin(required::<String>(j, "value")?))
        } else if same_text(tag, "legacy") {
            Ok(Icon::Legacy(required::<String>(j, "value")?))
        } else {
            Err(DecodeError::new(ErrorKind::UnknownTag, tag))
        }
    }
}

impl Encode for Icon {
    open spec fn valid(&self) -> bool {
        true
    }

    open spec fn encoded(&self) -> JsonValue {
        match self {
            Icon::Attribute(icon) => JsonValue::Object(
                seq![("format"@, JsonValue::String("attribute"@)), ("value"@, icon.encoded())],
            ),
            Icon::Skin(skin) => JsonValue::Object(
                seq![("format"@, JsonValue::String("skin"@)), ("value"@, skin.encoded())],
            ),
            Icon::Legacy(name) => JsonValue::Object(
                seq![("format"@, JsonValue::String("legacy"@)), ("value"@, name.encoded())],
            ),
        }
    }

    fn encode(&self) -> (j: Json) {
        let (format, value) = match self {
            Icon::Attribute(icon) => ("attribute", icon.encode()),
            Icon::Skin(skin) => ("skin", skin.encode()),
            Icon::Legacy(name) => ("legacy", name.encode()),
        };
        let j = ObjectWriter::new().with("format", Json::String(String::from_str(format))).with("value", value).done();
        assert(j@->Object_0 =~= self.encoded()->Object_0);
        j
    }

    proof fn lemma_read_back(&self) {
        let j = self.encoded();
        let members = j->Object_0;
        reveal_strlit("format");
        assert("format"@.len() == 6);
        reveal_strlit("value");
        assert("value"@.len() == 5);
        reveal_strlit("attribute");
        assert("attribute"@.len() == 9);
        reveal_strlit("skin");
        assert("skin"@.len() == 4);
        reveal_strlit("legacy");
        assert("legacy"@.len() == 6);
        lemma_member_at(members, "format"@, 0);
        lemma_member_at(members, "value"@, 1);
        match self {
            Icon::Attribute(icon) => {
                lemma_required_read_back(icon, j, "value"@);
            },
            Icon::Skin(skin) => {
                lemma_required_read_back(skin, j, "value"@);
            },
            Icon::Legacy(name) => {
                lemma_required_read_back(name, j, "value"@);
            },
        }
    }

    proof fn lemma_one_reading(&self, other: &Self, j: JsonValue) {
        reveal_strlit("attribute");
        assert("attribute"@.len() == 9);
        reveal_strlit("skin");
        assert("skin"@.len() == 4);
        reveal_strlit("legacy");
        assert("legacy"@.len() == 6);
        match self {
            Icon::Attribute(icon) => {
                lemma_required_one_reading(icon, &other->Attribute_0, j, "value"@);
            },
            Icon::Skin(skin) => {
                lemma_required_one_reading(skin, &other->Skin_0, j, "value"@);
            },
            Icon::Legacy(name) => {
                lemma_required_one_reading(name, &other->Legacy_0, j, "value"@);
            },
        }
    }

    proof fn lemma_read_is_valid(&self, j: JsonValue) {
    }
}

impl AbilityMeta {
    /// The discriminator of the node.
    pub open spec fn tag(self) -> Seq<char> {
        match self {
            AbilityMeta::Ability { .. } => "ability"@,
            AbilityMeta::Connector { .. } => "connector"@,
        }
    }

    /// What the node is made of, as it stands under the member `meta`.
    pub open spec fn content(self) -> JsonValue {
        match self {
            AbilityMeta::Ability { icon, page, id } => JsonValue::Object(
                seq![("icon"@, icon.encoded()), ("page"@, page.encoded()), ("id"@, id.encoded())],
            ),
            AbilityMeta::Connector { icon, page } => JsonValue::Object(
                seq![("icon"@, icon.encoded()), ("page"@, page.encoded())],
            ),
        }
    }

    /// Whether a node reads the member `name`.
    pub open spec fn owns(name: Seq<char>) -> bool {
        name == "type"@ || name == "meta"@
    }

    /// The members that the node is written as.
    pub open spec fn members(&self) -> Seq<(Seq<char>, JsonValue)> {
        seq![("type"@, JsonValue::String(self.tag())), ("meta"@, self.content())]
    }

    /// What the node is written as is read as the node, also where its members
    /// come after others, as long as a node reads none of those.
    pub proof fn lemma_read_back_among(&self, before: Seq<(Seq<char>, JsonValue)>)
        requires
            self.valid(),
            forall|k: int| 0 <= k < before.len() ==> !Self::owns(#[trigger] before[k].0),
        ensures
            Self::failure(JsonValue::Object(before + self.members())) is None,
            self.reads(JsonValue::Object(before + self.members())),
    {
        let j = JsonValue::Object(before + self.members());
        let meta = self.content();
        reveal_strlit("type");
        assert("type"@.len() == 4 && "type"@[0] == 't');
        reveal_strlit("meta");
        assert("meta"@.len() == 4 && "meta"@[0] == 'm');
        reveal_strlit("ability");
        assert("ability"@.len() == 7);
        reveal_strlit("connector");
        assert("connector"@.len() == 9);
        reveal_strlit("icon");
        assert("icon"@.len() == 4 && "icon"@[0] == 'i');
        reveal_strlit("page");
        assert("page"@.len() == 4 && "page"@[0] == 'p');
        reveal_strlit("id");
        assert("id"@.len() == 2);
        lemma_member_among(before, self.members(), "type"@, 0);
        lemma_member_among(before, self.members(), "meta"@, 1);
        let inner = meta->Object_0;
        match self {
            AbilityMeta::Ability { icon, page, id } => {
                lemma_member_at(inner, "icon"@, 0);
                lemma_required_read_back(icon, meta, "icon"@);
                lemma_member_at(inner, "page"@, 1);
                lemma_required_read_back(page, meta, "page"@);
                lemma_member_at(inner, "id"@, 2);
                lemma_required_read_back(id, meta, "id"@);
            },
            AbilityMeta::Connector { icon, page } => {
                lemma_member_at(inner, "icon"@, 0);
                lemma_required_read_back(icon, meta, "icon"@);
                lemma_member_at(inner, "page"@, 1);
                lemma_required_read_back(page, meta, "page"@);
            },
        }
    }
}

impl Encode for AbilityMeta {
    open spec fn valid(&self) -> bool {
        true
    }

    open spec fn encoded(&self) -> JsonValue {
        JsonValue::Object(self.members())
    }

    fn encode(&self) -> (j: Json) {
        let (tag, content) = match self {
            AbilityMeta::Ability { icon, page, id } => {
                let content = ObjectWriter::new().with("icon", icon.encode()).with("page", page.encode()).with(
                    "id",
                    id.encode(),
                ).done();
                assert(content@->Object_0 =~= self.content()->Object_0);
                ("ability", content)
            },
            AbilityMeta::Connector { icon, page } => {
                let content = ObjectWriter::new().with("icon", icon.encode()).with("page", page.encode()).done();
                assert(content@->Object_0 =~= self.content()->Object_0);
                ("connector", content)
            },
        };
        let j = ObjectWriter::new().with("type", Json::String(String::from_str(tag))).with("meta", content).done();
        assert(j@->Object_0 =~= self.encoded()->Object_0);
        j
    }

    proof fn lemma_read_back(&self) {
        assert(Seq::<(Seq<char>, JsonValue)>::empty() + self.members() =~= self.members());
        self.lemma_read_back_among(Seq::empty());
    }

    proof fn lemma_one_reading(&self, other: &Self, j: JsonValue) {
        reveal_strlit("ability");
        assert("ability"@.len() == 7);
        reveal_strlit("connector");
        assert("connector"@.len() == 9);
        let meta = j.member("meta"@)->Some_0;
        match self {
            AbilityMeta::Ability { icon, page, id } => {
                lemma_required_one_reading(icon, &other->Ability_icon, meta, "icon"@);
                lemma_required_one_reading(page, &other->Ability_page, meta, "page"@);
                lemma_required_one_reading(id, &other->Ability_id, meta, "id"@);
            },
            AbilityMeta::Connector { icon, page } => {
                lemma_required_one_reading(icon, &other->Connector_icon, meta, "icon"@);
                lemma_required_one_reading(page, &other->Connector_page, meta, "page"@);
            },
        }
    }

    proof fn lemma_read_is_valid(&self, j: JsonValue) {
    }
}

} // verus!
