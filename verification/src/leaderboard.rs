//! Leaderboards.

use crate::classes::Class;
use crate::decode::{Decode, DecodeError, DecodeFault, Otherwise};
use crate::encode::{
    Encode, encode_option, encoded_option, lemma_defaulted_read_back, lemma_filled_is_valid,
    lemma_filled_one_reading, lemma_optional_is_valid, lemma_optional_one_reading, lemma_optional_read_back,
    lemma_required_is_valid, lemma_required_one_reading, lemma_required_read_back, valid_items, valid_option,
};
use crate::fields::{
    filled, filled_failure, filled_reads, optional, optional_failure, optional_reads, required, required_failure,
    required_reads,
};
use crate::guild::Banner;
use crate::json::{Json, JsonNumber, JsonValue, lemma_member_at, ObjectWriter};
use crate::ordered::{
    deserialize_to_vec, encode_sequence, encoded_sequence, lemma_sequence_is_valid, lemma_sequence_one_reading,
    lemma_sequence_read_back, sequence_failure, sequence_reads,
};
use crate::player::{LegacyRankColour, SupportRank};
use crate::text::same_text;
use crate::tokens::Token;
use vstd::prelude::*;
use vstd::string::StringExecFns;

verus! {

/// A guild on a leaderboard.
#[derive(Clone, Debug, PartialEq)]
pub struct LbGuild {
    pub uuid: String,
    pub name: String,
    pub prefix: String,
    pub level: u64,
    pub xp: u64,
    pub members: u64,
    pub territories: u64,
    pub wars: u64,
    pub created: String,
    pub banner: Option<Banner>,
}

impl Decode for LbGuild {
    open spec fn failure(j: JsonValue) -> Option<DecodeFault> {
        required_failure::<String>(j, "uuid"@)
            .otherwise(required_failure::<String>(j, "name"@))
            .otherwise(filled_failure::<String>(j, "prefix"@))
            .otherwise(required_failure::<u64>(j, "level"@))
            .otherwise(required_failure::<u64>(j, "xp"@))
            .otherwise(required_failure::<u64>(j, "members"@))
            .otherwise(required_failure::<u64>(j, "territories"@))
            .otherwise(filled_failure::<u64>(j, "wars"@))
            .otherwise(required_failure::<String>(j, "created"@))
            .otherwise(optional_failure::<Banner>(j, "banner"@))
    }

    open spec fn reads(&self, j: JsonValue) -> bool {
        &&& required_reads(self.uuid, j, "uuid"@)
        &&& required_reads(self.name, j, "name"@)
        &&& filled_reads(self.prefix, j, "prefix"@)
        &&& required_reads(self.level, j, "level"@)
        &&& required_reads(self.xp, j, "xp"@)
        &&& required_reads(self.members, j, "members"@)
        &&& required_reads(self.territories, j, "territories"@)
        &&& filled_reads(self.wars, j, "wars"@)
        &&& required_reads(self.created, j, "created"@)
        &&& optional_reads(self.banner, j, "banner"@)
    }

    fn decode(j: &Json) -> (r: Result<Self, DecodeError>) {
        let uuid = required::<String>(j, "uuid")?;
        let name = required::<String>(j, "name")?;
        let prefix = filled::<String>(j, "prefix")?;
        let level = required::<u64>(j, "level")?;
        let xp = required::<u64>(j, "xp")?;
        let members = required::<u64>(j, "members")?;
        let territories = required::<u64>(j, "territories")?;
        let wars = filled::<u64>(j, "wars")?;
        let created = required::<String>(j, "created")?;
        let banner = optional::<Banner>(j, "banner")?;
        Ok(LbGuild { uuid, name, prefix, level, xp, members, territories, wars, created, banner })
    }
}

impl Encode for LbGuild {
    open spec fn valid(&self) -> bool {
        &&& self.uuid.valid()
        &&& self.name.valid()
        &&& self.prefix.valid()
        &&& self.level.valid()
        &&& self.xp.valid()
        &&& self.members.valid()
        &&& self.territories.valid()
        &&& self.wars.valid()
        &&& self.created.valid()
        &&& valid_option(self.banner)
    }

    open spec fn encoded(&self) -> JsonValue {
        JsonValue::Object(
            seq![
                ("uuid"@, self.uuid.encoded()),
                ("name"@, self.name.encoded()),
                ("prefix"@, self.prefix.encoded()),
                ("level"@, self.level.encoded()),
                ("xp"@, self.xp.encoded()),
                ("members"@, self.members.encoded()),
                ("territories"@, self.territories.encoded()),
                ("wars"@, self.wars.encoded()),
                ("created"@, self.created.encoded()),
                ("banner"@, encoded_option(self.banner)),
            ],
        )
    }

    fn encode(&self) -> (j: Json) {
        let j = ObjectWriter::new()
            .with("uuid", self.uuid.encode())
            .with("name", self.name.encode())
            .with("prefix", self.prefix.encode())
            .with("level", self.level.encode())
            .with("xp", self.xp.encode())
            .with("members", self.members.encode())
            .with("territories", self.territories.encode())
            .with("wars", self.wars.encode())
            .with("created", self.created.encode())
            .with("banner", encode_option(&self.banner))
            .done();
        assert(j@->Object_0 =~= self.encoded()->Object_0);
        j
    }

    proof fn lemma_read_back(&self) {
        let j = self.encoded();
        let members = j->Object_0;
        reveal_strlit("uuid");
        assert("uuid"@.len() == 4 && "uuid"@[0] == 'u');
        reveal_strlit("name");
        assert("name"@.len() == 4 && "name"@[0] == 'n');
        reveal_strlit("prefix");
        assert("prefix"@.len() == 6 && "prefix"@[0] == 'p');
        reveal_strlit("level");
        assert("level"@.len() == 5 && "level"@[0] == 'l');
        reveal_strlit("xp");
        assert("xp"@.len() == 2 && "xp"@[0] == 'x');
        reveal_strlit("members");
        assert("members"@.len() == 7 && "members"@[0] == 'm');
        reveal_strlit("territories");
        assert("territories"@.len() == 11 && "territories"@[0] == 't');
        reveal_strlit("wars");
        assert("wars"@.len() == 4 && "wars"@[0] == 'w');
        reveal_strlit("created");
        assert("created"@.len() == 7 && "created"@[0] == 'c');
        reveal_strlit("banner");
        assert("banner"@.len() == 6 && "banner"@[0] == 'b');
        lemma_member_at(members, "uuid"@, 0);
        lemma_required_read_back(&self.uuid, j, "uuid"@);
        lemma_member_at(members, "name"@, 1);
        lemma_required_read_back(&self.name, j, "name"@);
        lemma_member_at(members, "prefix"@, 2);
        lemma_defaulted_read_back(&self.prefix, j, "prefix"@);
        lemma_member_at(members, "level"@, 3);
        lemma_required_read_back(&self.level, j, "level"@);
        lemma_member_at(members, "xp"@, 4);
        lemma_required_read_back(&self.xp, j, "xp"@);
        lemma_member_at(members, "members"@, 5);
        lemma_required_read_back(&self.members, j, "members"@);
        lemma_member_at(members, "territories"@, 6);
        lemma_required_read_back(&self.territories, j, "territories"@);
        lemma_member_at(members, "wars"@, 7);
        lemma_defaulted_read_back(&self.wars, j, "wars"@);
        lemma_member_at(members, "created"@, 8);
        lemma_required_read_back(&self.created, j, "created"@);
        lemma_member_at(members, "banner"@, 9);
        lemma_optional_read_back(self.banner, j, "banner"@);
    }

    proof fn lemma_one_reading(&self, other: &Self, j: JsonValue) {
        lemma_required_one_reading(&self.uuid, &other.uuid, j, "uuid"@);
        lemma_required_one_reading(&self.name, &other.name, j, "name"@);
        lemma_filled_one_reading(&self.prefix, &other.prefix, j, "prefix"@);
        lemma_required_one_reading(&self.level, &other.level, j, "level"@);
        lemma_required_one_reading(&self.xp, &other.xp, j, "xp"@);
        lemma_required_one_reading(&self.members, &other.members, j, "members"@);
        lemma_required_one_reading(&self.territories, &other.territories, j, "territories"@);
        lemma_filled_one_reading(&self.wars, &other.wars, j, "wars"@);
        lemma_required_one_reading(&self.created, &other.created, j, "created"@);
        lemma_optional_one_reading(self.banner, other.banner, j, "banner"@);
    }

    proof fn lemma_read_is_valid(&self, j: JsonValue) {
        lemma_required_is_valid(&self.uuid, j, "uuid"@);
        lemma_required_is_valid(&self.name, j, "name"@);
        lemma_filled_is_valid(&self.prefix, j, "prefix"@);
        lemma_required_is_valid(&self.level, j, "level"@);
        lemma_required_is_valid(&self.xp, j, "xp"@);
        lemma_required_is_valid(&self.members, j, "members"@);
        lemma_required_is_valid(&self.territories, j, "territories"@);
        lemma_filled_is_valid(&self.wars, j, "wars"@);
        lemma_required_is_valid(&self.created, j, "created"@);
        lemma_optional_is_valid(self.banner, j, "banner"@);
    }
}

/// A player on a leaderboard that counts all characters.
#[derive(Clone, Debug, PartialEq)]
pub struct LbPlayerGlobal {
    pub name: String,
    pub uuid: String,
    pub score: i64,
    pub previous_ranking: i64,
    pub metadata: PlayerMetaData,
    pub rank: String,
    pub rank_badge: Option<String>,
    pub support_rank: SupportRank,
    pub legacy_rank_colour: Option<LegacyRankColour>,
}

impl Decode for LbPlayerGlobal {
    open spec fn failure(j: JsonValue) -> Option<DecodeFault> {
        required_failure::<String>(j, "name"@)
            .otherwise(required_failure::<String>(j, "uuid"@))
            .otherwise(required_failure::<i64>(j, "score"@))
            .otherwise(required_failure::<i64>(j, "previousRanking"@))
            .otherwise(required_failure::<PlayerMetaData>(j, "metadata"@))
            .otherwise(required_failure::<String>(j, "rank"@))
            .otherwise(optional_failure::<String>(j, "rankBadge"@))
            .otherwise(required_failure::<SupportRank>(j, "supportRank"@))
            .otherwise(optional_failure::<LegacyRankColour>(j, "legacyRankColour"@))
    }

    open spec fn reads(&self, j: JsonValue) -> bool {
        &&& required_reads(self.name, j, "name"@)
        &&& required_reads(self.uuid, j, "uuid"@)
        &&& required_reads(self.score, j, "score"@)
        &&& required_reads(self.previous_ranking, j, "previousRanking"@)
        &&& required_reads(self.metadata, j, "metadata"@)
        &&& required_reads(self.rank, j, "rank"@)
        &&& optional_reads(self.rank_badge, j, "rankBadge"@)
        &&& required_reads(self.support_rank, j, "supportRank"@)
        &&& optional_reads(self.legacy_rank_colour, j, "legacyRankColour"@)
    }

    fn decode(j: &Json) -> (r: Result<Self, DecodeError>) {
        let name = required::<String>(j, "name")?;
        let uuid = required::<String>(j, "uuid")?;
        let score = required::<i64>(j, "score")?;
        let previous_ranking = required::<i64>(j, "previousRanking")?;
        let metadata = required::<PlayerMetaData>(j, "metadata")?;
        let rank = required::<String>(j, "rank")?;
        let rank_badge = optional::<String>(j, "rankBadge")?;
        let support_rank = required::<SupportRank>(j, "supportRank")?;
        let legacy_rank_colour = optional::<LegacyRankColour>(j, "legacyRankColour")?;
        Ok(
            LbPlayerGlobal {
                name,
                uuid,
                score,
                previous_ranking,
                metadata,
                rank,
                rank_badge,
                support_rank,
                legacy_rank_colour,
            }
        )
    }
}

impl Encode for LbPlayerGlobal {
    open spec fn valid(&self) -> bool {
        &&& self.name.valid()
        &&& self.uuid.valid()
        &&& self.score.valid()
        &&& self.previous_ranking.valid()
        &&& self.metadata.valid()
        &&& self.rank.valid()
        &&& valid_option(self.rank_badge)
        &&& self.support_rank.valid()
        &&& valid_option(self.legacy_rank_colour)
    }

    open spec fn encoded(&self) -> JsonValue {
        JsonValue::Object(
            seq![
                ("name"@, self.name.encoded()),
                ("uuid"@, self.uuid.encoded()),
                ("score"@, self.score.encoded()),
                ("previousRanking"@, self.previous_ranking.encoded()),
                ("metadata"@, self.metadata.encoded()),
                ("rank"@, self.rank.encoded()),
                ("rankBadge"@, encoded_option(self.rank_badge)),
                ("supportRank"@, self.support_rank.encoded()),
                ("legacyRankColour"@, encoded_option(self.legacy_rank_colour)),
            ],
        )
    }

    fn encode(&self) -> (j: Json) {
        let j = ObjectWriter::new()
            .with("name", self.name.encode())
            .with("uuid", self.uuid.encode())
            .with("score", self.score.encode())
            .with("previousRanking", self.previous_ranking.encode())
            .with("metadata", self.metadata.encode())
            .with("rank", self.rank.encode())
            .with("rankBadge", encode_option(&self.rank_badge))
            .with("supportRank", self.support_rank.encode())
            .with("legacyRankColour", encode_option(&self.legacy_rank_colour))
            .done();
        assert(j@->Object_0 =~= self.encoded()->Object_0);
        j
    }

    proof fn lemma_read_back(&self) {
        let j = self.encoded();
        let members = j->Object_0;
        reveal_strlit("name");
        assert("name"@.len() == 4 && "name"@[0] == 'n');
        reveal_strlit("uuid");
        assert("uuid"@.len() == 4 && "uuid"@[0] == 'u');
        reveal_strlit("score");
        assert("score"@.len() == 5 && "score"@[0] == 's');
        reveal_strlit("previousRanking");
        assert("previousRanking"@.len() == 15 && "previousRanking"@[0] == 'p');
        reveal_strlit("metadata");
        assert("metadata"@.len() == 8 && "metadata"@[0] == 'm');
        reveal_strlit("rank");
        assert("rank"@.len() == 4 && "rank"@[0] == 'r');
        reveal_strlit("rankBadge");
        assert("rankBadge"@.len() == 9 && "rankBadge"@[0] == 'r');
        reveal_strlit("supportRank");
        assert("supportRank"@.len() == 11 && "supportRank"@[0] == 's');
        reveal_strlit("legacyRankColour");
        assert("legacyRankColour"@.len() == 16 && "legacyRankColour"@[0] == 'l');
        lemma_member_at(members, "name"@, 0);
        lemma_required_read_back(&self.name, j, "name"@);
        lemma_member_at(members, "uuid"@, 1);
        lemma_required_read_back(&self.uuid, j, "uuid"@);
        lemma_member_at(members, "score"@, 2);
        lemma_required_read_back(&self.score, j, "score"@);
        lemma_member_at(members, "previousRanking"@, 3);
        lemma_required_read_back(&self.previous_ranking, j, "previousRanking"@);
        lemma_member_at(members, "metadata"@, 4);
        lemma_required_read_back(&self.metadata, j, "metadata"@);
        lemma_member_at(members, "rank"@, 5);
        lemma_required_read_back(&self.rank, j, "rank"@);
        lemma_member_at(members, "rankBadge"@, 6);
        lemma_optional_read_back(self.rank_badge, j, "rankBadge"@);
        lemma_member_at(members, "supportRank"@, 7);
        lemma_required_read_back(&self.support_rank, j, "supportRank"@);
        lemma_member_at(members, "legacyRankColour"@, 8);
        lemma_optional_read_back(self.legacy_rank_colour, j, "legacyRankColour"@);
    }

    proof fn lemma_one_reading(&self, other: &Self, j: JsonValue) {
        lemma_required_one_reading(&self.name, &other.name, j, "name"@);
        lemma_required_one_reading(&self.uuid, &other.uuid, j, "uuid"@);
        lemma_required_one_reading(&self.score, &other.score, j, "score"@);
        lemma_required_one_reading(&self.previous_ranking, &other.previous_ranking, j, "previousRanking"@);
        lemma_required_one_reading(&self.metadata, &other.metadata, j, "metadata"@);
        lemma_required_one_reading(&self.rank, &other.rank, j, "rank"@);
        lemma_optional_one_reading(self.rank_badge, other.rank_badge, j, "rankBadge"@);
        lemma_required_one_reading(&self.support_rank, &other.support_rank, j, "supportRank"@);
        lemma_optional_one_reading(self.legacy_rank_colour, other.legacy_rank_colour, j, "legacyRankColour"@);
    }

    proof fn lemma_read_is_valid(&self, j: JsonValue) {
        lemma_required_is_valid(&self.name, j, "name"@);
        lemma_required_is_valid(&self.uuid, j, "uuid"@);
        lemma_required_is_valid(&self.score, j, "score"@);
        lemma_required_is_valid(&self.previous_ranking, j, "previousRanking"@);
        lemma_required_is_valid(&self.metadata, j, "metadata"@);
        lemma_required_is_valid(&self.rank, j, "rank"@);
        lemma_optional_is_valid(self.rank_badge, j, "rankBadge"@);
        lemma_required_is_valid(&self.support_rank, j, "supportRank"@);
        lemma_optional_is_valid(self.legacy_rank_colour, j, "legacyRankColour"@);
    }
}

/// What a leaderboard adds about a player.
#[derive(Clone, Debug, PartialEq)]
pub struct PlayerMetaData {
    /// Some endpoints just don't return this value even when documented that they should
    pub xp: Option<u64>,
    pub playtime: JsonNumber,
}

impl Decode for PlayerMetaData {
    open spec fn failure(j: JsonValue) -> Option<DecodeFault> {
        optional_failure::<u64>(j, "xp"@)
            .otherwise(required_failure::<JsonNumber>(j, "playtime"@))
    }

    open spec fn reads(&self, j: JsonValue) -> bool {
        &&& optional_reads(self.xp, j, "xp"@)
        &&& required_reads(self.playtime, j, "playtime"@)
    }

    fn decode(j: &Json) -> (r: Result<Self, DecodeError>) {
        let xp = optional::<u64>(j, "xp")?;
        let playtime = required::<JsonNumber>(j, "playtime")?;
        Ok(PlayerMetaData { xp, playtime })
    }
}

impl Encode for PlayerMetaData {
    open spec fn valid(&self) -> bool {
        &&& valid_option(self.xp)
        &&& self.playtime.valid()
    }

    open spec fn encoded(&self) -> JsonValue {
        JsonValue::Object(
            seq![
                ("xp"@, encoded_option(self.xp)),
                ("playtime"@, self.playtime.encoded()),
            ],
        )
    }

    fn encode(&self) -> (j: Json) {
        let j = ObjectWriter::new()
            .with("xp", encode_option(&self.xp))
            .with("playtime", self.playtime.encode())
            .done();
        assert(j@->Object_0 =~= self.encoded()->Object_0);
        j
    }

    proof fn lemma_read_back(&self) {
        let j = self.encoded();
        let members = j->Object_0;
        reveal_strlit("xp");
        assert("xp"@.len() == 2);
        reveal_strlit("playtime");
        assert("playtime"@.len() == 8);
        lemma_member_at(members, "xp"@, 0);
        lemma_optional_read_back(self.xp, j, "xp"@);
        lemma_member_at(members, "playtime"@, 1);
        lemma_required_read_back(&self.playtime, j, "playtime"@);
    }

    proof fn lemma_one_reading(&self, other: &Self, j: JsonValue) {
        lemma_optional_one_reading(self.xp, other.xp, j, "xp"@);
        lemma_required_one_reading(&self.playtime, &other.playtime, j, "playtime"@);
    }

    proof fn lemma_read_is_valid(&self, j: JsonValue) {
        lemma_optional_is_valid(self.xp, j, "xp"@);
        lemma_required_is_valid(&self.playtime, j, "playtime"@);
    }
}

/// What a raid leaderboard adds about an entry.
#[derive(Clone, Debug, PartialEq)]
pub struct RaidMetaData {
    pub completions: u64,
    pub gambits: JsonNumber,
}

impl Decode for RaidMetaData {
    open spec fn failure(j: JsonValue) -> Option<DecodeFault> {
        required_failure::<u64>(j, "completions"@)
            .otherwise(required_failure::<JsonNumber>(j, "gambits"@))
    }

    open spec fn reads(&self, j: JsonValue) -> bool {
        &&& required_reads(self.completions, j, "completions"@)
        &&& required_reads(self.gambits, j, "gambits"@)
    }

    fn decode(j: &Json) -> (r: Result<Self, DecodeError>) {
        let completions = required::<u64>(j, "completions")?;
        let gambits = required::<JsonNumber>(j, "gambits")?;
        Ok(RaidMetaData { completions, gambits })
    }
}

impl Encode for RaidMetaData {
    open spec fn valid(&self) -> bool {
        &&& self.completions.valid()
        &&& self.gambits.valid()
    }

    open spec fn encoded(&self) -> JsonValue {
        JsonValue::Object(
            seq![
                ("completions"@, self.completions.encoded()),
                ("gambits"@, self.gambits.encoded()),
            ],
        )
    }

    fn encode(&self) -> (j: Json) {
        let j = ObjectWriter::new()
            .with("completions", self.completions.encode())
            .with("gambits", self.gambits.encode())
            .done();
        assert(j@->Object_0 =~= self.encoded()->Object_0);
        j
    }

    proof fn lemma_read_back(&self) {
        let j = self.encoded();
        let members = j->Object_0;
        reveal_strlit("completions");
        assert("completions"@.len() == 11);
        reveal_strlit("gambits");
        assert("gambits"@.len() == 7);
        lemma_member_at(members, "completions"@, 0);
        lemma_required_read_back(&self.completions, j, "completions"@);
        lemma_member_at(members, "gambits"@, 1);
        lemma_required_read_back(&self.gambits, j, "gambits"@);
    }

    proof fn lemma_one_reading(&self, other: &Self, j: JsonValue) {
        lemma_required_one_reading(&self.completions, &other.completions, j, "completions"@);
        lemma_required_one_reading(&self.gambits, &other.gambits, j, "gambits"@);
    }

    proof fn lemma_read_is_valid(&self, j: JsonValue) {
        lemma_required_is_valid(&self.completions, j, "completions"@);
        lemma_required_is_valid(&self.gambits, j, "gambits"@);
    }
}

/// A character on a leaderboard.
#[derive(Clone, Debug, PartialEq)]
pub struct LbPlayerProfile {
    pub name: String,
    pub uuid: String,
    pub score: i64,
    pub previous_ranking: i64,
    pub metadata: PlayerMetaData,
    pub character_uuid: String,
    pub character_type: Class,
    pub rank: String,
    pub rank_badge: Option<String>,
    pub support_rank: SupportRank,
    pub legacy_rank_colour: Option<LegacyRankColour>,
}

impl Decode for LbPlayerProfile {
    open spec fn failure(j: JsonValue) -> Option<DecodeFault> {
        required_failure::<String>(j, "name"@)
            .otherwise(required_failure::<String>(j, "uuid"@))
            .otherwise(required_failure::<i64>(j, "score"@))
            .otherwise(required_failure::<i64>(j, "previousRanking"@))
            .otherwise(required_failure::<PlayerMetaData>(j, "metadata"@))
            .otherwise(required_failure::<String>(j, "characterUuid"@))
            .otherwise(required_failure::<Class>(j, "characterType"@))
            .otherwise(required_failure::<String>(j, "rank"@))
            .otherwise(optional_failure::<String>(j, "rankBadge"@))
            .otherwise(required_failure::<SupportRank>(j, "supportRank"@))
            .otherwise(optional_failure::<LegacyRankColour>(j, "legacyRankColour"@))
    }

    open spec fn reads(&self, j: JsonValue) -> bool {
        &&& required_reads(self.name, j, "name"@)
        &&& required_reads(self.uuid, j, "uuid"@)
        &&& required_reads(self.score, j, "score"@)
        &&& required_reads(self.previous_ranking, j, "previousRanking"@)
        &&& required_reads(self.metadata, j, "metadata"@)
        &&& required_reads(self.character_uuid, j, "characterUuid"@)
        &&& required_reads(self.character_type, j, "characterType"@)
        &&& required_reads(self.rank, j, "rank"@)
        &&& optional_reads(self.rank_badge, j, "rankBadge"@)
        &&& required_reads(self.support_rank, j, "supportRank"@)
        &&& optional_reads(self.legacy_rank_colour, j, "legacyRankColour"@)
    }

    fn decode(j: &Json) -> (r: Result<Self, DecodeError>) {
        let name = required::<String>(j, "name")?;
        let uuid = required::<String>(j, "uuid")?;
        let score = required::<i64>(j, "score")?;
        let previous_ranking = required::<i64>(j, "previousRanking")?;
        let metadata = required::<PlayerMetaData>(j, "metadata")?;
        let character_uuid = required::<String>(j, "characterUuid")?;
        let character_type = required::<Class>(j, "characterType")?;
        let rank = required::<String>(j, "rank")?;
        let rank_badge = optional::<String>(j, "rankBadge")?;
        let support_rank = required::<SupportRank>(j, "supportRank")?;
        let legacy_rank_colour = optional::<LegacyRankColour>(j, "legacyRankColour")?;
        Ok(
            LbPlayerProfile {
                name,
                uuid,
                score,
                previous_ranking,
                metadata,
                character_uuid,
                character_type,
                rank,
                rank_badge,
                support_rank,
                legacy_rank_colour,
            }
        )
    }
}

impl Encode for LbPlayerProfile {
    open spec fn valid(&self) -> bool {
        &&& self.name.valid()
        &&& self.uuid.valid()
        &&& self.score.valid()
        &&& self.previous_ranking.valid()
        &&& self.metadata.valid()
        &&& self.character_uuid.valid()
        &&& self.character_type.valid()
        &&& self.rank.valid()
        &&& valid_option(self.rank_badge)
        &&& self.support_rank.valid()
        &&& valid_option(self.legacy_rank_colour)
    }

    open spec fn encoded(&self) -> JsonValue {
        JsonValue::Object(
            seq![
                ("name"@, self.name.encoded()),
                ("uuid"@, self.uuid.encoded()),
                ("score"@, self.score.encoded()),
                ("previousRanking"@, self.previous_ranking.encoded()),
                ("metadata"@, self.metadata.encoded()),
                ("characterUuid"@, self.character_uuid.encoded()),
                ("characterType"@, self.character_type.encoded()),
                ("rank"@, self.rank.encoded()),
                ("rankBadge"@, encoded_option(self.rank_badge)),
                ("supportRank"@, self.support_rank.encoded()),
                ("legacyRankColour"@, encoded_option(self.legacy_rank_colour)),
            ],
        )
    }

    fn encode(&self) -> (j: Json) {
        let j = ObjectWriter::new()
            .with("name", self.name.encode())
            .with("uuid", self.uuid.encode())
            .with("score", self.score.encode())
            .with("previousRanking", self.previous_ranking.encode())
            .with("metadata", self.metadata.encode())
            .with("characterUuid", self.character_uuid.encode())
            .with("characterType", self.character_type.encode())
            .with("rank", self.rank.encode())
            .with("rankBadge", encode_option(&self.rank_badge))
            .with("supportRank", self.support_rank.encode())
            .with("legacyRankColour", encode_option(&self.legacy_rank_colour))
            .done();
        assert(j@->Object_0 =~= self.encoded()->Object_0);
        j
    }

    proof fn lemma_read_back(&self) {
        let j = self.encoded();
        let members = j->Object_0;
        reveal_strlit("name");
        assert("name"@.len() == 4 && "name"@[0] == 'n');
        reveal_strlit("uuid");
        assert("uuid"@.len() == 4 && "uuid"@[0] == 'u');
        reveal_strlit("score");
        assert("score"@.len() == 5 && "score"@[0] == 's');
        reveal_strlit("previousRanking");
        assert("previousRanking"@.len() == 15 && "previousRanking"@[0] == 'p' && "previousRanking"@[9] == 'a');
        reveal_strlit("metadata");
        assert("metadata"@.len() == 8 && "metadata"@[0] == 'm');
        reveal_strlit("characterUuid");
        assert("characterUuid"@.len() == 13 && "characterUuid"@[0] == 'c' && "characterUuid"@[9] == 'U');
        reveal_strlit("characterType");
        assert("characterType"@.len() == 13 && "characterType"@[0] == 'c' && "characterType"@[9] == 'T');
        reveal_strlit("rank");
        assert("rank"@.len() == 4 && "rank"@[0] == 'r');
        reveal_strlit("rankBadge");
        assert("rankBadge"@.len() == 9 && "rankBadge"@[0] == 'r');
        reveal_strlit("supportRank");
        assert("supportRank"@.len() == 11 && "supportRank"@[0] == 's' && "supportRank"@[9] == 'n');
        reveal_strlit("legacyRankColour");
        assert("legacyRankColour"@.len() == 16 && "legacyRankColour"@[0] == 'l' && "legacyRankColour"@[9] == 'k');
        lemma_member_at(members, "name"@, 0);
        lemma_required_read_back(&self.name, j, "name"@);
        lemma_member_at(members, "uuid"@, 1);
        lemma_required_read_back(&self.uuid, j, "uuid"@);
        lemma_member_at(members, "score"@, 2);
        lemma_required_read_back(&self.score, j, "score"@);
        lemma_member_at(members, "previousRanking"@, 3);
        lemma_required_read_back(&self.previous_ranking, j, "previousRanking"@);
        lemma_member_at(members, "metadata"@, 4);
        lemma_required_read_back(&self.metadata, j, "metadata"@);
        lemma_member_at(members, "characterUuid"@, 5);
        lemma_required_read_back(&self.character_uuid, j, "characterUuid"@);
        lemma_member_at(members, "characterType"@, 6);
        lemma_required_read_back(&self.character_type, j, "characterType"@);
        lemma_member_at(members, "rank"@, 7);
        lemma_required_read_back(&self.rank, j, "rank"@);
        lemma_member_at(members, "rankBadge"@, 8);
        lemma_optional_read_back(self.rank_badge, j, "rankBadge"@);
        lemma_member_at(members, "supportRank"@, 9);
        lemma_required_read_back(&self.support_rank, j, "supportRank"@);
        lemma_member_at(members, "legacyRankColour"@, 10);
        lemma_optional_read_back(self.legacy_rank_colour, j, "legacyRankColour"@);
    }

    proof fn lemma_one_reading(&self, other: &Self, j: JsonValue) {
        lemma_required_one_reading(&self.name, &other.name, j, "name"@);
        lemma_required_one_reading(&self.uuid, &other.uuid, j, "uuid"@);
        lemma_required_one_reading(&self.score, &other.score, j, "score"@);
        lemma_required_one_reading(&self.previous_ranking, &other.previous_ranking, j, "previousRanking"@);
        lemma_required_one_reading(&self.metadata, &other.metadata, j, "metadata"@);
        lemma_required_one_reading(&self.character_uuid, &other.character_uuid, j, "characterUuid"@);
        lemma_required_one_reading(&self.character_type, &other.character_type, j, "characterType"@);
        lemma_required_one_reading(&self.rank, &other.rank, j, "rank"@);
        lemma_optional_one_reading(self.rank_badge, other.rank_badge, j, "rankBadge"@);
        lemma_required_one_reading(&self.support_rank, &other.support_rank, j, "supportRank"@);
        lemma_optional_one_reading(self.legacy_rank_colour, other.legacy_rank_colour, j, "legacyRankColour"@);
    }

    proof fn lemma_read_is_valid(&self, j: JsonValue) {
        lemma_required_is_valid(&self.name, j, "name"@);
        lemma_required_is_valid(&self.uuid, j, "uuid"@);
        lemma_required_is_valid(&self.score, j, "score"@);
        lemma_required_is_valid(&self.previous_ranking, j, "previousRanking"@);
        lemma_required_is_valid(&self.metadata, j, "metadata"@);
        lemma_required_is_valid(&self.character_uuid, j, "characterUuid"@);
        lemma_required_is_valid(&self.character_type, j, "characterType"@);
        lemma_required_is_valid(&self.rank, j, "rank"@);
        lemma_optional_is_valid(self.rank_badge, j, "rankBadge"@);
        lemma_required_is_valid(&self.support_rank, j, "supportRank"@);
        lemma_optional_is_valid(self.legacy_rank_colour, j, "legacyRankColour"@);
    }
}

/// A player on a raid leaderboard.
#[derive(Clone, Debug, PartialEq)]
pub struct LbRaidPlayer {
    pub name: String,
    pub uuid: String,
    pub score: i64,
    pub previous_ranking: i64,
    pub metadata: RaidMetaData,
    pub rank: String,
    pub rank_badge: Option<String>,
    pub support_rank: SupportRank,
    pub legacy_rank_colour: Option<LegacyRankColour>,
}

impl Decode for LbRaidPlayer {
    open spec fn failure(j: JsonValue) -> Option<DecodeFault> {
        required_failure::<String>(j, "name"@)
            .otherwise(required_failure::<String>(j, "uuid"@))
            .otherwise(required_failure::<i64>(j, "score"@))
            .otherwise(required_failure::<i64>(j, "previousRanking"@))
            .otherwise(required_failure::<RaidMetaData>(j, "metadata"@))
            .otherwise(required_failure::<String>(j, "rank"@))
            .otherwise(optional_failure::<String>(j, "rankBadge"@))
            .otherwise(required_failure::<SupportRank>(j, "supportRank"@))
            .otherwise(optional_failure::<LegacyRankColour>(j, "legacyRankColour"@))
    }

    open spec fn reads(&self, j: JsonValue) -> bool {
        &&& required_reads(self.name, j, "name"@)
        &&& required_reads(self.uuid, j, "uuid"@)
        &&& required_reads(self.score, j, "score"@)
        &&& required_reads(self.previous_ranking, j, "previousRanking"@)
        &&& required_reads(self.metadata, j, "metadata"@)
        &&& required_reads(self.rank, j, "rank"@)
        &&& optional_reads(self.rank_badge, j, "rankBadge"@)
        &&& required_reads(self.support_rank, j, "supportRank"@)
        &&& optional_reads(self.legacy_rank_colour, j, "legacyRankColour"@)
    }

    fn decode(j: &Json) -> (r: Result<Self, DecodeError>) {
        let name = required::<String>(j, "name")?;
        let uuid = required::<String>(j, "uuid")?;
        let score = required::<i64>(j, "score")?;
        let previous_ranking = required::<i64>(j, "previousRanking")?;
        let metadata = required::<RaidMetaData>(j, "metadata")?;
        let rank = required::<String>(j, "rank")?;
        let rank_badge = optional::<String>(j, "rankBadge")?;
        let support_rank = required::<SupportRank>(j, "supportRank")?;
        let legacy_rank_colour = optional::<LegacyRankColour>(j, "legacyRankColour")?;
        Ok(
            LbRaidPlayer {
                name,
                uuid,
                score,
                previous_ranking,
                metadata,
                rank,
                rank_badge,
                support_rank,
                legacy_rank_colour,
            }
        )
    }
}

impl Encode for LbRaidPlayer {
    open spec fn valid(&self) -> bool {
        &&& self.name.valid()
        &&& self.uuid.valid()
        &&& self.score.valid()
        &&& self.previous_ranking.valid()
        &&& self.metadata.valid()
        &&& self.rank.valid()
        &&& valid_option(self.rank_badge)
        &&& self.support_rank.valid()
        &&& valid_option(self.legacy_rank_colour)
    }

    open spec fn encoded(&self) -> JsonValue {
        JsonValue::Object(
            seq![
                ("name"@, self.name.encoded()),
                ("uuid"@, self.uuid.encoded()),
                ("score"@, self.score.encoded()),
                ("previousRanking"@, self.previous_ranking.encoded()),
                ("metadata"@, self.metadata.encoded()),
                ("rank"@, self.rank.encoded()),
                ("rankBadge"@, encoded_option(self.rank_badge)),
                ("supportRank"@, self.support_rank.encoded()),
                ("legacyRankColour"@, encoded_option(self.legacy_rank_colour)),
            ],
        )
    }

    fn encode(&self) -> (j: Json) {
        let j = ObjectWriter::new()
            .with("name", self.name.encode())
            .with("uuid", self.uuid.encode())
            .with("score", self.score.encode())
            .with("previousRanking", self.previous_ranking.encode())
            .with("metadata", self.metadata.encode())
            .with("rank", self.rank.encode())
            .with("rankBadge", encode_option(&self.rank_badge))
            .with("supportRank", self.support_rank.encode())
            .with("legacyRankColour", encode_option(&self.legacy_rank_colour))
            .done();
        assert(j@->Object_0 =~= self.encoded()->Object_0);
        j
    }

    proof fn lemma_read_back(&self) {
        let j = self.encoded();
        let members = j->Object_0;
        reveal_strlit("name");
        assert("name"@.len() == 4 && "name"@[0] == 'n');
        reveal_strlit("uuid");
        assert("uuid"@.len() == 4 && "uuid"@[0] == 'u');
        reveal_strlit("score");
        assert("score"@.len() == 5 && "score"@[0] == 's');
        reveal_strlit("previousRanking");
        assert("previousRanking"@.len() == 15 && "previousRanking"@[0] == 'p');
        reveal_strlit("metadata");
        assert("metadata"@.len() == 8 && "metadata"@[0] == 'm');
        reveal_strlit("rank");
        assert("rank"@.len() == 4 && "rank"@[0] == 'r');
        reveal_strlit("rankBadge");
        assert("rankBadge"@.len() == 9 && "rankBadge"@[0] == 'r');
        reveal_strlit("supportRank");
        assert("supportRank"@.len() == 11 && "supportRank"@[0] == 's');
        reveal_strlit("legacyRankColour");
        assert("legacyRankColour"@.len() == 16 && "legacyRankColour"@[0] == 'l');
        lemma_member_at(members, "name"@, 0);
        lemma_required_read_back(&self.name, j, "name"@);
        lemma_member_at(members, "uuid"@, 1);
        lemma_required_read_back(&self.uuid, j, "uuid"@);
        lemma_member_at(members, "score"@, 2);
        lemma_required_read_back(&self.score, j, "score"@);
        lemma_member_at(members, "previousRanking"@, 3);
        lemma_required_read_back(&self.previous_ranking, j, "previousRanking"@);
        lemma_member_at(members, "metadata"@, 4);
        lemma_required_read_back(&self.metadata, j, "metadata"@);
        lemma_member_at(members, "rank"@, 5);
        lemma_required_read_back(&self.rank, j, "rank"@);
        lemma_member_at(members, "rankBadge"@, 6);
        lemma_optional_read_back(self.rank_badge, j, "rankBadge"@);
        lemma_member_at(members, "supportRank"@, 7);
        lemma_required_read_back(&self.support_rank, j, "supportRank"@);
        lemma_member_at(members, "legacyRankColour"@, 8);
        lemma_optional_read_back(self.legacy_rank_colour, j, "legacyRankColour"@);
    }

    proof fn lemma_one_reading(&self, other: &Self, j: JsonValue) {
        lemma_required_one_reading(&self.name, &other.name, j, "name"@);
        lemma_required_one_reading(&self.uuid, &other.uuid, j, "uuid"@);
        lemma_required_one_reading(&self.score, &other.score, j, "score"@);
        lemma_required_one_reading(&self.previous_ranking, &other.previous_ranking, j, "previousRanking"@);
        lemma_required_one_reading(&self.metadata, &other.metadata, j, "metadata"@);
        lemma_required_one_reading(&self.rank, &other.rank, j, "rank"@);
        lemma_optional_one_reading(self.rank_badge, other.rank_badge, j, "rankBadge"@);
        lemma_required_one_reading(&self.support_rank, &other.support_rank, j, "supportRank"@);
        lemma_optional_one_reading(self.legacy_rank_colour, other.legacy_rank_colour, j, "legacyRankColour"@);
    }

    proof fn lemma_read_is_valid(&self, j: JsonValue) {
        lemma_required_is_valid(&self.name, j, "name"@);
        lemma_required_is_valid(&self.uuid, j, "uuid"@);
        lemma_required_is_valid(&self.score, j, "score"@);
        lemma_required_is_valid(&self.previous_ranking, j, "previousRanking"@);
        lemma_required_is_valid(&self.metadata, j, "metadata"@);
        lemma_required_is_valid(&self.rank, j, "rank"@);
        lemma_optional_is_valid(self.rank_badge, j, "rankBadge"@);
        lemma_required_is_valid(&self.support_rank, j, "supportRank"@);
        lemma_optional_is_valid(self.legacy_rank_colour, j, "legacyRankColour"@);
    }
}

/// A guild on a raid leaderboard.
#[derive(Clone, Debug, PartialEq)]
pub struct LbRaidGuild {
    pub name: String,
    pub uuid: String,
    pub score: u64,
    pub previous_ranking: i64,
    pub metadata: RaidMetaData,
    pub banner: Option<Banner>,
}

impl Decode for LbRaidGuild {
    open spec fn failure(j: JsonValue) -> Option<DecodeFault> {
        required_failure::<String>(j, "name"@)
            .otherwise(required_failure::<String>(j, "uuid"@))
            .otherwise(filled_failure::<u64>(j, "score"@))
            .otherwise(required_failure::<i64>(j, "previousRanking"@))
            .otherwise(required_failure::<RaidMetaData>(j, "metadata"@))
            .otherwise(optional_failure::<Banner>(j, "banner"@))
    }

    open spec fn reads(&self, j: JsonValue) -> bool {
        &&& required_reads(self.name, j, "name"@)
        &&& required_reads(self.uuid, j, "uuid"@)
        &&& filled_reads(self.score, j, "score"@)
        &&& required_reads(self.previous_ranking, j, "previousRanking"@)
        &&& required_reads(self.metadata, j, "metadata"@)
        &&& optional_reads(self.banner, j, "banner"@)
    }

    fn decode(j: &Json) -> (r: Result<Self, DecodeError>) {
        let name = required::<String>(j, "name")?;
        let uuid = required::<String>(j, "uuid")?;
        let score = filled::<u64>(j, "score")?;
        let previous_ranking = required::<i64>(j, "previousRanking")?;
        let metadata = required::<RaidMetaData>(j, "metadata")?;
        let banner = optional::<Banner>(j, "banner")?;
        Ok(LbRaidGuild { name, uuid, score, previous_ranking, metadata, banner })
    }
}

impl Encode for LbRaidGuild {
    open spec fn valid(&self) -> bool {
        &&& self.name.valid()
        &&& self.uuid.valid()
        &&& self.score.valid()
        &&& self.previous_ranking.valid()
        &&& self.metadata.valid()
        &&& valid_option(self.banner)
    }

    open spec fn encoded(&self) -> JsonValue {
        JsonValue::Object(
            seq![
                ("name"@, self.name.encoded()),
                ("uuid"@, self.uuid.encoded()),
                ("score"@, self.score.encoded()),
                ("previousRanking"@, self.previous_ranking.encoded()),
                ("metadata"@, self.metadata.encoded()),
                ("banner"@, encoded_option(self.banner)),
            ],
        )
    }

    fn encode(&self) -> (j: Json) {
        let j = ObjectWriter::new()
            .with("name", self.name.encode())
            .with("uuid", self.uuid.encode())
            .with("score", self.score.encode())
            .with("previousRanking", self.previous_ranking.encode())
            .with("metadata", self.metadata.encode())
            .with("banner", encode_option(&self.banner))
            .done();
        assert(j@->Object_0 =~= self.encoded()->Object_0);
        j
    }

    proof fn lemma_read_back(&self) {
        let j = self.encoded();
        let members = j->Object_0;
        reveal_strlit("name");
        assert("name"@.len() == 4 && "name"@[0] == 'n');
        reveal_strlit("uuid");
        assert("uuid"@.len() == 4 && "uuid"@[0] == 'u');
        reveal_strlit("score");
        assert("score"@.len() == 5 && "score"@[0] == 's');
        reveal_strlit("previousRanking");
        assert("previousRanking"@.len() == 15 && "previousRanking"@[0] == 'p');
        reveal_strlit("metadata");
        assert("metadata"@.len() == 8 && "metadata"@[0] == 'm');
        reveal_strlit("banner");
        assert("banner"@.len() == 6 && "banner"@[0] == 'b');
        lemma_member_at(members, "name"@, 0);
        lemma_required_read_back(&self.name, j, "name"@);
        lemma_member_at(members, "uuid"@, 1);
        lemma_required_read_back(&self.uuid, j, "uuid"@);
        lemma_member_at(members, "score"@, 2);
        lemma_defaulted_read_back(&self.score, j, "score"@);
        lemma_member_at(members, "previousRanking"@, 3);
        lemma_required_read_back(&self.previous_ranking, j, "previousRanking"@);
        lemma_member_at(members, "metadata"@, 4);
        lemma_required_read_back(&self.metadata, j, "metadata"@);
        lemma_member_at(members, "banner"@, 5);
        lemma_optional_read_back(self.banner, j, "banner"@);
    }

    proof fn lemma_one_reading(&self, other: &Self, j: JsonValue) {
        lemma_required_one_reading(&self.name, &other.name, j, "name"@);
        lemma_required_one_reading(&self.uuid, &other.uuid, j, "uuid"@);
        lemma_filled_one_reading(&self.score, &other.score, j, "score"@);
        lemma_required_one_reading(&self.previous_ranking, &other.previous_ranking, j, "previousRanking"@);
        lemma_required_one_reading(&self.metadata, &other.metadata, j, "metadata"@);
        lemma_optional_one_reading(self.banner, other.banner, j, "banner"@);
    }

    proof fn lemma_read_is_valid(&self, j: JsonValue) {
        lemma_required_is_valid(&self.name, j, "name"@);
        lemma_required_is_valid(&self.uuid, j, "uuid"@);
        lemma_filled_is_valid(&self.score, j, "score"@);
        lemma_required_is_valid(&self.previous_ranking, j, "previousRanking"@);
        lemma_required_is_valid(&self.metadata, j, "metadata"@);
        lemma_optional_is_valid(self.banner, j, "banner"@);
    }
}

/// A leaderboard of guilds.
#[derive(Clone, Copy, Debug, PartialEq, Eq, Structural)]
pub enum GuildLbType {
    GuildLevel,
    GuildTerritories,
    GuildWars,
}

impl Token for GuildLbType {
    open spec fn of_token(s: Seq<char>) -> Option<Self> {
        if s == "guildLevel"@ {
            Some(GuildLbType::GuildLevel)
        } else if s == "guildTerritories"@ {
            Some(GuildLbType::GuildTerritories)
        } else if s == "guildWars"@ {
            Some(GuildLbType::GuildWars)
        } else {
            None
        }
    }

    open spec fn token(self) -> Seq<char> {
        match self {
            GuildLbType::GuildLevel => "guildLevel"@,
            GuildLbType::GuildTerritories => "guildTerritories"@,
            GuildLbType::GuildWars => "guildWars"@,
        }
    }

    fn from_token(s: &str) -> (r: Option<Self>) {
        if same_text(s, "guildLevel") {
            Some(GuildLbType::GuildLevel)
        } else if same_text(s, "guildTerritories") {
            Some(GuildLbType::GuildTerritories)
        } else if same_text(s, "guildWars") {
            Some(GuildLbType::GuildWars)
        } else {
            None
        }
    }

    fn as_token(self) -> (r: &'static str) {
        match self {
            GuildLbType::GuildLevel => "guildLevel",
            GuildLbType::GuildTerritories => "guildTerritories",
            GuildLbType::GuildWars => "guildWars",
        }
    }

    fn same_token(&self, other: &Self) -> (r: bool) {
        *self == *other
    }

    proof fn lemma_token_is_read(self) {
        reveal_strlit("guildLevel");
        assert("guildLevel"@.len() == 10);
        reveal_strlit("guildTerritories");
        assert("guildTerritories"@.len() == 16);
        reveal_strlit("guildWars");
        assert("guildWars"@.len() == 9);
    }
}

impl GuildLbType {
    /// The leaderboard as the API names it.
    pub fn to_string(&self) -> (r: String)
        ensures
            r@ == self.token(),
    {
        String::from_str(self.as_token())
    }
}

/// A leaderboard of characters.
#[derive(Clone, Copy, Debug, PartialEq, Eq, Structural)]
pub enum PlayerProfileLbType {
    WoodcuttingLevel,
    MiningLevel,
    FishingLevel,
    FarmingLevel,
    AlchemismLevel,
    ArmouringLevel,
    CookingLevel,
    JewelingLevel,
    ScribingLevel,
    TailoringLevel,
    WeaponsmithingLevel,
    WoodworkingLevel,
    PlayerContent,
    CombatSoloLevel,
    ProfessionsSoloLevel,
    TotalSoloLevel,
    HardcoreLegacyLevel,
    IronmanContent,
    UltimateIronmanContent,
    HardcoreContent,
    CraftsmanContent,
    HuntedContent,
    HuicContent,
    HuichContent,
    HichContent,
    HicContent,
}

impl Token for PlayerProfileLbType {
    open spec fn of_token(s: Seq<char>) -> Option<Self> {
        if s == "woodcuttingLevel"@ {
            Some(PlayerProfileLbType::WoodcuttingLevel)
        } else if s == "miningLevel"@ {
            Some(PlayerProfileLbType::MiningLevel)
        } else if s == "fishingLevel"@ {
            Some(PlayerProfileLbType::FishingLevel)
        } else if s == "farmingLevel"@ {
            Some(PlayerProfileLbType::FarmingLevel)
        } else if s == "alchemismLevel"@ {
            Some(PlayerProfileLbType::AlchemismLevel)
        } else if s == "armouringLevel"@ {
            Some(PlayerProfileLbType::ArmouringLevel)
        } else if s == "cookingLevel"@ {
            Some(PlayerProfileLbType::CookingLevel)
        } else if s == "jewelingLevel"@ {
            Some(PlayerProfileLbType::JewelingLevel)
        } else if s == "scribingLevel"@ {
            Some(PlayerProfileLbType::ScribingLevel)
        } else if s == "tailoringLevel"@ {
            Some(PlayerProfileLbType::TailoringLevel)
        } else if s == "weaponsmithingLevel"@ {
            Some(PlayerProfileLbType::WeaponsmithingLevel)
        } else if s == "woodworkingLevel"@ {
            Some(PlayerProfileLbType::WoodworkingLevel)
        } else if s == "playerContent"@ {
            Some(PlayerProfileLbType::PlayerContent)
        } else if s == "combatSoloLevel"@ {
            Some(PlayerProfileLbType::CombatSoloLevel)
        } else if s == "professionsSoloLevel"@ {
            Some(PlayerProfileLbType::ProfessionsSoloLevel)
        } else if s == "totalSoloLevel"@ {
            Some(PlayerProfileLbType::TotalSoloLevel)
        } else if s == "hardcoreLegacyLevel"@ {
            Some(PlayerProfileLbType::HardcoreLegacyLevel)
        } else if s == "ironmanContent"@ {
            Some(PlayerProfileLbType::IronmanContent)
        } else if s == "ultimateIronmanContent"@ {
            Some(PlayerProfileLbType::UltimateIronmanContent)
        } else if s == "hardcoreContent"@ {
            Some(PlayerProfileLbType::HardcoreContent)
        } else if s == "craftsmanContent"@ {
            Some(PlayerProfileLbType::CraftsmanContent)
        } else if s == "huntedContent"@ {
            Some(PlayerProfileLbType::HuntedContent)
        } else if s == "huicContent"@ {
            Some(PlayerProfileLbType::HuicContent)
        } else if s == "huichContent"@ {
            Some(PlayerProfileLbType::HuichContent)
        } else if s == "hichContent"@ {
            Some(PlayerProfileLbType::HichContent)
        } else if s == "hicContent"@ {
            Some(PlayerProfileLbType::HicContent)
        } else {
            None
        }
    }

    open spec fn token(self) -> Seq<char> {
        match self {
            PlayerProfileLbType::WoodcuttingLevel => "woodcuttingLevel"@,
            PlayerProfileLbType::MiningLevel => "miningLevel"@,
            PlayerProfileLbType::FishingLevel => "fishingLevel"@,
            PlayerProfileLbType::FarmingLevel => "farmingLevel"@,
            PlayerProfileLbType::AlchemismLevel => "alchemismLevel"@,
            PlayerProfileLbType::ArmouringLevel => "armouringLevel"@,
            PlayerProfileLbType::CookingLevel => "cookingLevel"@,
            PlayerProfileLbType::JewelingLevel => "jewelingLevel"@,
            PlayerProfileLbType::ScribingLevel => "scribingLevel"@,
            PlayerProfileLbType::TailoringLevel => "tailoringLevel"@,
            PlayerProfileLbType::WeaponsmithingLevel => "weaponsmithingLevel"@,
            PlayerProfileLbType::WoodworkingLevel => "woodworkingLevel"@,
            PlayerProfileLbType::PlayerContent => "playerContent"@,
            PlayerProfileLbType::CombatSoloLevel => "combatSoloLevel"@,
            PlayerProfileLbType::ProfessionsSoloLevel => "professionsSoloLevel"@,
            PlayerProfileLbType::TotalSoloLevel => "totalSoloLevel"@,
            PlayerProfileLbType::HardcoreLegacyLevel => "hardcoreLegacyLevel"@,
            PlayerProfileLbType::IronmanContent => "ironmanContent"@,
            PlayerProfileLbType::UltimateIronmanContent => "ultimateIronmanContent"@,
            PlayerProfileLbType::HardcoreContent => "hardcoreContent"@,
            PlayerProfileLbType::CraftsmanContent => "craftsmanContent"@,
            PlayerProfileLbType::HuntedContent => "huntedContent"@,
            PlayerProfileLbType::HuicContent => "huicContent"@,
            PlayerProfileLbType::HuichContent => "huichContent"@,
            PlayerProfileLbType::HichContent => "hichContent"@,
            PlayerProfileLbType::HicContent => "hicContent"@,
        }
    }

    fn from_token(s: &str) -> (r: Option<Self>) {
        if same_text(s, "woodcuttingLevel") {
            Some(PlayerProfileLbType::WoodcuttingLevel)
        } else if same_text(s, "miningLevel") {
            Some(PlayerProfileLbType::MiningLevel)
        } else if same_text(s, "fishingLevel") {
            Some(PlayerProfileLbType::FishingLevel)
        } else if same_text(s, "farmingLevel") {
            Some(PlayerProfileLbType::FarmingLevel)
        } else if same_text(s, "alchemismLevel") {
            Some(PlayerProfileLbType::AlchemismLevel)
        } else if same_text(s, "armouringLevel") {
            Some(PlayerProfileLbType::ArmouringLevel)
        } else if same_text(s, "cookingLevel") {
            Some(PlayerProfileLbType::CookingLevel)
        } else if same_text(s, "jewelingLevel") {
            Some(PlayerProfileLbType::JewelingLevel)
        } else if same_text(s, "scribingLevel") {
            Some(PlayerProfileLbType::ScribingLevel)
        } else if same_text(s, "tailoringLevel") {
            Some(PlayerProfileLbType::TailoringLevel)
        } else if same_text(s, "weaponsmithingLevel") {
            Some(PlayerProfileLbType::WeaponsmithingLevel)
        } else if same_text(s, "woodworkingLevel") {
            Some(PlayerProfileLbType::WoodworkingLevel)
        } else if same_text(s, "playerContent") {
            Some(PlayerProfileLbType::PlayerContent)
        } else if same_text(s, "combatSoloLevel") {
            Some(PlayerProfileLbType::CombatSoloLevel)
        } else if same_text(s, "professionsSoloLevel") {
            Some(PlayerProfileLbType::ProfessionsSoloLevel)
        } else if same_text(s, "totalSoloLevel") {
            Some(PlayerProfileLbType::TotalSoloLevel)
        } else if same_text(s, "hardcoreLegacyLevel") {
            Some(PlayerProfileLbType::HardcoreLegacyLevel)
        } else if same_text(s, "ironmanContent") {
            Some(PlayerProfileLbType::IronmanContent)
        } else if same_text(s, "ultimateIronmanContent") {
            Some(PlayerProfileLbType::UltimateIronmanContent)
        } else if same_text(s, "hardcoreContent") {
            Some(PlayerProfileLbType::HardcoreContent)
        } else if same_text(s, "craftsmanContent") {
            Some(PlayerProfileLbType::CraftsmanContent)
        } else if same_text(s, "huntedContent") {
            Some(PlayerProfileLbType::HuntedContent)
        } else if same_text(s, "huicContent") {
            Some(PlayerProfileLbType::HuicContent)
        } else if same_text(s, "huichContent") {
            Some(PlayerProfileLbType::HuichContent)
        } else if same_text(s, "hichContent") {
            Some(PlayerProfileLbType::HichContent)
        } else if same_text(s, "hicContent") {
            Some(PlayerProfileLbType::HicContent)
        } else {
            None
        }
    }

    fn as_token(self) -> (r: &'static str) {
        match self {
            PlayerProfileLbType::WoodcuttingLevel => "woodcuttingLevel",
            PlayerProfileLbType::MiningLevel => "miningLevel",
            PlayerProfileLbType::FishingLevel => "fishingLevel",
            PlayerProfileLbType::FarmingLevel => "farmingLevel",
            PlayerProfileLbType::AlchemismLevel => "alchemismLevel",
            PlayerProfileLbType::ArmouringLevel => "armouringLevel",
            PlayerProfileLbType::CookingLevel => "cookingLevel",
            PlayerProfileLbType::JewelingLevel => "jewelingLevel",
            PlayerProfileLbType::ScribingLevel => "scribingLevel",
            PlayerProfileLbType::TailoringLevel => "tailoringLevel",
            PlayerProfileLbType::WeaponsmithingLevel => "weaponsmithingLevel",
            PlayerProfileLbType::WoodworkingLevel => "woodworkingLevel",
            PlayerProfileLbType::PlayerContent => "playerContent",
            PlayerProfileLbType::CombatSoloLevel => "combatSoloLevel",
            PlayerProfileLbType::ProfessionsSoloLevel => "professionsSoloLevel",
            PlayerProfileLbType::TotalSoloLevel => "totalSoloLevel",
            PlayerProfileLbType::HardcoreLegacyLevel => "hardcoreLegacyLevel",
            PlayerProfileLbType::IronmanContent => "ironmanContent",
            PlayerProfileLbType::UltimateIronmanContent => "ultimateIronmanContent",
            PlayerProfileLbType::HardcoreContent => "hardcoreContent",
            PlayerProfileLbType::CraftsmanContent => "craftsmanContent",
            PlayerProfileLbType::HuntedContent => "huntedContent",
            PlayerProfileLbType::HuicContent => "huicContent",
            PlayerProfileLbType::HuichContent => "huichContent",
            PlayerProfileLbType::HichContent => "hichContent",
            PlayerProfileLbType::HicContent => "hicContent",
        }
    }

    fn same_token(&self, other: &Self) -> (r: bool) {
        *self == *other
    }

    proof fn lemma_token_is_read(self) {
        reveal_strlit("woodcuttingLevel");
        assert("woodcuttingLevel"@.len() == 16 && "woodcuttingLevel"@[2] == 'o' && "woodcuttingLevel"@[4] == 'c');
        reveal_strlit("miningLevel");
        assert("miningLevel"@.len() == 11 && "miningLevel"@[2] == 'n' && "miningLevel"@[4] == 'n');
        reveal_strlit("fishingLevel");
        assert("fishingLevel"@.len() == 12 && "fishingLevel"@[2] == 's' && "fishingLevel"@[4] == 'i');
        reveal_strlit("farmingLevel");
        assert("farmingLevel"@.len() == 12 && "farmingLevel"@[2] == 'r' && "farmingLevel"@[4] == 'i');
        reveal_strlit("alchemismLevel");
        assert("alchemismLevel"@.len() == 14 && "alchemismLevel"@[2] == 'c' && "alchemismLevel"@[4] == 'e');
        reveal_strlit("armouringLevel");
        assert("armouringLevel"@.len() == 14 && "armouringLevel"@[2] == 'm' && "armouringLevel"@[4] == 'u');
        reveal_strlit("cookingLevel");
        assert("cookingLevel"@.len() == 12 && "cookingLevel"@[2] == 'o' && "cookingLevel"@[4] == 'i');
        reveal_strlit("jewelingLevel");
        assert("jewelingLevel"@.len() == 13 && "jewelingLevel"@[2] == 'w' && "jewelingLevel"@[4] == 'l');
        reveal_strlit("scribingLevel");
        assert("scribingLevel"@.len() == 13 && "scribingLevel"@[2] == 'r' && "scribingLevel"@[4] == 'b');
        reveal_strlit("tailoringLevel");
        assert("tailoringLevel"@.len() == 14 && "tailoringLevel"@[2] == 'i' && "tailoringLevel"@[4] == 'o');
        reveal_strlit("weaponsmithingLevel");
        assert("weaponsmithingLevel"@.len() == 19 && "weaponsmithingLevel"@[2] == 'a');
        assert("weaponsmithingLevel"@[4] == 'o');
        reveal_strlit("woodworkingLevel");
        assert("woodworkingLevel"@.len() == 16 && "woodworkingLevel"@[2] == 'o' && "woodworkingLevel"@[4] == 'w');
        reveal_strlit("playerContent");
        assert("playerContent"@.len() == 13 && "playerContent"@[2] == 'a' && "playerContent"@[4] == 'e');
        reveal_strlit("combatSoloLevel");
        assert("combatSoloLevel"@.len() == 15 && "combatSoloLevel"@[2] == 'm' && "combatSoloLevel"@[4] == 'a');
        reveal_strlit("professionsSoloLevel");
        assert("professionsSoloLevel"@.len() == 20 && "professionsSoloLevel"@[2] == 'o');
        assert("professionsSoloLevel"@[4] == 'e');
        reveal_strlit("totalSoloLevel");
        assert("totalSoloLevel"@.len() == 14 && "totalSoloLevel"@[2] == 't' && "totalSoloLevel"@[4] == 'l');
        reveal_strlit("hardcoreLegacyLevel");
        assert("hardcoreLegacyLevel"@.len() == 19 && "hardcoreLegacyLevel"@[2] == 'r');
        assert("hardcoreLegacyLevel"@[4] == 'c');
        reveal_strlit("ironmanContent");
        assert("ironmanContent"@.len() == 14 && "ironmanContent"@[2] == 'o' && "ironmanContent"@[4] == 'm');
        reveal_strlit("ultimateIronmanContent");
        assert("ultimateIronmanContent"@.len() == 22 && "ultimateIronmanContent"@[2] == 't');
        assert("ultimateIronmanContent"@[4] == 'm');
        reveal_strlit("hardcoreContent");
        assert("hardcoreContent"@.len() == 15 && "hardcoreContent"@[2] == 'r' && "hardcoreContent"@[4] == 'c');
        reveal_strlit("craftsmanContent");
        assert("craftsmanContent"@.len() == 16 && "craftsmanContent"@[2] == 'a' && "craftsmanContent"@[4] == 't');
        reveal_strlit("huntedContent");
        assert("huntedContent"@.len() == 13 && "huntedContent"@[2] == 'n' && "huntedContent"@[4] == 'e');
        reveal_strlit("huicContent");
        assert("huicContent"@.len() == 11 && "huicContent"@[2] == 'i' && "huicContent"@[4] == 'C');
        reveal_strlit("huichContent");
        assert("huichContent"@.len() == 12 && "huichContent"@[2] == 'i' && "huichContent"@[4] == 'h');
        reveal_strlit("hichContent");
        assert("hichContent"@.len() == 11 && "hichContent"@[2] == 'c' && "hichContent"@[4] == 'C');
        reveal_strlit("hicContent");
        assert("hicContent"@.len() == 10 && "hicContent"@[2] == 'c' && "hicContent"@[4] == 'o');
    }
}

impl PlayerProfileLbType {
    /// The leaderboard as the API names it.
    pub fn to_string(&self) -> (r: String)
        ensures
            r@ == self.token(),
    {
        String::from_str(self.as_token())
    }
}

/// A leaderboard of players, over all their characters.
#[derive(Clone, Copy, Debug, PartialEq, Eq, Structural)]
pub enum PlayerGlobalLbType {
    ProfessionsGlobalLevel,
    CombatGlobalLevel,
    TotalGlobalLevel,
    GlobalPlayerContent,
    NogCompletion,
    TccCompletion,
    NolCompletion,
    WarsCompletion,
    TnaCompletion,
}

impl Token for PlayerGlobalLbType {
    open spec fn of_token(s: Seq<char>) -> Option<Self> {
        if s == "professionsGlobalLevel"@ {
            Some(PlayerGlobalLbType::ProfessionsGlobalLevel)
        } else if s == "combatGlobalLevel"@ {
            Some(PlayerGlobalLbType::CombatGlobalLevel)
        } else if s == "totalGlobalLevel"@ {
            Some(PlayerGlobalLbType::TotalGlobalLevel)
        } else if s == "globalPlayerContent"@ {
            Some(PlayerGlobalLbType::GlobalPlayerContent)
        } else if s == "nogCompletion"@ {
            Some(PlayerGlobalLbType::NogCompletion)
        } else if s == "tccCompletion"@ {
            Some(PlayerGlobalLbType::TccCompletion)
        } else if s == "nolCompletion"@ {
            Some(PlayerGlobalLbType::NolCompletion)
        } else if s == "warsCompletion"@ {
            Some(PlayerGlobalLbType::WarsCompletion)
        } else if s == "tnaCompletion"@ {
            Some(PlayerGlobalLbType::TnaCompletion)
        } else {
            None
        }
    }

    open spec fn token(self) -> Seq<char> {
        match self {
            PlayerGlobalLbType::ProfessionsGlobalLevel => "professionsGlobalLevel"@,
            PlayerGlobalLbType::CombatGlobalLevel => "combatGlobalLevel"@,
            PlayerGlobalLbType::TotalGlobalLevel => "totalGlobalLevel"@,
            PlayerGlobalLbType::GlobalPlayerContent => "globalPlayerContent"@,
            PlayerGlobalLbType::NogCompletion => "nogCompletion"@,
            PlayerGlobalLbType::TccCompletion => "tccCompletion"@,
            PlayerGlobalLbType::NolCompletion => "nolCompletion"@,
            PlayerGlobalLbType::WarsCompletion => "warsCompletion"@,
            PlayerGlobalLbType::TnaCompletion => "tnaCompletion"@,
        }
    }

    fn from_token(s: &str) -> (r: Option<Self>) {
        if same_text(s, "professionsGlobalLevel") {
            Some(PlayerGlobalLbType::ProfessionsGlobalLevel)
        } else if same_text(s, "combatGlobalLevel") {
            Some(PlayerGlobalLbType::CombatGlobalLevel)
        } else if same_text(s, "totalGlobalLevel") {
            Some(PlayerGlobalLbType::TotalGlobalLevel)
        } else if same_text(s, "globalPlayerContent") {
            Some(PlayerGlobalLbType::GlobalPlayerContent)
        } else if same_text(s, "nogCompletion") {
            Some(PlayerGlobalLbType::NogCompletion)
        } else if same_text(s, "tccCompletion") {
            Some(PlayerGlobalLbType::TccCompletion)
        } else if same_text(s, "nolCompletion") {
            Some(PlayerGlobalLbType::NolCompletion)
        } else if same_text(s, "warsCompletion") {
            Some(PlayerGlobalLbType::WarsCompletion)
        } else if same_text(s, "tnaCompletion") {
            Some(PlayerGlobalLbType::TnaCompletion)
        } else {
            None
        }
    }

    fn as_token(self) -> (r: &'static str) {
        match self {
            PlayerGlobalLbType::ProfessionsGlobalLevel => "professionsGlobalLevel",
            PlayerGlobalLbType::CombatGlobalLevel => "combatGlobalLevel",
            PlayerGlobalLbType::TotalGlobalLevel => "totalGlobalLevel",
            PlayerGlobalLbType::GlobalPlayerContent => "globalPlayerContent",
            PlayerGlobalLbType::NogCompletion => "nogCompletion",
            PlayerGlobalLbType::TccCompletion => "tccCompletion",
            PlayerGlobalLbType::NolCompletion => "nolCompletion",
            PlayerGlobalLbType::WarsCompletion => "warsCompletion",
            PlayerGlobalLbType::TnaCompletion => "tnaCompletion",
        }
    }

    fn same_token(&self, other: &Self) -> (r: bool) {
        *self == *other
    }

    proof fn lemma_token_is_read(self) {
        reveal_strlit("professionsGlobalLevel");
        assert("professionsGlobalLevel"@.len() == 22 && "professionsGlobalLevel"@[2] == 'o');
        reveal_strlit("combatGlobalLevel");
        assert("combatGlobalLevel"@.len() == 17 && "combatGlobalLevel"@[2] == 'm');
        reveal_strlit("totalGlobalLevel");
        assert("totalGlobalLevel"@.len() == 16 && "totalGlobalLevel"@[2] == 't');
        reveal_strlit("globalPlayerContent");
        assert("globalPlayerContent"@.len() == 19 && "globalPlayerContent"@[2] == 'o');
        reveal_strlit("nogCompletion");
        assert("nogCompletion"@.len() == 13 && "nogCompletion"@[2] == 'g');
        reveal_strlit("tccCompletion");
        assert("tccCompletion"@.len() == 13 && "tccCompletion"@[2] == 'c');
        reveal_strlit("nolCompletion");
        assert("nolCompletion"@.len() == 13 && "nolCompletion"@[2] == 'l');
        reveal_strlit("warsCompletion");
        assert("warsCompletion"@.len() == 14 && "warsCompletion"@[2] == 'r');
        reveal_strlit("tnaCompletion");
        assert("tnaCompletion"@.len() == 13 && "tnaCompletion"@[2] == 'a');
    }
}

impl PlayerGlobalLbType {
    /// The leaderboard as the API names it.
    pub fn to_string(&self) -> (r: String)
        ensures
            r@ == self.token(),
    {
        String::from_str(self.as_token())
    }
}

/// A leaderboard of players for one raid.
#[derive(Clone, Copy, Debug, PartialEq, Eq, Structural)]
pub enum RaidPlayerLbType {
    NogSrPlayers,
    NolSrPlayers,
    TccSrPlayers,
    TnaSrPlayers,
}

impl Token for RaidPlayerLbType {
    open spec fn of_token(s: Seq<char>) -> Option<Self> {
        if s == "nogSrPlayers"@ {
            Some(RaidPlayerLbType::NogSrPlayers)
        } else if s == "nolSrPlayers"@ {
            Some(RaidPlayerLbType::NolSrPlayers)
        } else if s == "tccSrPlayers"@ {
            Some(RaidPlayerLbType::TccSrPlayers)
        } else if s == "tnaSrPlayers"@ {
            Some(RaidPlayerLbType::TnaSrPlayers)
        } else {
            None
        }
    }

    open spec fn token(self) -> Seq<char> {
        match self {
            RaidPlayerLbType::NogSrPlayers => "nogSrPlayers"@,
            RaidPlayerLbType::NolSrPlayers => "nolSrPlayers"@,
            RaidPlayerLbType::TccSrPlayers => "tccSrPlayers"@,
            RaidPlayerLbType::TnaSrPlayers => "tnaSrPlayers"@,
        }
    }

    fn from_token(s: &str) -> (r: Option<Self>) {
        if same_text(s, "nogSrPlayers") {
            Some(RaidPlayerLbType::NogSrPlayers)
        } else if same_text(s, "nolSrPlayers") {
            Some(RaidPlayerLbType::NolSrPlayers)
        } else if same_text(s, "tccSrPlayers") {
            Some(RaidPlayerLbType::TccSrPlayers)
        } else if same_text(s, "tnaSrPlayers") {
            Some(RaidPlayerLbType::TnaSrPlayers)
        } else {
            None
        }
    }

    fn as_token(self) -> (r: &'static str) {
        match self {
            RaidPlayerLbType::NogSrPlayers => "nogSrPlayers",
            RaidPlayerLbType::NolSrPlayers => "nolSrPlayers",
            RaidPlayerLbType::TccSrPlayers => "tccSrPlayers",
            RaidPlayerLbType::TnaSrPlayers => "tnaSrPlayers",
        }
    }

    fn same_token(&self, other: &Self) -> (r: bool) {
        *self == *other
    }

    proof fn lemma_token_is_read(self) {
        reveal_strlit("nogSrPlayers");
        assert("nogSrPlayers"@.len() == 12 && "nogSrPlayers"@[2] == 'g');
        reveal_strlit("nolSrPlayers");
        assert("nolSrPlayers"@.len() == 12 && "nolSrPlayers"@[2] == 'l');
        reveal_strlit("tccSrPlayers");
        assert("tccSrPlayers"@.len() == 12 && "tccSrPlayers"@[2] == 'c');
        reveal_strlit("tnaSrPlayers");
        assert("tnaSrPlayers"@.len() == 12 && "tnaSrPlayers"@[2] == 'a');
    }
}

impl RaidPlayerLbType {
    /// The leaderboard as the API names it.
    pub fn to_string(&self) -> (r: String)
        ensures
            r@ == self.token(),
    {
        String::from_str(self.as_token())
    }
}

/// A leaderboard of guilds for one raid.
#[derive(Clone, Copy, Debug, PartialEq, Eq, Structural)]
pub enum RaidGuildLbType {
    NogSrGuilds,
    NolSrGuilds,
    TccSrGuilds,
    TnaSrGuilds,
}

impl Token for RaidGuildLbType {
    open spec fn of_token(s: Seq<char>) -> Option<Self> {
        if s == "nogSrGuilds"@ {
            Some(RaidGuildLbType::NogSrGuilds)
        } else if s == "nolSrGuilds"@ {
            Some(RaidGuildLbType::NolSrGuilds)
        } else if s == "tccSrGuilds"@ {
            Some(RaidGuildLbType::TccSrGuilds)
        } else if s == "tnaSrGuilds"@ {
            Some(RaidGuildLbType::TnaSrGuilds)
        } else {
            None
        }
    }

    open spec fn token(self) -> Seq<char> {
        match self {
            RaidGuildLbType::NogSrGuilds => "nogSrGuilds"@,
            RaidGuildLbType::NolSrGuilds => "nolSrGuilds"@,
            RaidGuildLbType::TccSrGuilds => "tccSrGuilds"@,
            RaidGuildLbType::TnaSrGuilds => "tnaSrGuilds"@,
        }
    }

    fn from_token(s: &str) -> (r: Option<Self>) {
        if same_text(s, "nogSrGuilds") {
            Some(RaidGuildLbType::NogSrGuilds)
        } else if same_text(s, "nolSrGuilds") {
            Some(RaidGuildLbType::NolSrGuilds)
        } else if same_text(s, "tccSrGuilds") {
            Some(RaidGuildLbType::TccSrGuilds)
        } else if same_text(s, "tnaSrGuilds") {
            Some(RaidGuildLbType::TnaSrGuilds)
        } else {
            None
        }
    }

    fn as_token(self) -> (r: &'static str) {
        match self {
            RaidGuildLbType::NogSrGuilds => "nogSrGuilds",
            RaidGuildLbType::NolSrGuilds => "nolSrGuilds",
            RaidGuildLbType::TccSrGuilds => "tccSrGuilds",
            RaidGuildLbType::TnaSrGuilds => "tnaSrGuilds",
        }
    }

    fn same_token(&self, other: &Self) -> (r: bool) {
        *self == *other
    }

    proof fn lemma_token_is_read(self) {
        reveal_strlit("nogSrGuilds");
        assert("nogSrGuilds"@.len() == 11 && "nogSrGuilds"@[2] == 'g');
        reveal_strlit("nolSrGuilds");
        assert("nolSrGuilds"@.len() == 11 && "nolSrGuilds"@[2] == 'l');
        reveal_strlit("tccSrGuilds");
        assert("tccSrGuilds"@.len() == 11 && "tccSrGuilds"@[2] == 'c');
        reveal_strlit("tnaSrGuilds");
        assert("tnaSrGuilds"@.len() == 11 && "tnaSrGuilds"@[2] == 'a');
    }
}

impl RaidGuildLbType {
    /// The leaderboard as the API names it.
    pub fn to_string(&self) -> (r: String)
        ensures
            r@ == self.token(),
    {
        String::from_str(self.as_token())
    }
}

/// A leaderboard: its entries, the first rank first.
///
/// The API sends a leaderboard as an object that names each entry by its
/// rank; it is read with [`deserialize_to_vec`].
#[derive(Clone, Debug, PartialEq)]
pub struct Leaderboard<T> {
    pub leaderboard: Vec<T>,
}

impl<T: Decode> Decode for Leaderboard<T> {
    open spec fn failure(j: JsonValue) -> Option<DecodeFault> {
        sequence_failure::<T>(j)
    }

    open spec fn reads(&self, j: JsonValue) -> bool {
        sequence_reads(self.leaderboard@, j)
    }

    fn decode(j: &Json) -> (r: Result<Self, DecodeError>) {
        let leaderboard = deserialize_to_vec::<T>(j)?;
        Ok(Leaderboard { leaderboard })
    }
}

impl<T: Encode> Encode for Leaderboard<T> {
    open spec fn valid(&self) -> bool {
        valid_items(self.leaderboard@)
    }

    open spec fn encoded(&self) -> JsonValue {
        encoded_sequence(self.leaderboard@)
    }

    fn encode(&self) -> (j: Json) {
        encode_sequence(&self.leaderboard)
    }

    proof fn lemma_read_back(&self) {
        assert(self.leaderboard@.len() == self.leaderboard.len());
        lemma_sequence_read_back(self.leaderboard@);
    }

    proof fn lemma_one_reading(&self, other: &Self, j: JsonValue) {
        lemma_sequence_one_reading(self.leaderboard@, other.leaderboard@, j);
    }

    proof fn lemma_read_is_valid(&self, j: JsonValue) {
        lemma_sequence_is_valid(self.leaderboard@, j);
    }
}

impl<T> Leaderboard<T> {
    /// The entry at the rank `n`, ranks counted from 1.
    pub fn get_ranking(&self, n: usize) -> (r: Option<&T>)
        ensures
            match r {
                Some(entry) => 1 <= n <= self.leaderboard@.len() && *entry == self.leaderboard@[n - 1],
                None => n == 0 || n > self.leaderboard@.len(),
            },
    {
        if n == 0 || n > self.leaderboard.len() {
            None
        } else {
            Some(&self.leaderboard[n - 1])
        }
    }
}

} // verus!
