//! Guilds and the territories they hold.

use crate::World;
use crate::decode::{Decode, DecodeError, DecodeFault, Otherwise, Pair};
use crate::encode::{
    Encode, encode_option, encoded_option, lemma_defaulted_read_back, lemma_filled_is_valid,
    lemma_filled_one_reading, lemma_optional_is_valid, lemma_optional_one_reading, lemma_optional_read_back,
    lemma_required_is_valid, lemma_required_one_reading, lemma_required_read_back, valid_option,
};
use crate::fields::{
    filled, filled_failure, filled_reads, optional, optional_failure, optional_reads, required, required_failure,
    required_reads,
};
use crate::json::{Json, JsonValue, lemma_member_at, ObjectWriter};
use vstd::prelude::*;

verus! {

/// A guild.
#[derive(Clone, Debug, PartialEq)]
pub struct Guild {
    pub uuid: String,
    pub name: String,
    pub prefix: String,
    pub level: u64,
    pub xp_percent: u64,
    pub territories: u64,
    pub wars: u64,
    pub created: String,
    pub members: GuildMembers,
    pub online: u64,
    pub banner: Option<Banner>,
    pub season_ranks: Vec<(String, SeasonRank)>,
}

impl Decode for Guild {
    open spec fn failure(j: JsonValue) -> Option<DecodeFault> {
        required_failure::<String>(j, "uuid"@)
            .otherwise(required_failure::<String>(j, "name"@))
            .otherwise(filled_failure::<String>(j, "prefix"@))
            .otherwise(required_failure::<u64>(j, "level"@))
            .otherwise(required_failure::<u64>(j, "xpPercent"@))
            .otherwise(required_failure::<u64>(j, "territories"@))
            .otherwise(filled_failure::<u64>(j, "wars"@))
            .otherwise(required_failure::<String>(j, "created"@))
            .otherwise(required_failure::<GuildMembers>(j, "members"@))
            .otherwise(required_failure::<u64>(j, "online"@))
            .otherwise(optional_failure::<Banner>(j, "banner"@))
            .otherwise(required_failure::<Vec<(String, SeasonRank)>>(j, "seasonRanks"@))
    }

    open spec fn reads(&self, j: JsonValue) -> bool {
        &&& required_reads(self.uuid, j, "uuid"@)
        &&& required_reads(self.name, j, "name"@)
        &&& filled_reads(self.prefix, j, "prefix"@)
        &&& required_reads(self.level, j, "level"@)
        &&& required_reads(self.xp_percent, j, "xpPercent"@)
        &&& required_reads(self.territories, j, "territories"@)
        &&& filled_reads(self.wars, j, "wars"@)
        &&& required_reads(self.created, j, "created"@)
        &&& required_reads(self.members, j, "members"@)
        &&& required_reads(self.online, j, "online"@)
        &&& optional_reads(self.banner, j, "banner"@)
        &&& required_reads(self.season_ranks, j, "seasonRanks"@)
    }

    fn decode(j: &Json) -> (r: Result<Self, DecodeError>) {
        let uuid = required::<String>(j, "uuid")?;
        let name = required::<String>(j, "name")?;
        let prefix = filled::<String>(j, "prefix")?;
        let level = required::<u64>(j, "level")?;
        let xp_percent = required::<u64>(j, "xpPercent")?;
        let territories = required::<u64>(j, "territories")?;
        let wars = filled::<u64>(j, "wars")?;
        let created = required::<String>(j, "created")?;
        let members = required::<GuildMembers>(j, "members")?;
        let online = required::<u64>(j, "online")?;
        let banner = optional::<Banner>(j, "banner")?;
        let season_ranks = required::<Vec<(String, SeasonRank)>>(j, "seasonRanks")?;
        Ok(
            Guild {
                uuid,
                name,
                prefix,
                level,
                xp_percent,
                territories,
                wars,
                created,
                members,
                online,
                banner,
                season_ranks,
            }
        )
    }
}

impl Encode for Guild {
    open spec fn valid(&self) -> bool {
        &&& self.uuid.valid()
        &&& self.name.valid()
        &&& self.prefix.valid()
        &&& self.level.valid()
        &&& self.xp_percent.valid()
        &&& self.territories.valid()
        &&& self.wars.valid()
        &&& self.created.valid()
        &&& self.members.valid()
        &&& self.online.valid()
        &&& valid_option(self.banner)
        &&& self.season_ranks.valid()
    }

    open spec fn encoded(&self) -> JsonValue {
        JsonValue::Object(
            seq![
                ("uuid"@, self.uuid.encoded()),
                ("name"@, self.name.encoded()),
                ("prefix"@, self.prefix.encoded()),
                ("level"@, self.level.encoded()),
                ("xpPercent"@, self.xp_percent.encoded()),
                ("territories"@, self.territories.encoded()),
                ("wars"@, self.wars.encoded()),
                ("created"@, self.created.encoded()),
                ("members"@, self.members.encoded()),
                ("online"@, self.online.encoded()),
                ("banner"@, encoded_option(self.banner)),
                ("seasonRanks"@, self.season_ranks.encoded()),
            ],
        )
    }

    fn encode(&self) -> (j: Json) {
        let j = ObjectWriter::new()
            .with("uuid", self.uuid.encode())
            .with("name", self.name.encode())
            .with("prefix", self.prefix.encode())
            .with("level", self.level.encode())
            .with("xpPercent", self.xp_percent.encode())
            .with("territories", self.territories.encode())
            .with("wars", self.wars.encode())
            .with("created", self.created.encode())
            .with("members", self.members.encode())
            .with("online", self.online.encode())
            .with("banner", encode_option(&self.banner))
            .with("seasonRanks", self.season_ranks.encode())
            .done();
        assert(j@->Object_0 =~= self.encoded()->Object_0);
        j
    }

    proof fn lemma_read_back(&self) {
        let j = self.encoded();
        let members = j->Object_0;
        reveal_strlit("uuid");
        assert("uuid"@.len() == 4 && "uuid"@[0] == 'u');
        reveal_strlit("name");
        assert("name"@.len() == 4 && "name"@[0] == 'n');
        reveal_strlit("prefix");
        assert("prefix"@.len() == 6 && "prefix"@[0] == 'p');
        reveal_strlit("level");
        assert("level"@.len() == 5 && "level"@[0] == 'l');
        reveal_strlit("xpPercent");
        assert("xpPercent"@.len() == 9 && "xpPercent"@[0] == 'x');
        reveal_strlit("territories");
        assert("territories"@.len() == 11 && "territories"@[0] == 't');
        reveal_strlit("wars");
        assert("wars"@.len() == 4 && "wars"@[0] == 'w');
        reveal_strlit("created");
        assert("created"@.len() == 7 && "created"@[0] == 'c');
        reveal_strlit("members");
        assert("members"@.len() == 7 && "members"@[0] == 'm');
        reveal_strlit("online");
        assert("online"@.len() == 6 && "online"@[0] == 'o');
        reveal_strlit("banner");
        assert("banner"@.len() == 6 && "banner"@[0] == 'b');
        reveal_strlit("seasonRanks");
        assert("seasonRanks"@.len() == 11 && "seasonRanks"@[0] == 's');
        lemma_member_at(members, "uuid"@, 0);
        lemma_required_read_back(&self.uuid, j, "uuid"@);
        lemma_member_at(members, "name"@, 1);
        lemma_required_read_back(&self.name, j, "name"@);
        lemma_member_at(members, "prefix"@, 2);
        lemma_defaulted_read_back(&self.prefix, j, "prefix"@);
        lemma_member_at(members, "level"@, 3);
        lemma_required_read_back(&self.level, j, "level"@);
        lemma_member_at(members, "xpPercent"@, 4);
        lemma_required_read_back(&self.xp_percent, j, "xpPercent"@);
        lemma_member_at(members, "territories"@, 5);
        lemma_required_read_back(&self.territories, j, "territories"@);
        lemma_member_at(members, "wars"@, 6);
        lemma_defaulted_read_back(&self.wars, j, "wars"@);
        lemma_member_at(members, "created"@, 7);
        lemma_required_read_back(&self.created, j, "created"@);
        lemma_member_at(members, "members"@, 8);
        lemma_required_read_back(&self.members, j, "members"@);
        lemma_member_at(members, "online"@, 9);
        lemma_required_read_back(&self.online, j, "online"@);
        lemma_member_at(members, "banner"@, 10);
        lemma_optional_read_back(self.banner, j, "banner"@);
        lemma_member_at(members, "seasonRanks"@, 11);
        lemma_required_read_back(&self.season_ranks, j, "seasonRanks"@);
    }

    proof fn lemma_one_reading(&self, other: &Self, j: JsonValue) {
        lemma_required_one_reading(&self.uuid, &other.uuid, j, "uuid"@);
        lemma_required_one_reading(&self.name, &other.name, j, "name"@);
        lemma_filled_one_reading(&self.prefix, &other.prefix, j, "prefix"@);
        lemma_required_one_reading(&self.level, &other.level, j, "level"@);
        lemma_required_one_reading(&self.xp_percent, &other.xp_percent, j, "xpPercent"@);
        lemma_required_one_reading(&self.territories, &other.territories, j, "territories"@);
        lemma_filled_one_reading(&self.wars, &other.wars, j, "wars"@);
        lemma_required_one_reading(&self.created, &other.created, j, "created"@);
        lemma_required_one_reading(&self.members, &other.members, j, "members"@);
        lemma_required_one_reading(&self.online, &other.online, j, "online"@);
        lemma_optional_one_reading(self.banner, other.banner, j, "banner"@);
        lemma_required_one_reading(&self.season_ranks, &other.season_ranks, j, "seasonRanks"@);
    }

    proof fn lemma_read_is_valid(&self, j: JsonValue) {
        lemma_required_is_valid(&self.uuid, j, "uuid"@);
        lemma_required_is_valid(&self.name, j, "name"@);
        lemma_filled_is_valid(&self.prefix, j, "prefix"@);
        lemma_required_is_valid(&self.level, j, "level"@);
        lemma_required_is_valid(&self.xp_percent, j, "xpPercent"@);
        lemma_required_is_valid(&self.territories, j, "territories"@);
        lemma_filled_is_valid(&self.wars, j, "wars"@);
        lemma_required_is_valid(&self.created, j, "created"@);
        lemma_required_is_valid(&self.members, j, "members"@);
        lemma_required_is_valid(&self.online, j, "online"@);
        lemma_optional_is_valid(self.banner, j, "banner"@);
        lemma_required_is_valid(&self.season_ranks, j, "seasonRanks"@);
    }
}

/// The members of a guild, by rank.
#[derive(Clone, Debug, PartialEq)]
pub struct GuildMembers {
    pub total: u64,
    pub owner: Vec<(String, GuildPlayerInfo)>,
    pub chief: Vec<(String, GuildPlayerInfo)>,
    pub strategist: Vec<(String, GuildPlayerInfo)>,
    pub captain: Vec<(String, GuildPlayerInfo)>,
    pub recruiter: Vec<(String, GuildPlayerInfo)>,
    pub recruit: Vec<(String, GuildPlayerInfo)>,
}

impl Decode for GuildMembers {
    open spec fn failure(j: JsonValue) -> Option<DecodeFault> {
        required_failure::<u64>(j, "total"@)
            .otherwise(required_failure::<Vec<(String, GuildPlayerInfo)>>(j, "owner"@))
            .otherwise(required_failure::<Vec<(String, GuildPlayerInfo)>>(j, "chief"@))
            .otherwise(required_failure::<Vec<(String, GuildPlayerInfo)>>(j, "strategist"@))
            .otherwise(required_failure::<Vec<(String, GuildPlayerInfo)>>(j, "captain"@))
            .otherwise(required_failure::<Vec<(String, GuildPlayerInfo)>>(j, "recruiter"@))
            .otherwise(required_failure::<Vec<(String, GuildPlayerInfo)>>(j, "recruit"@))
    }

    open spec fn reads(&self, j: JsonValue) -> bool {
        &&& required_reads(self.total, j, "total"@)
        &&& required_reads(self.owner, j, "owner"@)
        &&& required_reads(self.chief, j, "chief"@)
        &&& required_reads(self.strategist, j, "strategist"@)
        &&& required_reads(self.captain, j, "captain"@)
        &&& required_reads(self.recruiter, j, "recruiter"@)
        &&& required_reads(self.recruit, j, "recruit"@)
    }

    fn decode(j: &Json) -> (r: Result<Self, DecodeError>) {
        let total = required::<u64>(j, "total")?;
        let owner = required::<Vec<(String, GuildPlayerInfo)>>(j, "owner")?;
        let chief = required::<Vec<(String, GuildPlayerInfo)>>(j, "chief")?;
        let strategist = required::<Vec<(String, GuildPlayerInfo)>>(j, "strategist")?;
        let captain = required::<Vec<(String, GuildPlayerInfo)>>(j, "captain")?;
        let recruiter = required::<Vec<(String, GuildPlayerInfo)>>(j, "recruiter")?;
        let recruit = required::<Vec<(String, GuildPlayerInfo)>>(j, "recruit")?;
        Ok(GuildMembers { total, owner, chief, strategist, captain, recruiter, recruit })
    }
}

impl Encode for GuildMembers {
    open spec fn valid(&self) -> bool {
        &&& self.total.valid()
        &&& self.owner.valid()
        &&& self.chief.valid()
        &&& self.strategist.valid()
        &&& self.captain.valid()
        &&& self.recruiter.valid()
        &&& self.recruit.valid()
    }

    open spec fn encoded(&self) -> JsonValue {
        JsonValue::Object(
            seq![
                ("total"@, self.total.encoded()),
                ("owner"@, self.owner.encoded()),
                ("chief"@, self.chief.encoded()),
                ("strategist"@, self.strategist.encoded()),
                ("captain"@, self.captain.encoded()),
                ("recruiter"@, self.recruiter.encoded()),
                ("recruit"@, self.recruit.encoded()),
            ],
        )
    }

    fn encode(&self) -> (j: Json) {
        let j = ObjectWriter::new()
            .with("total", self.total.encode())
            .with("owner", self.owner.encode())
            .with("chief", self.chief.encode())
            .with("strategist", self.strategist.encode())
            .with("captain", self.captain.encode())
            .with("recruiter", self.recruiter.encode())
            .with("recruit", self.recruit.encode())
            .done();
        assert(j@->Object_0 =~= self.encoded()->Object_0);
        j
    }

    proof fn lemma_read_back(&self) {
        let j = self.encoded();
        let members = j->Object_0;
        reveal_strlit("total");
        assert("total"@.len() == 5 && "total"@[0] == 't');
        reveal_strlit("owner");
        assert("owner"@.len() == 5 && "owner"@[0] == 'o');
        reveal_strlit("chief");
        assert("chief"@.len() == 5 && "chief"@[0] == 'c');
        reveal_strlit("strategist");
        assert("strategist"@.len() == 10 && "strategist"@[0] == 's');
        reveal_strlit("captain");
        assert("captain"@.len() == 7 && "captain"@[0] == 'c');
        reveal_strlit("recruiter");
        assert("recruiter"@.len() == 9 && "recruiter"@[0] == 'r');
        reveal_strlit("recruit");
        assert("recruit"@.len() == 7 && "recruit"@[0] == 'r');
        lemma_member_at(members, "total"@, 0);
        lemma_required_read_back(&self.total, j, "total"@);
        lemma_member_at(members, "owner"@, 1);
        lemma_required_read_back(&self.owner, j, "owner"@);
        lemma_member_at(members, "chief"@, 2);
        lemma_required_read_back(&self.chief, j, "chief"@);
        lemma_member_at(members, "strategist"@, 3);
        lemma_required_read_back(&self.strategist, j, "strategist"@);
        lemma_member_at(members, "captain"@, 4);
        lemma_required_read_back(&self.captain, j, "captain"@);
        lemma_member_at(members, "recruiter"@, 5);
        lemma_required_read_back(&self.recruiter, j, "recruiter"@);
        lemma_member_at(members, "recruit"@, 6);
        lemma_required_read_back(&self.recruit, j, "recruit"@);
    }

    proof fn lemma_one_reading(&self, other: &Self, j: JsonValue) {
        lemma_required_one_reading(&self.total, &other.total, j, "total"@);
        lemma_required_one_reading(&self.owner, &other.owner, j, "owner"@);
        lemma_required_one_reading(&self.chief, &other.chief, j, "chief"@);
        lemma_required_one_reading(&self.strategist, &other.strategist, j, "strategist"@);
        lemma_required_one_reading(&self.captain, &other.captain, j, "captain"@);
        lemma_required_one_reading(&self.recruiter, &other.recruiter, j, "recruiter"@);
        lemma_required_one_reading(&self.recruit, &other.recruit, j, "recruit"@);
    }

    proof fn lemma_read_is_valid(&self, j: JsonValue) {
        lemma_required_is_valid(&self.total, j, "total"@);
        lemma_required_is_valid(&self.owner, j, "owner"@);
        lemma_required_is_valid(&self.chief, j, "chief"@);
        lemma_required_is_valid(&self.strategist, j, "strategist"@);
        lemma_required_is_valid(&self.captain, j, "captain"@);
        lemma_required_is_valid(&self.recruiter, j, "recruiter"@);
        lemma_required_is_valid(&self.recruit, j, "recruit"@);
    }
}

/// A member of a guild.
#[derive(Clone, Debug, PartialEq)]
pub struct GuildPlayerInfo {
    pub username: Option<String>,
    pub uuid: Option<String>,
    pub online: bool,
    pub server: Option<World>,
    pub contributed: u64,
    pub contribution_rank: u64,
    pub joined: String,
}

impl Decode for GuildPlayerInfo {
    open spec fn failure(j: JsonValue) -> Option<DecodeFault> {
        optional_failure::<String>(j, "username"@)
            .otherwise(optional_failure::<String>(j, "uuid"@))
            .otherwise(required_failure::<bool>(j, "online"@))
            .otherwise(optional_failure::<World>(j, "server"@))
            .otherwise(required_failure::<u64>(j, "contributed"@))
            .otherwise(required_failure::<u64>(j, "contributionRank"@))
            .otherwise(required_failure::<String>(j, "joined"@))
    }

    open spec fn reads(&self, j: JsonValue) -> bool {
        &&& optional_reads(self.username, j, "username"@)
        &&& optional_reads(self.uuid, j, "uuid"@)
        &&& required_reads(self.online, j, "online"@)
        &&& optional_reads(self.server, j, "server"@)
        &&& required_reads(self.contributed, j, "contributed"@)
        &&& required_reads(self.contribution_rank, j, "contributionRank"@)
        &&& required_reads(self.joined, j, "joined"@)
    }

    fn decode(j: &Json) -> (r: Result<Self, DecodeError>) {
        let username = optional::<String>(j, "username")?;
        let uuid = optional::<String>(j, "uuid")?;
        let online = required::<bool>(j, "online")?;
        let server = optional::<World>(j, "server")?;
        let contributed = required::<u64>(j, "contributed")?;
        let contribution_rank = required::<u64>(j, "contributionRank")?;
        let joined = required::<String>(j, "joined")?;
        Ok(GuildPlayerInfo { username, uuid, online, server, contributed, contribution_rank, joined })
    }
}

impl Encode for GuildPlayerInfo {
    open spec fn valid(&self) -> bool {
        &&& valid_option(self.username)
        &&& valid_option(self.uuid)
        &&& self.online.valid()
        &&& valid_option(self.server)
        &&& self.contributed.valid()
        &&& self.contribution_rank.valid()
        &&& self.joined.valid()
    }

    open spec fn encoded(&self) -> JsonValue {
        JsonValue::Object(
            seq![
                ("username"@, encoded_option(self.username)),
                ("uuid"@, encoded_option(self.uuid)),
                ("online"@, self.online.encoded()),
                ("server"@, encoded_option(self.server)),
                ("contributed"@, self.contributed.encoded()),
                ("contributionRank"@, self.contribution_rank.encoded()),
                ("joined"@, self.joined.encoded()),
            ],
        )
    }

    fn encode(&self) -> (j: Json) {
        let j = ObjectWriter::new()
            .with("username", encode_option(&self.username))
            .with("uuid", encode_option(&self.uuid))
            .with("online", self.online.encode())
            .with("server", encode_option(&self.server))
            .with("contributed", self.contributed.encode())
            .with("contributionRank", self.contribution_rank.encode())
            .with("joined", self.joined.encode())
            .done();
        assert(j@->Object_0 =~= self.encoded()->Object_0);
        j
    }

    proof fn lemma_read_back(&self) {
        let j = self.encoded();
        let members = j->Object_0;
        reveal_strlit("username");
        assert("username"@.len() == 8 && "username"@[0] == 'u');
        reveal_strlit("uuid");
        assert("uuid"@.len() == 4 && "uuid"@[0] == 'u');
        reveal_strlit("online");
        assert("online"@.len() == 6 && "online"@[0] == 'o');
        reveal_strlit("server");
        assert("server"@.len() == 6 && "server"@[0] == 's');
        reveal_strlit("contributed");
        assert("contributed"@.len() == 11 && "contributed"@[0] == 'c');
        reveal_strlit("contributionRank");
        assert("contributionRank"@.len() == 16 && "contributionRank"@[0] == 'c');
        reveal_strlit("joined");
        assert("joined"@.len() == 6 && "joined"@[0] == 'j');
        lemma_member_at(members, "username"@, 0);
        lemma_optional_read_back(self.username, j, "username"@);
        lemma_member_at(members, "uuid"@, 1);
        lemma_optional_read_back(self.uuid, j, "uuid"@);
        lemma_member_at(members, "online"@, 2);
        lemma_required_read_back(&self.online, j, "online"@);
        lemma_member_at(members, "server"@, 3);
        lemma_optional_read_back(self.server, j, "server"@);
        lemma_member_at(members, "contributed"@, 4);
        lemma_required_read_back(&self.contributed, j, "contributed"@);
        lemma_member_at(members, "contributionRank"@, 5);
        lemma_required_read_back(&self.contribution_rank, j, "contributionRank"@);
        lemma_member_at(members, "joined"@, 6);
        lemma_required_read_back(&self.joined, j, "joined"@);
    }

    proof fn lemma_one_reading(&self, other: &Self, j: JsonValue) {
        lemma_optional_one_reading(self.username, other.username, j, "username"@);
        lemma_optional_one_reading(self.uuid, other.uuid, j, "uuid"@);
        lemma_required_one_reading(&self.online, &other.online, j, "online"@);
        lemma_optional_one_reading(self.server, other.server, j, "server"@);
        lemma_required_one_reading(&self.contributed, &other.contributed, j, "contributed"@);
        lemma_required_one_reading(&self.contribution_rank, &other.contribution_rank, j, "contributionRank"@);
        lemma_required_one_reading(&self.joined, &other.joined, j, "joined"@);
    }

    proof fn lemma_read_is_valid(&self, j: JsonValue) {
        lemma_optional_is_valid(self.username, j, "username"@);
        lemma_optional_is_valid(self.uuid, j, "uuid"@);
        lemma_required_is_valid(&self.online, j, "online"@);
        lemma_optional_is_valid(self.server, j, "server"@);
        lemma_required_is_valid(&self.contributed, j, "contributed"@);
        lemma_required_is_valid(&self.contribution_rank, j, "contributionRank"@);
        lemma_required_is_valid(&self.joined, j, "joined"@);
    }
}

/// The banner of a guild.
#[derive(Clone, Debug, PartialEq)]
pub struct Banner {
    pub base: String,
    pub tier: u64,
    pub structure: String,
    pub layers: Vec<BannerLayer>,
}

impl Decode for Banner {
    open spec fn failure(j: JsonValue) -> Option<DecodeFault> {
        required_failure::<String>(j, "base"@)
            .otherwise(required_failure::<u64>(j, "tier"@))
            .otherwise(required_failure::<String>(j, "structure"@))
            .otherwise(required_failure::<Vec<BannerLayer>>(j, "layers"@))
    }

    open spec fn reads(&self, j: JsonValue) -> bool {
        &&& required_reads(self.base, j, "base"@)
        &&& required_reads(self.tier, j, "tier"@)
        &&& required_reads(self.structure, j, "structure"@)
        &&& required_reads(self.layers, j, "layers"@)
    }

    fn decode(j: &Json) -> (r: Result<Self, DecodeError>) {
        let base = required::<String>(j, "base")?;
        let tier = required::<u64>(j, "tier")?;
        let structure = required::<String>(j, "structure")?;
        let layers = required::<Vec<BannerLayer>>(j, "layers")?;
        Ok(Banner { base, tier, structure, layers })
    }
}

impl Encode for Banner {
    open spec fn valid(&self) -> bool {
        &&& self.base.valid()
        &&& self.tier.valid()
        &&& self.structure.valid()
        &&& self.layers.valid()
    }

    open spec fn encoded(&self) -> JsonValue {
        JsonValue::Object(
            seq![
                ("base"@, self.base.encoded()),
                ("tier"@, self.tier.encoded()),
                ("structure"@, self.structure.encoded()),
                ("layers"@, self.layers.encoded()),
            ],
        )
    }

    fn encode(&self) -> (j: Json) {
        let j = ObjectWriter::new()
            .with("base", self.base.encode())
            .with("tier", self.tier.encode())
            .with("structure", self.structure.encode())
            .with("layers", self.layers.encode())
            .done();
        assert(j@->Object_0 =~= self.encoded()->Object_0);
        j
    }

    proof fn lemma_read_back(&self) {
        let j = self.encoded();
        let members = j->Object_0;
        reveal_strlit("base");
        assert("base"@.len() == 4 && "base"@[0] == 'b');
        reveal_strlit("tier");
        assert("tier"@.len() == 4 && "tier"@[0] == 't');
        reveal_strlit("structure");
        assert("structure"@.len() == 9 && "structure"@[0] == 's');
        reveal_strlit("layers");
        assert("layers"@.len() == 6 && "layers"@[0] == 'l');
        lemma_member_at(members, "base"@, 0);
        lemma_required_read_back(&self.base, j, "base"@);
        lemma_member_at(members, "tier"@, 1);
        lemma_required_read_back(&self.tier, j, "tier"@);
        lemma_member_at(members, "structure"@, 2);
        lemma_required_read_back(&self.structure, j, "structure"@);
        lemma_member_at(members, "layers"@, 3);
        lemma_required_read_back(&self.layers, j, "layers"@);
    }

    proof fn lemma_one_reading(&self, other: &Self, j: JsonValue) {
        lemma_required_one_reading(&self.base, &other.base, j, "base"@);
        lemma_required_one_reading(&self.tier, &other.tier, j, "tier"@);
        lemma_required_one_reading(&self.structure, &other.structure, j, "structure"@);
        lemma_required_one_reading(&self.layers, &other.layers, j, "layers"@);
    }

    proof fn lemma_read_is_valid(&self, j: JsonValue) {
        lemma_required_is_valid(&self.base, j, "base"@);
        lemma_required_is_valid(&self.tier, j, "tier"@);
        lemma_required_is_valid(&self.structure, j, "structure"@);
        lemma_required_is_valid(&self.layers, j, "layers"@);
    }
}

/// One layer of a banner.
#[derive(Clone, Debug, PartialEq)]
pub struct BannerLayer {
    pub colour: String,
    pub pattern: String,
}

impl Decode for BannerLayer {
    open spec fn failure(j: JsonValue) -> Option<DecodeFault> {
        required_failure::<String>(j, "colour"@)
            .otherwise(required_failure::<String>(j, "pattern"@))
    }

    open spec fn reads(&self, j: JsonValue) -> bool {
        &&& required_reads(self.colour, j, "colour"@)
        &&& required_reads(self.pattern, j, "pattern"@)
    }

    fn decode(j: &Json) -> (r: Result<Self, DecodeError>) {
        let colour = required::<String>(j, "colour")?;
        let pattern = required::<String>(j, "pattern")?;
        Ok(BannerLayer { colour, pattern })
    }
}

impl Encode for BannerLayer {
    open spec fn valid(&self) -> bool {
        &&& self.colour.valid()
        &&& self.pattern.valid()
    }

    open spec fn encoded(&self) -> JsonValue {
        JsonValue::Object(
            seq![
                ("colour"@, self.colour.encoded()),
                ("pattern"@, self.pattern.encoded()),
            ],
        )
    }

    fn encode(&self) -> (j: Json) {
        let j = ObjectWriter::new()
            .with("colour", self.colour.encode())
            .with("pattern", self.pattern.encode())
            .done();
        assert(j@->Object_0 =~= self.encoded()->Object_0);
        j
    }

    proof fn lemma_read_back(&self) {
        let j = self.encoded();
        let members = j->Object_0;
        reveal_strlit("colour");
        assert("colour"@.len() == 6);
        reveal_strlit("pattern");
        assert("pattern"@.len() == 7);
        lemma_member_at(members, "colour"@, 0);
        lemma_required_read_back(&self.colour, j, "colour"@);
        lemma_member_at(members, "pattern"@, 1);
        lemma_required_read_back(&self.pattern, j, "pattern"@);
    }

    proof fn lemma_one_reading(&self, other: &Self, j: JsonValue) {
        lemma_required_one_reading(&self.colour, &other.colour, j, "colour"@);
        lemma_required_one_reading(&self.pattern, &other.pattern, j, "pattern"@);
    }

    proof fn lemma_read_is_valid(&self, j: JsonValue) {
        lemma_required_is_valid(&self.colour, j, "colour"@);
        lemma_required_is_valid(&self.pattern, j, "pattern"@);
    }
}

/// How a guild did in one season.
#[derive(Clone, Debug, PartialEq)]
pub struct SeasonRank {
    pub rating: u64,
    pub final_terretories: u64,
}

impl Decode for SeasonRank {
    open spec fn failure(j: JsonValue) -> Option<DecodeFault> {
        required_failure::<u64>(j, "rating"@)
            .otherwise(required_failure::<u64>(j, "finalTerretories"@))
    }

    open spec fn reads(&self, j: JsonValue) -> bool {
        &&& required_reads(self.rating, j, "rating"@)
        &&& required_reads(self.final_terretories, j, "finalTerretories"@)
    }

    fn decode(j: &Json) -> (r: Result<Self, DecodeError>) {
        let rating = required::<u64>(j, "rating")?;
        let final_terretories = required::<u64>(j, "finalTerretories")?;
        Ok(SeasonRank { rating, final_terretories })
    }
}

impl Encode for SeasonRank {
    open spec fn valid(&self) -> bool {
        &&& self.rating.valid()
        &&& self.final_terretories.valid()
    }

    open spec fn encoded(&self) -> JsonValue {
        JsonValue::Object(
            seq![
                ("rating"@, self.rating.encoded()),
                ("finalTerretories"@, self.final_terretories.encoded()),
            ],
        )
    }

    fn encode(&self) -> (j: Json) {
        let j = ObjectWriter::new()
            .with("rating", self.rating.encode())
            .with("finalTerretories", self.final_terretories.encode())
            .done();
        assert(j@->Object_0 =~= self.encoded()->Object_0);
        j
    }

    proof fn lemma_read_back(&self) {
        let j = self.encoded();
        let members = j->Object_0;
        reveal_strlit("rating");
        assert("rating"@.len() == 6);
        reveal_strlit("finalTerretories");
        assert("finalTerretories"@.len() == 16);
        lemma_member_at(members, "rating"@, 0);
        lemma_required_read_back(&self.rating, j, "rating"@);
        lemma_member_at(members, "finalTerretories"@, 1);
        lemma_required_read_back(&self.final_terretories, j, "finalTerretories"@);
    }

    proof fn lemma_one_reading(&self, other: &Self, j: JsonValue) {
        lemma_required_one_reading(&self.rating, &other.rating, j, "rating"@);
        lemma_required_one_reading(&self.final_terretories, &other.final_terretories, j, "finalTerretories"@);
    }

    proof fn lemma_read_is_valid(&self, j: JsonValue) {
        lemma_required_is_valid(&self.rating, j, "rating"@);
        lemma_required_is_valid(&self.final_terretories, j, "finalTerretories"@);
    }
}

/// A guild as the list of all guilds gives it.
#[derive(Clone, Debug, PartialEq)]
pub struct ShortGuildDescription {
    pub uuid: String,
    pub prefix: String,
}

impl Decode for ShortGuildDescription {
    open spec fn failure(j: JsonValue) -> Option<DecodeFault> {
        required_failure::<String>(j, "uuid"@)
            .otherwise(filled_failure::<String>(j, "prefix"@))
    }

    open spec fn reads(&self, j: JsonValue) -> bool {
        &&& required_reads(self.uuid, j, "uuid"@)
        &&& filled_reads(self.prefix, j, "prefix"@)
    }

    fn decode(j: &Json) -> (r: Result<Self, DecodeError>) {
        let uuid = required::<String>(j, "uuid")?;
        let prefix = filled::<String>(j, "prefix")?;
        Ok(ShortGuildDescription { uuid, prefix })
    }
}

impl Encode for ShortGuildDescription {
    open spec fn valid(&self) -> bool {
        &&& self.uuid.valid()
        &&& self.prefix.valid()
    }

    open spec fn encoded(&self) -> JsonValue {
        JsonValue::Object(
            seq![
                ("uuid"@, self.uuid.encoded()),
                ("prefix"@, self.prefix.encoded()),
            ],
        )
    }

    fn encode(&self) -> (j: Json) {
        let j = ObjectWriter::new()
            .with("uuid", self.uuid.encode())
            .with("prefix", self.prefix.encode())
            .done();
        assert(j@->Object_0 =~= self.encoded()->Object_0);
        j
    }

    proof fn lemma_read_back(&self) {
        let j = self.encoded();
        let members = j->Object_0;
        reveal_strlit("uuid");
        assert("uuid"@.len() == 4);
        reveal_strlit("prefix");
        assert("prefix"@.len() == 6);
        lemma_member_at(members, "uuid"@, 0);
        lemma_required_read_back(&self.uuid, j, "uuid"@);
        lemma_member_at(members, "prefix"@, 1);
        lemma_defaulted_read_back(&self.prefix, j, "prefix"@);
    }

    proof fn lemma_one_reading(&self, other: &Self, j: JsonValue) {
        lemma_required_one_reading(&self.uuid, &other.uuid, j, "uuid"@);
        lemma_filled_one_reading(&self.prefix, &other.prefix, j, "prefix"@);
    }

    proof fn lemma_read_is_valid(&self, j: JsonValue) {
        lemma_required_is_valid(&self.uuid, j, "uuid"@);
        lemma_filled_is_valid(&self.prefix, j, "prefix"@);
    }
}

/// The guild that holds a territory.
#[derive(Clone, Debug, PartialEq)]
pub struct GuildDescription {
    pub uuid: String,
    pub name: String,
    pub prefix: String,
}

impl Decode for GuildDescription {
    open spec fn failure(j: JsonValue) -> Option<DecodeFault> {
        required_failure::<String>(j, "uuid"@)
            .otherwise(required_failure::<String>(j, "name"@))
            .otherwise(filled_failure::<String>(j, "prefix"@))
    }

    open spec fn reads(&self, j: JsonValue) -> bool {
        &&& required_reads(self.uuid, j, "uuid"@)
        &&& required_reads(self.name, j, "name"@)
        &&& filled_reads(self.prefix, j, "prefix"@)
    }

    fn decode(j: &Json) -> (r: Result<Self, DecodeError>) {
        let uuid = required::<String>(j, "uuid")?;
        let name = required::<String>(j, "name")?;
        let prefix = filled::<String>(j, "prefix")?;
        Ok(GuildDescription { uuid, name, prefix })
    }
}

impl Encode for GuildDescription {
    open spec fn valid(&self) -> bool {
        &&& self.uuid.valid()
        &&& self.name.valid()
        &&& self.prefix.valid()
    }

    open spec fn encoded(&self) -> JsonValue {
        JsonValue::Object(
            seq![
                ("uuid"@, self.uuid.encoded()),
                ("name"@, self.name.encoded()),
                ("prefix"@, self.prefix.encoded()),
            ],
        )
    }

    fn encode(&self) -> (j: Json) {
        let j = ObjectWriter::new()
            .with("uuid", self.uuid.encode())
            .with("name", self.name.encode())
            .with("prefix", self.prefix.encode())
            .done();
        assert(j@->Object_0 =~= self.encoded()->Object_0);
        j
    }

    proof fn lemma_read_back(&self) {
        let j = self.encoded();
        let members = j->Object_0;
        reveal_strlit("uuid");
        assert("uuid"@.len() == 4 && "uuid"@[0] == 'u');
        reveal_strlit("name");
        assert("name"@.len() == 4 && "name"@[0] == 'n');
        reveal_strlit("prefix");
        assert("prefix"@.len() == 6 && "prefix"@[0] == 'p');
        lemma_member_at(members, "uuid"@, 0);
        lemma_required_read_back(&self.uuid, j, "uuid"@);
        lemma_member_at(members, "name"@, 1);
        lemma_required_read_back(&self.name, j, "name"@);
        lemma_member_at(members, "prefix"@, 2);
        lemma_defaulted_read_back(&self.prefix, j, "prefix"@);
    }

    proof fn lemma_one_reading(&self, other: &Self, j: JsonValue) {
        lemma_required_one_reading(&self.uuid, &other.uuid, j, "uuid"@);
        lemma_required_one_reading(&self.name, &other.name, j, "name"@);
        lemma_filled_one_reading(&self.prefix, &other.prefix, j, "prefix"@);
    }

    proof fn lemma_read_is_valid(&self, j: JsonValue) {
        lemma_required_is_valid(&self.uuid, j, "uuid"@);
        lemma_required_is_valid(&self.name, j, "name"@);
        lemma_filled_is_valid(&self.prefix, j, "prefix"@);
    }
}

/// A territory and the guild that holds it.
#[derive(Clone, Debug, PartialEq)]
pub struct Territory {
    pub guild: GuildDescription,
    pub acquired: String,
    pub location: TerritoryLocation,
}

impl Decode for Territory {
    open spec fn failure(j: JsonValue) -> Option<DecodeFault> {
        required_failure::<GuildDescription>(j, "guild"@)
            .otherwise(required_failure::<String>(j, "acquired"@))
            .otherwise(required_failure::<TerritoryLocation>(j, "location"@))
    }

    open spec fn reads(&self, j: JsonValue) -> bool {
        &&& required_reads(self.guild, j, "guild"@)
        &&& required_reads(self.acquired, j, "acquired"@)
        &&& required_reads(self.location, j, "location"@)
    }

    fn decode(j: &Json) -> (r: Result<Self, DecodeError>) {
        let guild = required::<GuildDescription>(j, "guild")?;
        let acquired = required::<String>(j, "acquired")?;
        let location = required::<TerritoryLocation>(j, "location")?;
        Ok(Territory { guild, acquired, location })
    }
}

impl Encode for Territory {
    open spec fn valid(&self) -> bool {
        &&& self.guild.valid()
        &&& self.acquired.valid()
        &&& self.location.valid()
    }

    open spec fn encoded(&self) -> JsonValue {
        JsonValue::Object(
            seq![
                ("guild"@, self.guild.encoded()),
                ("acquired"@, self.acquired.encoded()),
                ("location"@, self.location.encoded()),
            ],
        )
    }

    fn encode(&self) -> (j: Json) {
        let j = ObjectWriter::new()
            .with("guild", self.guild.encode())
            .with("acquired", self.acquired.encode())
            .with("location", self.location.encode())
            .done();
        assert(j@->Object_0 =~= self.encoded()->Object_0);
        j
    }

    proof fn lemma_read_back(&self) {
        let j = self.encoded();
        let members = j->Object_0;
        reveal_strlit("guild");
        assert("guild"@.len() == 5 && "guild"@[0] == 'g');
        reveal_strlit("acquired");
        assert("acquired"@.len() == 8 && "acquired"@[0] == 'a');
        reveal_strlit("location");
        assert("location"@.len() == 8 && "location"@[0] == 'l');
        lemma_member_at(members, "guild"@, 0);
        lemma_required_read_back(&self.guild, j, "guild"@);
        lemma_member_at(members, "acquired"@, 1);
        lemma_required_read_back(&self.acquired, j, "acquired"@);
        lemma_member_at(members, "location"@, 2);
        lemma_required_read_back(&self.location, j, "location"@);
    }

    proof fn lemma_one_reading(&self, other: &Self, j: JsonValue) {
        lemma_required_one_reading(&self.guild, &other.guild, j, "guild"@);
        lemma_required_one_reading(&self.acquired, &other.acquired, j, "acquired"@);
        lemma_required_one_reading(&self.location, &other.location, j, "location"@);
    }

    proof fn lemma_read_is_valid(&self, j: JsonValue) {
        lemma_required_is_valid(&self.guild, j, "guild"@);
        lemma_required_is_valid(&self.acquired, j, "acquired"@);
        lemma_required_is_valid(&self.location, j, "location"@);
    }
}

/// The two corners of a territory, each as `x` and `z`.
#[derive(Debug, PartialEq)]
pub struct TerritoryLocation {
    pub start: (i64, i64),
    pub end: (i64, i64),
}

impl Clone for TerritoryLocation {
    fn clone(&self) -> (r: Self)
        ensures
            r == *self,
    {
        TerritoryLocation { start: self.start, end: self.end }
    }
}

impl Decode for TerritoryLocation {
    open spec fn failure(j: JsonValue) -> Option<DecodeFault> {
        required_failure::<Pair<i64, i64>>(j, "start"@)
            .otherwise(required_failure::<Pair<i64, i64>>(j, "end"@))
    }

    open spec fn reads(&self, j: JsonValue) -> bool {
        &&& required_reads(Pair(self.start), j, "start"@)
        &&& required_reads(Pair(self.end), j, "end"@)
    }

    fn decode(j: &Json) -> (r: Result<Self, DecodeError>) {
        let start = required::<Pair<i64, i64>>(j, "start")?.0;
        let end = required::<Pair<i64, i64>>(j, "end")?.0;
        Ok(TerritoryLocation { start, end })
    }
}

impl Encode for TerritoryLocation {
    open spec fn valid(&self) -> bool {
        &&& Pair(self.start).valid()
        &&& Pair(self.end).valid()
    }

    open spec fn encoded(&self) -> JsonValue {
        JsonValue::Object(
            seq![
                ("start"@, Pair(self.start).encoded()),
                ("end"@, Pair(self.end).encoded()),
            ],
        )
    }

    fn encode(&self) -> (j: Json) {
        let j = ObjectWriter::new()
            .with("start", Pair(self.start).encode())
            .with("end", Pair(self.end).encode())
            .done();
        assert(j@->Object_0 =~= self.encoded()->Object_0);
        j
    }

    proof fn lemma_read_back(&self) {
        let j = self.encoded();
        let members = j->Object_0;
        reveal_strlit("start");
        assert("start"@.len() == 5);
        reveal_strlit("end");
        assert("end"@.len() == 3);
        lemma_member_at(members, "start"@, 0);
        lemma_required_read_back(&Pair(self.start), j, "start"@);
        lemma_member_at(members, "end"@, 1);
        lemma_required_read_back(&Pair(self.end), j, "end"@);
    }

    proof fn lemma_one_reading(&self, other: &Self, j: JsonValue) {
        lemma_required_one_reading(&Pair(self.start), &Pair(other.start), j, "start"@);
        lemma_required_one_reading(&Pair(self.end), &Pair(other.end), j, "end"@);
    }

    proof fn lemma_read_is_valid(&self, j: JsonValue) {
        lemma_required_is_valid(&Pair(self.start), j, "start"@);
        lemma_required_is_valid(&Pair(self.end), j, "end"@);
    }
}

} // verus!
