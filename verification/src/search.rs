//! Searching by name over players, guilds, territories, discoveries and items.

use crate::decode::{Decode, DecodeError, DecodeFault, Otherwise, Triple};
use crate::encode::{
    Encode, lemma_defaulted_read_back, lemma_filled_is_valid, lemma_filled_one_reading, lemma_required_is_valid,
    lemma_required_one_reading, lemma_required_read_back,
};
use crate::fields::{filled, filled_failure, filled_reads, required, required_failure, required_reads};
use crate::guild::TerritoryLocation;
use crate::item::Item;
use crate::json::{Json, JsonValue, lemma_member_at, ObjectWriter};
use vstd::prelude::*;

verus! {

/// What a search found, by kind. A kind without hits may be left out.
#[derive(Clone, Debug, PartialEq)]
pub struct SearchResult {
    pub query: String,
    pub players: Vec<(String, String)>,
    pub guilds: Vec<(String, GuildSearchInfo)>,
    pub guilds_prefix: Vec<(String, GuildSearchInfo)>,
    pub territories: Vec<(String, TerritoryLocation)>,
    pub discoveries: Vec<(String, DiscoveryLocation)>,
    pub items: Vec<(String, Item)>,
}

impl Decode for SearchResult {
    open spec fn failure(j: JsonValue) -> Option<DecodeFault> {
        required_failure::<String>(j, "query"@)
            .otherwise(filled_failure::<Vec<(String, String)>>(j, "players"@))
            .otherwise(filled_failure::<Vec<(String, GuildSearchInfo)>>(j, "guilds"@))
            .otherwise(filled_failure::<Vec<(String, GuildSearchInfo)>>(j, "guildsPrefix"@))
            .otherwise(filled_failure::<Vec<(String, TerritoryLocation)>>(j, "territories"@))
            .otherwise(filled_failure::<Vec<(String, DiscoveryLocation)>>(j, "discoveries"@))
            .otherwise(filled_failure::<Vec<(String, Item)>>(j, "items"@))
    }

    open spec fn reads(&self, j: JsonValue) -> bool {
        &&& required_reads(self.query, j, "query"@)
        &&& filled_reads(self.players, j, "players"@)
        &&& filled_reads(self.guilds, j, "guilds"@)
        &&& filled_reads(self.guilds_prefix, j, "guildsPrefix"@)
        &&& filled_reads(self.territories, j, "territories"@)
        &&& filled_reads(self.discoveries, j, "discoveries"@)
        &&& filled_reads(self.items, j, "items"@)
    }

    fn decode(j: &Json) -> (r: Result<Self, DecodeError>) {
        let query = required::<String>(j, "query")?;
        let players = filled::<Vec<(String, String)>>(j, "players")?;
        let guilds = filled::<Vec<(String, GuildSearchInfo)>>(j, "guilds")?;
        let guilds_prefix = filled::<Vec<(String, GuildSearchInfo)>>(j, "guildsPrefix")?;
        let territories = filled::<Vec<(String, TerritoryLocation)>>(j, "territories")?;
        let discoveries = filled::<Vec<(String, DiscoveryLocation)>>(j, "discoveries")?;
        let items = filled::<Vec<(String, Item)>>(j, "items")?;
        Ok(SearchResult { query, players, guilds, guilds_prefix, territories, discoveries, items })
    }
}

impl Encode for SearchResult {
    open spec fn valid(&self) -> bool {
        &&& self.query.valid()
        &&& self.players.valid()
        &&& self.guilds.valid()
        &&& self.guilds_prefix.valid()
        &&& self.territories.valid()
        &&& self.discoveries.valid()
        &&& self.items.valid()
    }

    open spec fn encoded(&self) -> JsonValue {
        JsonValue::Object(
            seq![
                ("query"@, self.query.encoded()),
                ("players"@, self.players.encoded()),
                ("guilds"@, self.guilds.encoded()),
                ("guildsPrefix"@, self.guilds_prefix.encoded()),
                ("territories"@, self.territories.encoded()),
                ("discoveries"@, self.discoveries.encoded()),
                ("items"@, self.items.encoded()),
            ],
        )
    }

    fn encode(&self) -> (j: Json) {
        let j = ObjectWriter::new()
            .with("query", self.query.encode())
            .with("players", self.players.encode())
            .with("guilds", self.guilds.encode())
            .with("guildsPrefix", self.guilds_prefix.encode())
            .with("territories", self.territories.encode())
            .with("discoveries", self.discoveries.encode())
            .with("items", self.items.encode())
            .done();
        assert(j@->Object_0 =~= self.encoded()->Object_0);
        j
    }

    proof fn lemma_read_back(&self) {
        let j = self.encoded();
        let members = j->Object_0;
        reveal_strlit("query");
        assert("query"@.len() == 5 && "query"@[0] == 'q');
        reveal_strlit("players");
        assert("players"@.len() == 7 && "players"@[0] == 'p');
        reveal_strlit("guilds");
        assert("guilds"@.len() == 6 && "guilds"@[0] == 'g');
        reveal_strlit("guildsPrefix");
        assert("guildsPrefix"@.len() == 12 && "guildsPrefix"@[0] == 'g');
        reveal_strlit("territories");
        assert("territories"@.len() == 11 && "territories"@[0] == 't');
        reveal_strlit("discoveries");
        assert("discoveries"@.len() == 11 && "discoveries"@[0] == 'd');
        reveal_strlit("items");
        assert("items"@.len() == 5 && "items"@[0] == 'i');
        lemma_member_at(members, "query"@, 0);
        lemma_required_read_back(&self.query, j, "query"@);
        lemma_member_at(members, "players"@, 1);
        lemma_defaulted_read_back(&self.players, j, "players"@);
        lemma_member_at(members, "guilds"@, 2);
        lemma_defaulted_read_back(&self.guilds, j, "guilds"@);
        lemma_member_at(members, "guildsPrefix"@, 3);
        lemma_defaulted_read_back(&self.guilds_prefix, j, "guildsPrefix"@);
        lemma_member_at(members, "territories"@, 4);
        lemma_defaulted_read_back(&self.territories, j, "territories"@);
        lemma_member_at(members, "discoveries"@, 5);
        lemma_defaulted_read_back(&self.discoveries, j, "discoveries"@);
        lemma_member_at(members, "items"@, 6);
        lemma_defaulted_read_back(&self.items, j, "items"@);
    }

    proof fn lemma_one_reading(&self, other: &Self, j: JsonValue) {
        lemma_required_one_reading(&self.query, &other.query, j, "query"@);
        lemma_filled_one_reading(&self.players, &other.players, j, "players"@);
        lemma_filled_one_reading(&self.guilds, &other.guilds, j, "guilds"@);
        lemma_filled_one_reading(&self.guilds_prefix, &other.guilds_prefix, j, "guildsPrefix"@);
        lemma_filled_one_reading(&self.territories, &other.territories, j, "territories"@);
        lemma_filled_one_reading(&self.discoveries, &other.discoveries, j, "discoveries"@);
        lemma_filled_one_reading(&self.items, &other.items, j, "items"@);
    }

    proof fn lemma_read_is_valid(&self, j: JsonValue) {
        lemma_required_is_valid(&self.query, j, "query"@);
        lemma_filled_is_valid(&self.players, j, "players"@);
        lemma_filled_is_valid(&self.guilds, j, "guilds"@);
        lemma_filled_is_valid(&self.guilds_prefix, j, "guildsPrefix"@);
        lemma_filled_is_valid(&self.territories, j, "territories"@);
        lemma_filled_is_valid(&self.discoveries, j, "discoveries"@);
        lemma_filled_is_valid(&self.items, j, "items"@);
    }
}

/// A guild that a search found.
#[derive(Clone, Debug, PartialEq)]
pub struct GuildSearchInfo {
    pub name: String,
    pub prefix: String,
}

impl Decode for GuildSearchInfo {
    open spec fn failure(j: JsonValue) -> Option<DecodeFault> {
        required_failure::<String>(j, "name"@)
            .otherwise(required_failure::<String>(j, "prefix"@))
    }

    open spec fn reads(&self, j: JsonValue) -> bool {
        &&& required_reads(self.name, j, "name"@)
        &&& required_reads(self.prefix, j, "prefix"@)
    }

    fn decode(j: &Json) -> (r: Result<Self, DecodeError>) {
        let name = required::<String>(j, "name")?;
        let prefix = required::<String>(j, "prefix")?;
        Ok(GuildSearchInfo { name, prefix })
    }
}

impl Encode for GuildSearchInfo {
    open spec fn valid(&self) -> bool {
        &&& self.name.valid()
        &&& self.prefix.valid()
    }

    open spec fn encoded(&self) -> JsonValue {
        JsonValue::Object(
            seq![
                ("name"@, self.name.encoded()),
                ("prefix"@, self.prefix.encoded()),
            ],
        )
    }

    fn encode(&self) -> (j: Json) {
        let j = ObjectWriter::new()
            .with("name", self.name.encode())
            .with("prefix", self.prefix.encode())
            .done();
        assert(j@->Object_0 =~= self.encoded()->Object_0);
        j
    }

    proof fn lemma_read_back(&self) {
        let j = self.encoded();
        let members = j->Object_0;
        reveal_strlit("name");
        assert("name"@.len() == 4);
        reveal_strlit("prefix");
        assert("prefix"@.len() == 6);
        lemma_member_at(members, "name"@, 0);
        lemma_required_read_back(&self.name, j, "name"@);
        lemma_member_at(members, "prefix"@, 1);
        lemma_required_read_back(&self.prefix, j, "prefix"@);
    }

    proof fn lemma_one_reading(&self, other: &Self, j: JsonValue) {
        lemma_required_one_reading(&self.name, &other.name, j, "name"@);
        lemma_required_one_reading(&self.prefix, &other.prefix, j, "prefix"@);
    }

    proof fn lemma_read_is_valid(&self, j: JsonValue) {
        lemma_required_is_valid(&self.name, j, "name"@);
        lemma_required_is_valid(&self.prefix, j, "prefix"@);
    }
}

/// The two corners of a discovery, each as `x`, `y` and `z`.
#[derive(Debug, PartialEq)]
pub struct DiscoveryLocation {
    pub start: (i64, i64, i64),
    pub end: (i64, i64, i64),
}

impl Clone for DiscoveryLocation {
    fn clone(&self) -> (r: Self)
        ensures
            r == *self,
    {
        DiscoveryLocation { start: self.start, end: self.end }
    }
}

impl Decode for DiscoveryLocation {
    open spec fn failure(j: JsonValue) -> Option<DecodeFault> {
        required_failure::<Triple<i64, i64, i64>>(j, "start"@)
            .otherwise(required_failure::<Triple<i64, i64, i64>>(j, "end"@))
    }

    open spec fn reads(&self, j: JsonValue) -> bool {
        &&& required_reads(Triple(self.start), j, "start"@)
        &&& required_reads(Triple(self.end), j, "end"@)
    }

    fn decode(j: &Json) -> (r: Result<Self, DecodeError>) {
        let start = required::<Triple<i64, i64, i64>>(j, "start")?.0;
        let end = required::<Triple<i64, i64, i64>>(j, "end")?.0;
        Ok(DiscoveryLocation { start, end })
    }
}

impl Encode for DiscoveryLocation {
    open spec fn valid(&self) -> bool {
        &&& Triple(self.start).valid()
        &&& Triple(self.end).valid()
    }

    open spec fn encoded(&self) -> JsonValue {
        JsonValue::Object(
            seq![
                ("start"@, Triple(self.start).encoded()),
                ("end"@, Triple(self.end).encoded()),
            ],
        )
    }

    fn encode(&self) -> (j: Json) {
        let j = ObjectWriter::new()
            .with("start", Triple(self.start).encode())
            .with("end", Triple(self.end).encode())
            .done();
        assert(j@->Object_0 =~= self.encoded()->Object_0);
        j
    }

    proof fn lemma_read_back(&self) {
        let j = self.encoded();
        let members = j->Object_0;
        reveal_strlit("start");
        assert("start"@.len() == 5);
        reveal_strlit("end");
        assert("end"@.len() == 3);
        lemma_member_at(members, "start"@, 0);
        lemma_required_read_back(&Triple(self.start), j, "start"@);
        lemma_member_at(members, "end"@, 1);
        lemma_required_read_back(&Triple(self.end), j, "end"@);
    }

    proof fn lemma_one_reading(&self, other: &Self, j: JsonValue) {
        lemma_required_one_reading(&Triple(self.start), &Triple(other.start), j, "start"@);
        lemma_required_one_reading(&Triple(self.end), &Triple(other.end), j, "end"@);
    }

    proof fn lemma_read_is_valid(&self, j: JsonValue) {
        lemma_required_is_valid(&Triple(self.start), j, "start"@);
        lemma_required_is_valid(&Triple(self.end), j, "end"@);
    }
}

} // verus!
