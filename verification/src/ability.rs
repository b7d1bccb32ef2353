//! Ability maps, ability trees and aspects.

use crate::classes::Class;
use crate::decode::{Decode, DecodeError, DecodeFault, Distinct, Otherwise};
use crate::encode::{
    Encode, encode_option, encoded_option, lemma_defaulted_read_back, lemma_filled_is_valid,
    lemma_filled_one_reading, lemma_optional_is_valid, lemma_optional_one_reading, lemma_optional_read_back,
    lemma_required_is_valid, lemma_required_one_reading, lemma_required_read_back, valid_items, valid_option,
};
use crate::fields::{
    filled, filled_failure, filled_reads, optional, optional_failure, optional_reads, required, required_failure,
    required_reads,
};
use crate::item::ItemRarity;
use crate::json::{Json, JsonValue, lemma_member_at, ObjectWriter};
use crate::ordered::{
    deserialize_to_vec, encode_sequence, encoded_sequence, indexed, indexed_failure, indexed_reads,
    lemma_indexed_is_valid, lemma_indexed_one_reading, lemma_indexed_read_back, lemma_sequence_is_valid,
    lemma_sequence_one_reading, lemma_sequence_read_back, sequence_failure, sequence_reads,
};
use crate::player::{Ability, AbilityNodeCoordinate, Icon};
use vstd::prelude::*;

verus! {

/// The ability map of a class, page by page.
#[derive(Clone, Debug, PartialEq)]
pub struct AbilityMap {
    pub pages: Vec<Vec<Ability>>,
}

impl Decode for AbilityMap {
    open spec fn failure(j: JsonValue) -> Option<DecodeFault> {
        sequence_failure::<Vec<Ability>>(j)
    }

    open spec fn reads(&self, j: JsonValue) -> bool {
        sequence_reads(self.pages@, j)
    }

    fn decode(j: &Json) -> (r: Result<Self, DecodeError>) {
        let pages = deserialize_to_vec::<Vec<Ability>>(j)?;
        Ok(AbilityMap { pages })
    }
}

impl Encode for AbilityMap {
    open spec fn valid(&self) -> bool {
        valid_items(self.pages@)
    }

    open spec fn encoded(&self) -> JsonValue {
        encoded_sequence(self.pages@)
    }

    fn encode(&self) -> (j: Json) {
        encode_sequence(&self.pages)
    }

    proof fn lemma_read_back(&self) {
        assert(self.pages@.len() == self.pages.len());
        lemma_sequence_read_back(self.pages@);
    }

    proof fn lemma_one_reading(&self, other: &Self, j: JsonValue) {
        lemma_sequence_one_reading(self.pages@, other.pages@, j);
    }

    proof fn lemma_read_is_valid(&self, j: JsonValue) {
        lemma_sequence_is_valid(self.pages@, j);
    }
}

/// The ability tree of a class, page by page, and its archetypes.
#[derive(Clone, Debug, PartialEq)]
pub struct AbilityTree {
    pub archetypes: Vec<(String, ArchetypeInfo)>,
    pub pages: Vec<Vec<(String, AbilityInfo)>>,
}

impl Decode for AbilityTree {
    open spec fn failure(j: JsonValue) -> Option<DecodeFault> {
        required_failure::<Vec<(String, ArchetypeInfo)>>(j, "archetypes"@)
            .otherwise(indexed_failure::<Vec<(String, AbilityInfo)>>(j, "pages"@))
    }

    open spec fn reads(&self, j: JsonValue) -> bool {
        &&& required_reads(self.archetypes, j, "archetypes"@)
        &&& indexed_reads(self.pages@, j, "pages"@)
    }

    fn decode(j: &Json) -> (r: Result<Self, DecodeError>) {
        let archetypes = required::<Vec<(String, ArchetypeInfo)>>(j, "archetypes")?;
        let pages = indexed::<Vec<(String, AbilityInfo)>>(j, "pages")?;
        Ok(AbilityTree { archetypes, pages })
    }
}

impl Encode for AbilityTree {
    open spec fn valid(&self) -> bool {
        &&& self.archetypes.valid()
        &&& valid_items(self.pages@)
    }

    open spec fn encoded(&self) -> JsonValue {
        JsonValue::Object(
            seq![
                ("archetypes"@, self.archetypes.encoded()),
                ("pages"@, encoded_sequence(self.pages@)),
            ],
        )
    }

    fn encode(&self) -> (j: Json) {
        let j = ObjectWriter::new()
            .with("archetypes", self.archetypes.encode())
            .with("pages", encode_sequence(&self.pages))
            .done();
        assert(j@->Object_0 =~= self.encoded()->Object_0);
        j
    }

    proof fn lemma_read_back(&self) {
        let j = self.encoded();
        let members = j->Object_0;
        reveal_strlit("archetypes");
        assert("archetypes"@.len() == 10);
        reveal_strlit("pages");
        assert("pages"@.len() == 5);
        lemma_member_at(members, "archetypes"@, 0);
        lemma_required_read_back(&self.archetypes, j, "archetypes"@);
        lemma_member_at(members, "pages"@, 1);
        assert(self.pages@.len() == self.pages.len());
        lemma_indexed_read_back(self.pages@, j, "pages"@);
    }

    proof fn lemma_one_reading(&self, other: &Self, j: JsonValue) {
        lemma_required_one_reading(&self.archetypes, &other.archetypes, j, "archetypes"@);
        lemma_indexed_one_reading(self.pages@, other.pages@, j, "pages"@);
    }

    proof fn lemma_read_is_valid(&self, j: JsonValue) {
        lemma_required_is_valid(&self.archetypes, j, "archetypes"@);
        lemma_indexed_is_valid(self.pages@, j, "pages"@);
    }
}

/// An archetype of an ability tree.
#[derive(Clone, Debug, PartialEq)]
pub struct ArchetypeInfo {
    pub name: String,
    pub description: String,
    pub short_description: String,
    pub icon: Icon,
    pub slot: u64,
}

impl Decode for ArchetypeInfo {
    open spec fn failure(j: JsonValue) -> Option<DecodeFault> {
        required_failure::<String>(j, "name"@)
            .otherwise(required_failure::<String>(j, "description"@))
            .otherwise(required_failure::<String>(j, "shortDescription"@))
            .otherwise(required_failure::<Icon>(j, "icon"@))
            .otherwise(required_failure::<u64>(j, "slot"@))
    }

    open spec fn reads(&self, j: JsonValue) -> bool {
        &&& required_reads(self.name, j, "name"@)
        &&& required_reads(self.description, j, "description"@)
        &&& required_reads(self.short_description, j, "shortDescription"@)
        &&& required_reads(self.icon, j, "icon"@)
        &&& required_reads(self.slot, j, "slot"@)
    }

    fn decode(j: &Json) -> (r: Result<Self, DecodeError>) {
        let name = required::<String>(j, "name")?;
        let description = required::<String>(j, "description")?;
        let short_description = required::<String>(j, "shortDescription")?;
        let icon = required::<Icon>(j, "icon")?;
        let slot = required::<u64>(j, "slot")?;
        Ok(ArchetypeInfo { name, description, short_description, icon, slot })
    }
}

impl Encode for ArchetypeInfo {
    open spec fn valid(&self) -> bool {
        &&& self.name.valid()
        &&& self.description.valid()
        &&& self.short_description.valid()
        &&& self.icon.valid()
        &&& self.slot.valid()
    }

    open spec fn encoded(&self) -> JsonValue {
        JsonValue::Object(
            seq![
                ("name"@, self.name.encoded()),
                ("description"@, self.description.encoded()),
                ("shortDescription"@, self.short_description.encoded()),
                ("icon"@, self.icon.encoded()),
                ("slot"@, self.slot.encoded()),
            ],
        )
    }

    fn encode(&self) -> (j: Json) {
        let j = ObjectWriter::new()
            .with("name", self.name.encode())
            .with("description", self.description.encode())
            .with("shortDescription", self.short_description.encode())
            .with("icon", self.icon.encode())
            .with("slot", self.slot.encode())
            .done();
        assert(j@->Object_0 =~= self.encoded()->Object_0);
        j
    }

    proof fn lemma_read_back(&self) {
        let j = self.encoded();
        let members = j->Object_0;
        reveal_strlit("name");
        assert("name"@.len() == 4 && "name"@[0] == 'n');
        reveal_strlit("description");
        assert("description"@.len() == 11 && "description"@[0] == 'd');
        reveal_strlit("shortDescription");
        assert("shortDescription"@.len() == 16 && "shortDescription"@[0] == 's');
        reveal_strlit("icon");
        assert("icon"@.len() == 4 && "icon"@[0] == 'i');
        reveal_strlit("slot");
        assert("slot"@.len() == 4 && "slot"@[0] == 's');
        lemma_member_at(members, "name"@, 0);
        lemma_required_read_back(&self.name, j, "name"@);
        lemma_member_at(members, "description"@, 1);
        lemma_required_read_back(&self.description, j, "description"@);
        lemma_member_at(members, "shortDescription"@, 2);
        lemma_required_read_back(&self.short_description, j, "shortDescription"@);
        lemma_member_at(members, "icon"@, 3);
        lemma_required_read_back(&self.icon, j, "icon"@);
        lemma_member_at(members, "slot"@, 4);
        lemma_required_read_back(&self.slot, j, "slot"@);
    }

    proof fn lemma_one_reading(&self, other: &Self, j: JsonValue) {
        lemma_required_one_reading(&self.name, &other.name, j, "name"@);
        lemma_required_one_reading(&self.description, &other.description, j, "description"@);
        lemma_required_one_reading(&self.short_description, &other.short_description, j, "shortDescription"@);
        lemma_required_one_reading(&self.icon, &other.icon, j, "icon"@);
        lemma_required_one_reading(&self.slot, &other.slot, j, "slot"@);
    }

    proof fn lemma_read_is_valid(&self, j: JsonValue) {
        lemma_required_is_valid(&self.name, j, "name"@);
        lemma_required_is_valid(&self.description, j, "description"@);
        lemma_required_is_valid(&self.short_description, j, "shortDescription"@);
        lemma_required_is_valid(&self.icon, j, "icon"@);
        lemma_required_is_valid(&self.slot, j, "slot"@);
    }
}

/// An ability of an ability tree.
#[derive(Clone, Debug, PartialEq)]
pub struct AbilityInfo {
    pub name: String,
    pub icon: Icon,
    pub slot: u64,
    pub coordinates: AbilityNodeCoordinate,
    pub description: Vec<String>,
    pub requirements: AbilityRequirement,
    pub links: Vec<String>,
    pub locks: Vec<String>,
    pub page: u8,
}

impl Decode for AbilityInfo {
    open spec fn failure(j: JsonValue) -> Option<DecodeFault> {
        required_failure::<String>(j, "name"@)
            .otherwise(required_failure::<Icon>(j, "icon"@))
            .otherwise(required_failure::<u64>(j, "slot"@))
            .otherwise(required_failure::<AbilityNodeCoordinate>(j, "coordinates"@))
            .otherwise(required_failure::<Vec<String>>(j, "description"@))
            .otherwise(required_failure::<AbilityRequirement>(j, "requirements"@))
            .otherwise(filled_failure::<Distinct<String>>(j, "links"@))
            .otherwise(filled_failure::<Distinct<String>>(j, "locks"@))
            .otherwise(required_failure::<u8>(j, "page"@))
    }

    open spec fn reads(&self, j: JsonValue) -> bool {
        &&& required_reads(self.name, j, "name"@)
        &&& required_reads(self.icon, j, "icon"@)
        &&& required_reads(self.slot, j, "slot"@)
        &&& required_reads(self.coordinates, j, "coordinates"@)
        &&& required_reads(self.description, j, "description"@)
        &&& required_reads(self.requirements, j, "requirements"@)
        &&& filled_reads(Distinct(self.links), j, "links"@)
        &&& filled_reads(Distinct(self.locks), j, "locks"@)
        &&& required_reads(self.page, j, "page"@)
    }

    fn decode(j: &Json) -> (r: Result<Self, DecodeError>) {
        let name = required::<String>(j, "name")?;
        let icon = required::<Icon>(j, "icon")?;
        let slot = required::<u64>(j, "slot")?;
        let coordinates = required::<AbilityNodeCoordinate>(j, "coordinates")?;
        let description = required::<Vec<String>>(j, "description")?;
        let requirements = required::<AbilityRequirement>(j, "requirements")?;
        let links = filled::<Distinct<String>>(j, "links")?.0;
        let locks = filled::<Distinct<String>>(j, "locks")?.0;
        let page = required::<u8>(j, "page")?;
        Ok(AbilityInfo { name, icon, slot, coordinates, description, requirements, links, locks, page })
    }
}

impl Encode for AbilityInfo {
    open spec fn valid(&self) -> bool {
        &&& self.name.valid()
        &&& self.icon.valid()
        &&& self.slot.valid()
        &&& self.coordinates.valid()
        &&& self.description.valid()
        &&& self.requirements.valid()
        &&& Distinct(self.links).valid()
        &&& Distinct(self.locks).valid()
        &&& self.page.valid()
    }

    open spec fn encoded(&self) -> JsonValue {
        JsonValue::Object(
            seq![
                ("name"@, self.name.encoded()),
                ("icon"@, self.icon.encoded()),
                ("slot"@, self.slot.encoded()),
                ("coordinates"@, self.coordinates.encoded()),
                ("description"@, self.description.encoded()),
                ("requirements"@, self.requirements.encoded()),
                ("links"@, Distinct(self.links).encoded()),
                ("locks"@, Distinct(self.locks).encoded()),
                ("page"@, self.page.encoded()),
            ],
        )
    }

    fn encode(&self) -> (j: Json) {
        let j = ObjectWriter::new()
            .with("name", self.name.encode())
            .with("icon", self.icon.encode())
            .with("slot", self.slot.encode())
            .with("coordinates", self.coordinates.encode())
            .with("description", self.description.encode())
            .with("requirements", self.requirements.encode())
            .with("links", self.links.encode())
            .with("locks", self.locks.encode())
            .with("page", self.page.encode())
            .done();
        assert(j@->Object_0 =~= self.encoded()->Object_0);
        j
    }

    proof fn lemma_read_back(&self) {
        let j = self.encoded();
        let members = j->Object_0;
        reveal_strlit("name");
        assert("name"@.len() == 4 && "name"@[0] == 'n' && "name"@[1] == 'a');
        reveal_strlit("icon");
        assert("icon"@.len() == 4 && "icon"@[0] == 'i' && "icon"@[1] == 'c');
        reveal_strlit("slot");
        assert("slot"@.len() == 4 && "slot"@[0] == 's' && "slot"@[1] == 'l');
        reveal_strlit("coordinates");
        assert("coordinates"@.len() == 11 && "coordinates"@[0] == 'c' && "coordinates"@[1] == 'o');
        reveal_strlit("description");
        assert("description"@.len() == 11 && "description"@[0] == 'd' && "description"@[1] == 'e');
        reveal_strlit("requirements");
        assert("requirements"@.len() == 12 && "requirements"@[0] == 'r' && "requirements"@[1] == 'e');
        reveal_strlit("links");
        assert("links"@.len() == 5 && "links"@[0] == 'l' && "links"@[1] == 'i');
        reveal_strlit("locks");
        assert("locks"@.len() == 5 && "locks"@[0] == 'l' && "locks"@[1] == 'o');
        reveal_strlit("page");
        assert("page"@.len() == 4 && "page"@[0] == 'p' && "page"@[1] == 'a');
        lemma_member_at(members, "name"@, 0);
        lemma_required_read_back(&self.name, j, "name"@);
        lemma_member_at(members, "icon"@, 1);
        lemma_required_read_back(&self.icon, j, "icon"@);
        lemma_member_at(members, "slot"@, 2);
        lemma_required_read_back(&self.slot, j, "slot"@);
        lemma_member_at(members, "coordinates"@, 3);
        lemma_required_read_back(&self.coordinates, j, "coordinates"@);
        lemma_member_at(members, "description"@, 4);
        lemma_required_read_back(&self.description, j, "description"@);
        lemma_member_at(members, "requirements"@, 5);
        lemma_required_read_back(&self.requirements, j, "requirements"@);
        lemma_member_at(members, "links"@, 6);
        lemma_defaulted_read_back(&Distinct(self.links), j, "links"@);
        lemma_member_at(members, "locks"@, 7);
        lemma_defaulted_read_back(&Distinct(self.locks), j, "locks"@);
        lemma_member_at(members, "page"@, 8);
        lemma_required_read_back(&self.page, j, "page"@);
    }

    proof fn lemma_one_reading(&self, other: &Self, j: JsonValue) {
        lemma_required_one_reading(&self.name, &other.name, j, "name"@);
        lemma_required_one_reading(&self.icon, &other.icon, j, "icon"@);
        lemma_required_one_reading(&self.slot, &other.slot, j, "slot"@);
        lemma_required_one_reading(&self.coordinates, &other.coordinates, j, "coordinates"@);
        lemma_required_one_reading(&self.description, &other.description, j, "description"@);
        lemma_required_one_reading(&self.requirements, &other.requirements, j, "requirements"@);
        lemma_filled_one_reading(&Distinct(self.links), &Distinct(other.links), j, "links"@);
        lemma_filled_one_reading(&Distinct(self.locks), &Distinct(other.locks), j, "locks"@);
        lemma_required_one_reading(&self.page, &other.page, j, "page"@);
    }

    proof fn lemma_read_is_valid(&self, j: JsonValue) {
        lemma_required_is_valid(&self.name, j, "name"@);
        lemma_required_is_valid(&self.icon, j, "icon"@);
        lemma_required_is_valid(&self.slot, j, "slot"@);
        lemma_required_is_valid(&self.coordinates, j, "coordinates"@);
        lemma_required_is_valid(&self.description, j, "description"@);
        lemma_required_is_valid(&self.requirements, j, "requirements"@);
        lemma_filled_is_valid(&Distinct(self.links), j, "links"@);
        lemma_filled_is_valid(&Distinct(self.locks), j, "locks"@);
        lemma_required_is_valid(&self.page, j, "page"@);
    }
}

/// What an ability needs to be unlocked.
#[derive(Clone, Debug, PartialEq)]
pub struct AbilityRequirement {
    pub ability_points: u8,
    pub node: Option<String>,
    pub archetype: Option<ArchetypeRequirements>,
}

impl Decode for AbilityRequirement {
    open spec fn failure(j: JsonValue) -> Option<DecodeFault> {
        required_failure::<u8>(j, "ABILITY_POINTS"@)
            .otherwise(optional_failure::<String>(j, "NODE"@))
            .otherwise(optional_failure::<ArchetypeRequirements>(j, "ARCHETYPE"@))
    }

    open spec fn reads(&self, j: JsonValue) -> bool {
        &&& required_reads(self.ability_points, j, "ABILITY_POINTS"@)
        &&& optional_reads(self.node, j, "NODE"@)
        &&& optional_reads(self.archetype, j, "ARCHETYPE"@)
    }

    fn decode(j: &Json) -> (r: Result<Self, DecodeError>) {
        let ability_points = required::<u8>(j, "ABILITY_POINTS")?;
        let node = optional::<String>(j, "NODE")?;
        let archetype = optional::<ArchetypeRequirements>(j, "ARCHETYPE")?;
        Ok(AbilityRequirement { ability_points, node, archetype })
    }
}

impl Encode for AbilityRequirement {
    open spec fn valid(&self) -> bool {
        &&& self.ability_points.valid()
        &&& valid_option(self.node)
        &&& valid_option(self.archetype)
    }

    open spec fn encoded(&self) -> JsonValue {
        JsonValue::Object(
            seq![
                ("ABILITY_POINTS"@, self.ability_points.encoded()),
                ("NODE"@, encoded_option(self.node)),
                ("ARCHETYPE"@, encoded_option(self.archetype)),
            ],
        )
    }

    fn encode(&self) -> (j: Json) {
        let j = ObjectWriter::new()
            .with("ABILITY_POINTS", self.ability_points.encode())
            .with("NODE", encode_option(&self.node))
            .with("ARCHETYPE", encode_option(&self.archetype))
            .done();
        assert(j@->Object_0 =~= self.encoded()->Object_0);
        j
    }

    proof fn lemma_read_back(&self) {
        let j = self.encoded();
        let members = j->Object_0;
        reveal_strlit("ABILITY_POINTS");
        assert("ABILITY_POINTS"@.len() == 14);
        reveal_strlit("NODE");
        assert("NODE"@.len() == 4);
        reveal_strlit("ARCHETYPE");
        assert("ARCHETYPE"@.len() == 9);
        lemma_member_at(members, "ABILITY_POINTS"@, 0);
        lemma_required_read_back(&self.ability_points, j, "ABILITY_POINTS"@);
        lemma_member_at(members, "NODE"@, 1);
        lemma_optional_read_back(self.node, j, "NODE"@);
        lemma_member_at(members, "ARCHETYPE"@, 2);
        lemma_optional_read_back(self.archetype, j, "ARCHETYPE"@);
    }

    proof fn lemma_one_reading(&self, other: &Self, j: JsonValue) {
        lemma_required_one_reading(&self.ability_points, &other.ability_points, j, "ABILITY_POINTS"@);
        lemma_optional_one_reading(self.node, other.node, j, "NODE"@);
        lemma_optional_one_reading(self.archetype, other.archetype, j, "ARCHETYPE"@);
    }

    proof fn lemma_read_is_valid(&self, j: JsonValue) {
        lemma_required_is_valid(&self.ability_points, j, "ABILITY_POINTS"@);
        lemma_optional_is_valid(self.node, j, "NODE"@);
        lemma_optional_is_valid(self.archetype, j, "ARCHETYPE"@);
    }
}

/// How many abilities of an archetype an ability needs.
#[derive(Clone, Debug, PartialEq)]
pub struct ArchetypeRequirements {
    pub name: String,
    pub amount: u8,
}

impl Decode for ArchetypeRequirements {
    open spec fn failure(j: JsonValue) -> Option<DecodeFault> {
        required_failure::<String>(j, "name"@)
            .otherwise(required_failure::<u8>(j, "amount"@))
    }

    open spec fn reads(&self, j: JsonValue) -> bool {
        &&& required_reads(self.name, j, "name"@)
        &&& required_reads(self.amount, j, "amount"@)
    }

    fn decode(j: &Json) -> (r: Result<Self, DecodeError>) {
        let name = required::<String>(j, "name")?;
        let amount = required::<u8>(j, "amount")?;
        Ok(ArchetypeRequirements { name, amount })
    }
}

impl Encode for ArchetypeRequirements {
    open spec fn valid(&self) -> bool {
        &&& self.name.valid()
        &&& self.amount.valid()
    }

    open spec fn encoded(&self) -> JsonValue {
        JsonValue::Object(
            seq![
                ("name"@, self.name.encoded()),
                ("amount"@, self.amount.encoded()),
            ],
        )
    }

    fn encode(&self) -> (j: Json) {
        let j = ObjectWriter::new()
            .with("name", self.name.encode())
            .with("amount", self.amount.encode())
            .done();
        assert(j@->Object_0 =~= self.encoded()->Object_0);
        j
    }

    proof fn lemma_read_back(&self) {
        let j = self.encoded();
        let members = j->Object_0;
        reveal_strlit("name");
        assert("name"@.len() == 4);
        reveal_strlit("amount");
        assert("amount"@.len() == 6);
        lemma_member_at(members, "name"@, 0);
        lemma_required_read_back(&self.name, j, "name"@);
        lemma_member_at(members, "amount"@, 1);
        lemma_required_read_back(&self.amount, j, "amount"@);
    }

    proof fn lemma_one_reading(&self, other: &Self, j: JsonValue) {
        lemma_required_one_reading(&self.name, &other.name, j, "name"@);
        lemma_required_one_reading(&self.amount, &other.amount, j, "amount"@);
    }

    proof fn lemma_read_is_valid(&self, j: JsonValue) {
        lemma_required_is_valid(&self.name, j, "name"@);
        lemma_required_is_valid(&self.amount, j, "amount"@);
    }
}

/// An aspect of a class.
#[derive(Clone, Debug, PartialEq)]
pub struct Aspect {
    pub name: String,
    pub icon: Icon,
    /// Only legendary+
    pub rarity: ItemRarity,
    pub required_class: Class,
    pub tiers: Vec<AspectTier>,
}

impl Decode for Aspect {
    open spec fn failure(j: JsonValue) -> Option<DecodeFault> {
        required_failure::<String>(j, "name"@)
            .otherwise(required_failure::<Icon>(j, "icon"@))
            .otherwise(required_failure::<ItemRarity>(j, "rarity"@))
            .otherwise(required_failure::<Class>(j, "requiredClass"@))
            .otherwise(indexed_failure::<AspectTier>(j, "tiers"@))
    }

    open spec fn reads(&self, j: JsonValue) -> bool {
        &&& required_reads(self.name, j, "name"@)
        &&& required_reads(self.icon, j, "icon"@)
        &&& required_reads(self.rarity, j, "rarity"@)
        &&& required_reads(self.required_class, j, "requiredClass"@)
        &&& indexed_reads(self.tiers@, j, "tiers"@)
    }

    fn decode(j: &Json) -> (r: Result<Self, DecodeError>) {
        let name = required::<String>(j, "name")?;
        let icon = required::<Icon>(j, "icon")?;
        let rarity = required::<ItemRarity>(j, "rarity")?;
        let required_class = required::<Class>(j, "requiredClass")?;
        let tiers = indexed::<AspectTier>(j, "tiers")?;
        Ok(Aspect { name, icon, rarity, required_class, tiers })
    }
}

impl Encode for Aspect {
    open spec fn valid(&self) -> bool {
        &&& self.name.valid()
        &&& self.icon.valid()
        &&& self.rarity.valid()
        &&& self.required_class.valid()
        &&& valid_items(self.tiers@)
    }

    open spec fn encoded(&self) -> JsonValue {
        JsonValue::Object(
            seq![
                ("name"@, self.name.encoded()),
                ("icon"@, self.icon.encoded()),
                ("rarity"@, self.rarity.encoded()),
                ("requiredClass"@, self.required_class.encoded()),
                ("tiers"@, encoded_sequence(self.tiers@)),
            ],
        )
    }

    fn encode(&self) -> (j: Json) {
        let j = ObjectWriter::new()
            .with("name", self.name.encode())
            .with("icon", self.icon.encode())
            .with("rarity", self.rarity.encode())
            .with("requiredClass", self.required_class.encode())
            .with("tiers", encode_sequence(&self.tiers))
            .done();
        assert(j@->Object_0 =~= self.encoded()->Object_0);
        j
    }

    proof fn lemma_read_back(&self) {
        let j = self.encoded();
        let members = j->Object_0;
        reveal_strlit("name");
        assert("name"@.len() == 4 && "name"@[0] == 'n');
        reveal_strlit("icon");
        assert("icon"@.len() == 4 && "icon"@[0] == 'i');
        reveal_strlit("rarity");
        assert("rarity"@.len() == 6 && "rarity"@[0] == 'r');
        reveal_strlit("requiredClass");
        assert("requiredClass"@.len() == 13 && "requiredClass"@[0] == 'r');
        reveal_strlit("tiers");
        assert("tiers"@.len() == 5 && "tiers"@[0] == 't');
        lemma_member_at(members, "name"@, 0);
        lemma_required_read_back(&self.name, j, "name"@);
        lemma_member_at(members, "icon"@, 1);
        lemma_required_read_back(&self.icon, j, "icon"@);
        lemma_member_at(members, "rarity"@, 2);
        lemma_required_read_back(&self.rarity, j, "rarity"@);
        lemma_member_at(members, "requiredClass"@, 3);
        lemma_required_read_back(&self.required_class, j, "requiredClass"@);
        lemma_member_at(members, "tiers"@, 4);
        assert(self.tiers@.len() == self.tiers.len());
        lemma_indexed_read_back(self.tiers@, j, "tiers"@);
    }

    proof fn lemma_one_reading(&self, other: &Self, j: JsonValue) {
        lemma_required_one_reading(&self.name, &other.name, j, "name"@);
        lemma_required_one_reading(&self.icon, &other.icon, j, "icon"@);
        lemma_required_one_reading(&self.rarity, &other.rarity, j, "rarity"@);
        lemma_required_one_reading(&self.required_class, &other.required_class, j, "requiredClass"@);
        lemma_indexed_one_reading(self.tiers@, other.tiers@, j, "tiers"@);
    }

    proof fn lemma_read_is_valid(&self, j: JsonValue) {
        lemma_required_is_valid(&self.name, j, "name"@);
        lemma_required_is_valid(&self.icon, j, "icon"@);
        lemma_required_is_valid(&self.rarity, j, "rarity"@);
        lemma_required_is_valid(&self.required_class, j, "requiredClass"@);
        lemma_indexed_is_valid(self.tiers@, j, "tiers"@);
    }
}

/// One tier of an aspect.
#[derive(Clone, Debug, PartialEq)]
pub struct AspectTier {
    pub threshold: u64,
    pub description: Vec<String>,
}

impl Decode for AspectTier {
    open spec fn failure(j: JsonValue) -> Option<DecodeFault> {
        required_failure::<u64>(j, "threshold"@)
            .otherwise(required_failure::<Vec<String>>(j, "description"@))
    }

    open spec fn reads(&self, j: JsonValue) -> bool {
        &&& required_reads(self.threshold, j, "threshold"@)
        &&& required_reads(self.description, j, "description"@)
    }

    fn decode(j: &Json) -> (r: Result<Self, DecodeError>) {
        let threshold = required::<u64>(j, "threshold")?;
        let description = required::<Vec<String>>(j, "description")?;
        Ok(AspectTier { threshold, description })
    }
}

impl Encode for AspectTier {
    open spec fn valid(&self) -> bool {
        &&& self.threshold.valid()
        &&& self.description.valid()
    }

    open spec fn encoded(&self) -> JsonValue {
        JsonValue::Object(
            seq![
                ("threshold"@, self.threshold.encoded()),
                ("description"@, self.description.encoded()),
            ],
        )
    }

    fn encode(&self) -> (j: Json) {
        let j = ObjectWriter::new()
            .with("threshold", self.threshold.encode())
            .with("description", self.description.encode())
            .done();
        assert(j@->Object_0 =~= self.encoded()->Object_0);
        j
    }

    proof fn lemma_read_back(&self) {
        let j = self.encoded();
        let members = j->Object_0;
        reveal_strlit("threshold");
        assert("threshold"@.len() == 9);
        reveal_strlit("description");
        assert("description"@.len() == 11);
        lemma_member_at(members, "threshold"@, 0);
        lemma_required_read_back(&self.threshold, j, "threshold"@);
        lemma_member_at(members, "description"@, 1);
        lemma_required_read_back(&self.description, j, "description"@);
    }

    proof fn lemma_one_reading(&self, other: &Self, j: JsonValue) {
        lemma_required_one_reading(&self.threshold, &other.threshold, j, "threshold"@);
        lemma_required_one_reading(&self.description, &other.description, j, "description"@);
    }

    proof fn lemma_read_is_valid(&self, j: JsonValue) {
        lemma_required_is_valid(&self.threshold, j, "threshold"@);
        lemma_required_is_valid(&self.description, j, "description"@);
    }
}

} // verus!
