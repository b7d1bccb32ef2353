//! Items: their kinds, their statistics and the records that describe them.

use crate::classes::Class;
use crate::decode::{
    Decode, DecodeError, DecodeFault, Distinct, ErrorKind, fault, integer_of, Otherwise, Pair, plain_fault, Quad,
    SetItem, under,
};
use crate::encode::{
    Encode, encode_option, encoded_items, encoded_option, lemma_defaulted_is_valid, lemma_defaulted_one_reading,
    lemma_defaulted_read_back, lemma_filled_is_valid, lemma_filled_one_reading, lemma_optional_is_valid,
    lemma_optional_one_reading, lemma_optional_read_back, lemma_required_is_valid, lemma_required_one_reading,
    lemma_required_read_back, valid_option, WriteItem,
};
use crate::fields::{
    defaulted, defaulted_failure, defaulted_reads, filled, filled_failure, filled_reads, optional,
    optional_failure, optional_reads, required, required_failure, required_reads, Scalar, tag_of,
};
use crate::json::{
    Json, JsonNumber, JsonValue, lemma_array_view, lemma_member_among, lemma_member_at, lemma_object_view,
    ObjectWriter,
};
use crate::player::Icon;
use crate::text::{same_text, Text};
use crate::tokens::Token;
use crate::writer::{lemma_all_members_writable, lemma_all_writable, render, rendered, writable};
use vstd::prelude::*;
use vstd::std_specs::convert::{FromSpecImpl, IntoSpec};
use vstd::string::StringExecFns;

verus! {

/// Where a page of results stands among all pages.
#[derive(Clone, Debug, PartialEq)]
pub struct ItemController {
    pub count: u64,
    pub pages: u64,
    pub previous: Option<u64>,
    pub current: u64,
    pub next: Option<u64>,
    pub links: LinksInfo,
}

impl Decode for ItemController {
    open spec fn failure(j: JsonValue) -> Option<DecodeFault> {
        required_failure::<u64>(j, "count"@)
            .otherwise(required_failure::<u64>(j, "pages"@))
            .otherwise(optional_failure::<u64>(j, "previous"@))
            .otherwise(required_failure::<u64>(j, "current"@))
            .otherwise(optional_failure::<u64>(j, "next"@))
            .otherwise(required_failure::<LinksInfo>(j, "links"@))
    }

    open spec fn reads(&self, j: JsonValue) -> bool {
        &&& required_reads(self.count, j, "count"@)
        &&& required_reads(self.pages, j, "pages"@)
        &&& optional_reads(self.previous, j, "previous"@)
        &&& required_reads(self.current, j, "current"@)
        &&& optional_reads(self.next, j, "next"@)
        &&& required_reads(self.links, j, "links"@)
    }

    fn decode(j: &Json) -> (r: Result<Self, DecodeError>) {
        let count = required::<u64>(j, "count")?;
        let pages = required::<u64>(j, "pages")?;
        let previous = optional::<u64>(j, "previous")?;
        let current = required::<u64>(j, "current")?;
        let next = optional::<u64>(j, "next")?;
        let links = required::<LinksInfo>(j, "links")?;
        Ok(ItemController { count, pages, previous, current, next, links })
    }
}

impl Encode for ItemController {
    open spec fn valid(&self) -> bool {
        &&& self.count.valid()
        &&& self.pages.valid()
        &&& valid_option(self.previous)
        &&& self.current.valid()
        &&& valid_option(self.next)
        &&& self.links.valid()
    }

    open spec fn encoded(&self) -> JsonValue {
        JsonValue::Object(
            seq![
                ("count"@, self.count.encoded()),
                ("pages"@, self.pages.encoded()),
                ("previous"@, encoded_option(self.previous)),
                ("current"@, self.current.encoded()),
                ("next"@, encoded_option(self.next)),
                ("links"@, self.links.encoded()),
            ],
        )
    }

    fn encode(&self) -> (j: Json) {
        let j = ObjectWriter::new()
            .with("count", self.count.encode())
            .with("pages", self.pages.encode())
            .with("previous", encode_option(&self.previous))
            .with("current", self.current.encode())
            .with("next", encode_option(&self.next))
            .with("links", self.links.encode())
            .done();
        assert(j@->Object_0 =~= self.encoded()->Object_0);
        j
    }

    proof fn lemma_read_back(&self) {
        let j = self.encoded();
        let members = j->Object_0;
        reveal_strlit("count");
        assert("count"@.len() == 5 && "count"@[0] == 'c');
        reveal_strlit("pages");
        assert("pages"@.len() == 5 && "pages"@[0] == 'p');
        reveal_strlit("previous");
        assert("previous"@.len() == 8 && "previous"@[0] == 'p');
        reveal_strlit("current");
        assert("current"@.len() == 7 && "current"@[0] == 'c');
        reveal_strlit("next");
        assert("next"@.len() == 4 && "next"@[0] == 'n');
        reveal_strlit("links");
        assert("links"@.len() == 5 && "links"@[0] == 'l');
        lemma_member_at(members, "count"@, 0);
        lemma_required_read_back(&self.count, j, "count"@);
        lemma_member_at(members, "pages"@, 1);
        lemma_required_read_back(&self.pages, j, "pages"@);
        lemma_member_at(members, "previous"@, 2);
        lemma_optional_read_back(self.previous, j, "previous"@);
        lemma_member_at(members, "current"@, 3);
        lemma_required_read_back(&self.current, j, "current"@);
        lemma_member_at(members, "next"@, 4);
        lemma_optional_read_back(self.next, j, "next"@);
        lemma_member_at(members, "links"@, 5);
        lemma_required_read_back(&self.links, j, "links"@);
    }

    proof fn lemma_one_reading(&self, other: &Self, j: JsonValue) {
        lemma_required_one_reading(&self.count, &other.count, j, "count"@);
        lemma_required_one_reading(&self.pages, &other.pages, j, "pages"@);
        lemma_optional_one_reading(self.previous, other.previous, j, "previous"@);
        lemma_required_one_reading(&self.current, &other.current, j, "current"@);
        lemma_optional_one_reading(self.next, other.next, j, "next"@);
        lemma_required_one_reading(&self.links, &other.links, j, "links"@);
    }

    proof fn lemma_read_is_valid(&self, j: JsonValue) {
        lemma_required_is_valid(&self.count, j, "count"@);
        lemma_required_is_valid(&self.pages, j, "pages"@);
        lemma_optional_is_valid(self.previous, j, "previous"@);
        lemma_required_is_valid(&self.current, j, "current"@);
        lemma_optional_is_valid(self.next, j, "next"@);
        lemma_required_is_valid(&self.links, j, "links"@);
    }
}

/// One page of items, by name.
#[derive(Clone, Debug, PartialEq)]
pub struct ItemResult {
    pub controller: ItemController,
    pub results: Vec<(String, Item)>,
}

impl Decode for ItemResult {
    open spec fn failure(j: JsonValue) -> Option<DecodeFault> {
        required_failure::<ItemController>(j, "controller"@)
            .otherwise(required_failure::<Vec<(String, Item)>>(j, "results"@))
    }

    open spec fn reads(&self, j: JsonValue) -> bool {
        &&& required_reads(self.controller, j, "controller"@)
        &&& required_reads(self.results, j, "results"@)
    }

    fn decode(j: &Json) -> (r: Result<Self, DecodeError>) {
        let controller = required::<ItemController>(j, "controller")?;
        let results = required::<Vec<(String, Item)>>(j, "results")?;
        Ok(ItemResult { controller, results })
    }
}

impl Encode for ItemResult {
    open spec fn valid(&self) -> bool {
        &&& self.controller.valid()
        &&& self.results.valid()
    }

    open spec fn encoded(&self) -> JsonValue {
        JsonValue::Object(
            seq![
                ("controller"@, self.controller.encoded()),
                ("results"@, self.results.encoded()),
            ],
        )
    }

    fn encode(&self) -> (j: Json) {
        let j = ObjectWriter::new()
            .with("controller", self.controller.encode())
            .with("results", self.results.encode())
            .done();
        assert(j@->Object_0 =~= self.encoded()->Object_0);
        j
    }

    proof fn lemma_read_back(&self) {
        let j = self.encoded();
        let members = j->Object_0;
        reveal_strlit("controller");
        assert("controller"@.len() == 10);
        reveal_strlit("results");
        assert("results"@.len() == 7);
        lemma_member_at(members, "controller"@, 0);
        lemma_required_read_back(&self.controller, j, "controller"@);
        lemma_member_at(members, "results"@, 1);
        lemma_required_read_back(&self.results, j, "results"@);
    }

    proof fn lemma_one_reading(&self, other: &Self, j: JsonValue) {
        lemma_required_one_reading(&self.controller, &other.controller, j, "controller"@);
        lemma_required_one_reading(&self.results, &other.results, j, "results"@);
    }

    proof fn lemma_read_is_valid(&self, j: JsonValue) {
        lemma_required_is_valid(&self.controller, j, "controller"@);
        lemma_required_is_valid(&self.results, j, "results"@);
    }
}

/// The links to the pages before and after a page.
#[derive(Clone, Debug, PartialEq)]
pub struct LinksInfo {
    pub previous: Option<String>,
    pub next: Option<String>,
}

impl Decode for LinksInfo {
    open spec fn failure(j: JsonValue) -> Option<DecodeFault> {
        optional_failure::<String>(j, "previous"@)
            .otherwise(optional_failure::<String>(j, "next"@))
    }

    open spec fn reads(&self, j: JsonValue) -> bool {
        &&& optional_reads(self.previous, j, "previous"@)
        &&& optional_reads(self.next, j, "next"@)
    }

    fn decode(j: &Json) -> (r: Result<Self, DecodeError>) {
        let previous = optional::<String>(j, "previous")?;
        let next = optional::<String>(j, "next")?;
        Ok(LinksInfo { previous, next })
    }
}

impl Encode for LinksInfo {
    open spec fn valid(&self) -> bool {
        &&& valid_option(self.previous)
        &&& valid_option(self.next)
    }

    open spec fn encoded(&self) -> JsonValue {
        JsonValue::Object(
            seq![
                ("previous"@, encoded_option(self.previous)),
                ("next"@, encoded_option(self.next)),
            ],
        )
    }

    fn encode(&self) -> (j: Json) {
        let j = ObjectWriter::new()
            .with("previous", encode_option(&self.previous))
            .with("next", encode_option(&self.next))
            .done();
        assert(j@->Object_0 =~= self.encoded()->Object_0);
        j
    }

    proof fn lemma_read_back(&self) {
        let j = self.encoded();
        let members = j->Object_0;
        reveal_strlit("previous");
        assert("previous"@.len() == 8);
        reveal_strlit("next");
        assert("next"@.len() == 4);
        lemma_member_at(members, "previous"@, 0);
        lemma_optional_read_back(self.previous, j, "previous"@);
        lemma_member_at(members, "next"@, 1);
        lemma_optional_read_back(self.next, j, "next"@);
    }

    proof fn lemma_one_reading(&self, other: &Self, j: JsonValue) {
        lemma_optional_one_reading(self.previous, other.previous, j, "previous"@);
        lemma_optional_one_reading(self.next, other.next, j, "next"@);
    }

    proof fn lemma_read_is_valid(&self, j: JsonValue) {
        lemma_optional_is_valid(self.previous, j, "previous"@);
        lemma_optional_is_valid(self.next, j, "next"@);
    }
}

/// An item: what all kinds of item have in common, and what its kind adds.
#[derive(Clone, Debug, PartialEq)]
pub struct Item {
    pub internal_name: String,
    /// Can only be none if item type is armour
    pub icon: Option<Icon>,
    pub indentified: Option<bool>,
    pub drop_restriction: Option<DropRestriction>,
    pub lore: Option<String>,
    pub item_type: ItemTypeInfo,
}

impl Decode for Item {
    open spec fn failure(j: JsonValue) -> Option<DecodeFault> {
        required_failure::<String>(j, "internalName"@)
            .otherwise(optional_failure::<Icon>(j, "icon"@))
            .otherwise(optional_failure::<bool>(j, "indentified"@))
            .otherwise(optional_failure::<DropRestriction>(j, "dropRestriction"@))
            .otherwise(optional_failure::<String>(j, "lore"@))
            .otherwise(<ItemTypeInfo as Decode>::failure(j))
    }

    open spec fn reads(&self, j: JsonValue) -> bool {
        &&& required_reads(self.internal_name, j, "internalName"@)
        &&& optional_reads(self.icon, j, "icon"@)
        &&& optional_reads(self.indentified, j, "indentified"@)
        &&& optional_reads(self.drop_restriction, j, "dropRestriction"@)
        &&& optional_reads(self.lore, j, "lore"@)
        &&& self.item_type.reads(j)
    }

    fn decode(j: &Json) -> (r: Result<Self, DecodeError>) {
        let internal_name = required::<String>(j, "internalName")?;
        let icon = optional::<Icon>(j, "icon")?;
        let indentified = optional::<bool>(j, "indentified")?;
        let drop_restriction = optional::<DropRestriction>(j, "dropRestriction")?;
        let lore = optional::<String>(j, "lore")?;
        let item_type = <ItemTypeInfo as Decode>::decode(j)?;
        Ok(Item { internal_name, icon, indentified, drop_restriction, lore, item_type })
    }
}

impl Encode for Item {
    open spec fn valid(&self) -> bool {
        &&& self.internal_name.valid()
        &&& valid_option(self.icon)
        &&& valid_option(self.indentified)
        &&& valid_option(self.drop_restriction)
        &&& valid_option(self.lore)
        &&& self.item_type.valid()
    }

    open spec fn encoded(&self) -> JsonValue {
        JsonValue::Object(
            seq![
                ("internalName"@, self.internal_name.encoded()),
                ("icon"@, encoded_option(self.icon)),
                ("indentified"@, encoded_option(self.indentified)),
                ("dropRestriction"@, encoded_option(self.drop_restriction)),
                ("lore"@, encoded_option(self.lore)),
            ] + self.item_type.members(),
        )
    }

    fn encode(&self) -> (j: Json) {
        let j = ObjectWriter::new()
            .with("internalName", self.internal_name.encode())
            .with("icon", encode_option(&self.icon))
            .with("indentified", encode_option(&self.indentified))
            .with("dropRestriction", encode_option(&self.drop_restriction))
            .with("lore", encode_option(&self.lore))
            .with_all(self.item_type.encode())
            .done();
        assert(j@->Object_0 =~= self.encoded()->Object_0);
        j
    }

    proof fn lemma_read_back(&self) {
        let j = self.encoded();
        let members = j->Object_0;
        reveal_strlit("internalName");
        assert("internalName"@.len() == 12 && "internalName"@[0] == 'i' && "internalName"@[2] == 't');
        reveal_strlit("icon");
        assert("icon"@.len() == 4 && "icon"@[0] == 'i' && "icon"@[2] == 'o');
        reveal_strlit("indentified");
        assert("indentified"@.len() == 11 && "indentified"@[0] == 'i' && "indentified"@[2] == 'd');
        reveal_strlit("dropRestriction");
        assert("dropRestriction"@.len() == 15 && "dropRestriction"@[0] == 'd' && "dropRestriction"@[2] == 'o');
        reveal_strlit("lore");
        assert("lore"@.len() == 4 && "lore"@[0] == 'l' && "lore"@[2] == 'r');
        reveal_strlit("type");
        assert("type"@.len() == 4 && "type"@[0] == 't' && "type"@[2] == 'p');
        reveal_strlit("requirements");
        assert("requirements"@.len() == 12 && "requirements"@[0] == 'r' && "requirements"@[2] == 'q');
        reveal_strlit("toolType");
        assert("toolType"@.len() == 8 && "toolType"@[0] == 't' && "toolType"@[2] == 'o');
        reveal_strlit("gatheringSpeed");
        assert("gatheringSpeed"@.len() == 14 && "gatheringSpeed"@[0] == 'g' && "gatheringSpeed"@[2] == 't');
        reveal_strlit("rarity");
        assert("rarity"@.len() == 6 && "rarity"@[0] == 'r' && "rarity"@[2] == 'r');
        reveal_strlit("accessoryType");
        assert("accessoryType"@.len() == 13 && "accessoryType"@[0] == 'a' && "accessoryType"@[2] == 'c');
        reveal_strlit("base");
        assert("base"@.len() == 4 && "base"@[0] == 'b' && "base"@[2] == 's');
        reveal_strlit("identifications");
        assert("identifications"@.len() == 15 && "identifications"@[0] == 'i' && "identifications"@[2] == 'e');
        reveal_strlit("restrictions");
        assert("restrictions"@.len() == 12 && "restrictions"@[0] == 'r' && "restrictions"@[2] == 's');
        reveal_strlit("dropMeta");
        assert("dropMeta"@.len() == 8 && "dropMeta"@[0] == 'd' && "dropMeta"@[2] == 'o');
        reveal_strlit("majorIds");
        assert("majorIds"@.len() == 8 && "majorIds"@[0] == 'm' && "majorIds"@[2] == 'j');
        reveal_strlit("tomeType");
        assert("tomeType"@.len() == 8 && "tomeType"@[0] == 't' && "tomeType"@[2] == 'm');
        reveal_strlit("raidReward");
        assert("raidReward"@.len() == 10 && "raidReward"@[0] == 'r' && "raidReward"@[2] == 'i');
        reveal_strlit("weaponType");
        assert("weaponType"@.len() == 10 && "weaponType"@[0] == 'w' && "weaponType"@[2] == 'a');
        reveal_strlit("attackSpeed");
        assert("attackSpeed"@.len() == 11 && "attackSpeed"@[0] == 'a' && "attackSpeed"@[2] == 't');
        reveal_strlit("averageDps");
        assert("averageDps"@.len() == 10 && "averageDps"@[0] == 'a' && "averageDps"@[2] == 'e');
        reveal_strlit("powderSlots");
        assert("powderSlots"@.len() == 11 && "powderSlots"@[0] == 'p' && "powderSlots"@[2] == 'w');
        reveal_strlit("allowCraftsman");
        assert("allowCraftsman"@.len() == 14 && "allowCraftsman"@[0] == 'a' && "allowCraftsman"@[2] == 'l');
        reveal_strlit("tier");
        assert("tier"@.len() == 4 && "tier"@[0] == 't' && "tier"@[2] == 'e');
        reveal_strlit("consumableOnlyIDs");
        assert("consumableOnlyIDs"@.len() == 17 && "consumableOnlyIDs"@[0] == 'c' && "consumableOnlyIDs"@[2] == 'n');
        reveal_strlit("itemOnlyIDs");
        assert("itemOnlyIDs"@.len() == 11 && "itemOnlyIDs"@[0] == 'i' && "itemOnlyIDs"@[2] == 'e');
        reveal_strlit("ingredientPositionModifiers");
        assert("ingredientPositionModifiers"@.len() == 27 && "ingredientPositionModifiers"@[0] == 'i');
        assert("ingredientPositionModifiers"@[2] == 'g');
        reveal_strlit("droppedBy");
        assert("droppedBy"@.len() == 9 && "droppedBy"@[0] == 'd' && "droppedBy"@[2] == 'o');
        reveal_strlit("armourType");
        assert("armourType"@.len() == 10 && "armourType"@[0] == 'a' && "armourType"@[2] == 'm');
        reveal_strlit("armourMaterial");
        assert("armourMaterial"@.len() == 14 && "armourMaterial"@[0] == 'a' && "armourMaterial"@[2] == 'm');
        reveal_strlit("armourColor");
        assert("armourColor"@.len() == 11 && "armourColor"@[0] == 'a' && "armourColor"@[2] == 'm');
        reveal_strlit("identified");
        assert("identified"@.len() == 10 && "identified"@[0] == 'i' && "identified"@[2] == 'e');
        reveal_strlit("craftable");
        assert("craftable"@.len() == 9 && "craftable"@[0] == 'c' && "craftable"@[2] == 'a');
        lemma_member_at(members, "internalName"@, 0);
        lemma_required_read_back(&self.internal_name, j, "internalName"@);
        lemma_member_at(members, "icon"@, 1);
        lemma_optional_read_back(self.icon, j, "icon"@);
        lemma_member_at(members, "indentified"@, 2);
        lemma_optional_read_back(self.indentified, j, "indentified"@);
        lemma_member_at(members, "dropRestriction"@, 3);
        lemma_optional_read_back(self.drop_restriction, j, "dropRestriction"@);
        lemma_member_at(members, "lore"@, 4);
        lemma_optional_read_back(self.lore, j, "lore"@);
        let own = members.subrange(0, 5);
        assert(members =~= own + self.item_type.members());
        assert(!ItemTypeInfo::owns("internalName"@));
        assert(!ItemTypeInfo::owns("icon"@));
        assert(!ItemTypeInfo::owns("indentified"@));
        assert(!ItemTypeInfo::owns("dropRestriction"@));
        assert(!ItemTypeInfo::owns("lore"@));
        self.item_type.lemma_read_back_among(own);
    }

    proof fn lemma_one_reading(&self, other: &Self, j: JsonValue) {
        lemma_required_one_reading(&self.internal_name, &other.internal_name, j, "internalName"@);
        lemma_optional_one_reading(self.icon, other.icon, j, "icon"@);
        lemma_optional_one_reading(self.indentified, other.indentified, j, "indentified"@);
        lemma_optional_one_reading(self.drop_restriction, other.drop_restriction, j, "dropRestriction"@);
        lemma_optional_one_reading(self.lore, other.lore, j, "lore"@);
        self.item_type.lemma_one_reading(&other.item_type, j);
    }

    proof fn lemma_read_is_valid(&self, j: JsonValue) {
        lemma_required_is_valid(&self.internal_name, j, "internalName"@);
        lemma_optional_is_valid(self.icon, j, "icon"@);
        lemma_optional_is_valid(self.indentified, j, "indentified"@);
        lemma_optional_is_valid(self.drop_restriction, j, "dropRestriction"@);
        lemma_optional_is_valid(self.lore, j, "lore"@);
        self.item_type.lemma_read_is_valid(j);
    }
}

/// A value that can be told from another of its type.
pub trait Same: Copy {
    /// Whether the two are the same value.
    fn same(self, other: Self) -> (r: bool)
        ensures
            r == (self == other),
    ;
}

impl Same for AttackSpeed {
    fn same(self, other: Self) -> (r: bool) {
        self == other
    }
}

impl Same for Identification {
    fn same(self, other: Self) -> (r: bool) {
        self == other
    }
}

impl Same for MajorId {
    fn same(self, other: Self) -> (r: bool) {
        self == other
    }
}

impl Same for Profession {
    fn same(self, other: Self) -> (r: bool) {
        self == other
    }
}

impl Same for Rarity {
    fn same(self, other: Self) -> (r: bool) {
        self == other
    }
}

impl Same for ItemType {
    fn same(self, other: Self) -> (r: bool) {
        self == other
    }
}

/// Whether `items` holds `item`.
pub fn holds<T: Same>(items: &Vec<T>, item: T) -> (r: bool)
    ensures
        r == items@.contains(item),
{
    let mut i: usize = 0;
    while i < items.len()
        invariant
            i <= items.len(),
            forall|k: int| 0 <= k < i ==> items@[k] != item,
        decreases items.len() - i,
    {
        if items[i].same(item) {
            return true;
        }
        i += 1;
    }
    false
}

/// Adds `item` to `items` unless it is there already, and says whether it
/// was added.
pub fn insert<T: Same>(items: &mut Vec<T>, item: T) -> (added: bool)
    ensures
        added == !old(items)@.contains(item),
        final(items)@ == if added {
            old(items)@.push(item)
        } else {
            old(items)@
        },
        old(items)@.no_duplicates() ==> final(items)@.no_duplicates(),
{
    if holds(items, item) {
        false
    } else {
        items.push(item);
        true
    }
}

/// What to look for in a search for items. Each list is a set: it holds
/// nothing twice as long as it is filled through the methods of the query.
#[derive(Debug, PartialEq)]
pub struct ItemQuery {
    pub attack_speed: Vec<AttackSpeed>,
    pub identifications: Vec<Identification>,
    /// The least and the greatest level of the items looked for.
    pub level_range: (u8, u8),
    pub major_ids: Vec<MajorId>,
    pub professions: Vec<Profession>,
    pub query: Option<String>,
    pub tier: Vec<Rarity>,
    pub item_type: Vec<ItemType>,
}

impl Clone for ItemQuery {
    fn clone(&self) -> (r: Self)
        ensures
            r.attack_speed@ == self.attack_speed@,
            r.identifications@ == self.identifications@,
            r.level_range == self.level_range,
            r.major_ids@ == self.major_ids@,
            r.professions@ == self.professions@,
            r.query == self.query,
            r.tier@ == self.tier@,
            r.item_type@ == self.item_type@,
    {
        ItemQuery {
            attack_speed: self.attack_speed.clone(),
            identifications: self.identifications.clone(),
            level_range: (self.level_range.0, self.level_range.1),
            major_ids: self.major_ids.clone(),
            professions: self.professions.clone(),
            query: self.query.clone(),
            tier: self.tier.clone(),
            item_type: self.item_type.clone(),
        }
    }
}

impl Decode for ItemQuery {
    open spec fn failure(j: JsonValue) -> Option<DecodeFault> {
        required_failure::<Distinct<AttackSpeed>>(j, "attackSpeed"@)
            .otherwise(required_failure::<Distinct<Identification>>(j, "identifications"@))
            .otherwise(required_failure::<Pair<u8, u8>>(j, "levelRange"@))
            .otherwise(required_failure::<Distinct<MajorId>>(j, "majorIds"@))
            .otherwise(required_failure::<Distinct<Profession>>(j, "professions"@))
            .otherwise(optional_failure::<String>(j, "query"@))
            .otherwise(required_failure::<Distinct<Rarity>>(j, "tier"@))
            .otherwise(required_failure::<Distinct<ItemType>>(j, "type"@))
    }

    open spec fn reads(&self, j: JsonValue) -> bool {
        &&& required_reads(Distinct(self.attack_speed), j, "attackSpeed"@)
        &&& required_reads(Distinct(self.identifications), j, "identifications"@)
        &&& required_reads(Pair(self.level_range), j, "levelRange"@)
        &&& required_reads(Distinct(self.major_ids), j, "majorIds"@)
        &&& required_reads(Distinct(self.professions), j, "professions"@)
        &&& optional_reads(self.query, j, "query"@)
        &&& required_reads(Distinct(self.tier), j, "tier"@)
        &&& required_reads(Distinct(self.item_type), j, "type"@)
    }

    fn decode(j: &Json) -> (r: Result<Self, DecodeError>) {
        let attack_speed = required::<Distinct<AttackSpeed>>(j, "attackSpeed")?.0;
        let identifications = required::<Distinct<Identification>>(j, "identifications")?.0;
        let level_range = required::<Pair<u8, u8>>(j, "levelRange")?.0;
        let major_ids = required::<Distinct<MajorId>>(j, "majorIds")?.0;
        let professions = required::<Distinct<Profession>>(j, "professions")?.0;
        let query = optional::<String>(j, "query")?;
        let tier = required::<Distinct<Rarity>>(j, "tier")?.0;
        let item_type = required::<Distinct<ItemType>>(j, "type")?.0;
        Ok(ItemQuery { attack_speed, identifications, level_range, major_ids, professions, query, tier, item_type })
    }
}

impl Encode for ItemQuery {
    open spec fn valid(&self) -> bool {
        &&& Distinct(self.attack_speed).valid()
        &&& Distinct(self.identifications).valid()
        &&& Pair(self.level_range).valid()
        &&& Distinct(self.major_ids).valid()
        &&& Distinct(self.professions).valid()
        &&& valid_option(self.query)
        &&& Distinct(self.tier).valid()
        &&& Distinct(self.item_type).valid()
    }

    open spec fn encoded(&self) -> JsonValue {
        JsonValue::Object(
            seq![
                ("attackSpeed"@, Distinct(self.attack_speed).encoded()),
                ("identifications"@, Distinct(self.identifications).encoded()),
                ("levelRange"@, Pair(self.level_range).encoded()),
                ("majorIds"@, Distinct(self.major_ids).encoded()),
                ("professions"@, Distinct(self.professions).encoded()),
                ("query"@, encoded_option(self.query)),
                ("tier"@, Distinct(self.tier).encoded()),
                ("type"@, Distinct(self.item_type).encoded()),
            ],
        )
    }

    fn encode(&self) -> (j: Json) {
        let j = ObjectWriter::new()
            .with("attackSpeed", self.attack_speed.encode())
            .with("identifications", self.identifications.encode())
            .with("levelRange", Pair(self.level_range).encode())
            .with("majorIds", self.major_ids.encode())
            .with("professions", self.professions.encode())
            .with("query", encode_option(&self.query))
            .with("tier", self.tier.encode())
            .with("type", self.item_type.encode())
            .done();
        assert(j@->Object_0 =~= self.encoded()->Object_0);
        j
    }

    proof fn lemma_read_back(&self) {
        let j = self.encoded();
        let members = j->Object_0;
        reveal_strlit("attackSpeed");
        assert("attackSpeed"@.len() == 11 && "attackSpeed"@[1] == 't');
        reveal_strlit("identifications");
        assert("identifications"@.len() == 15 && "identifications"@[1] == 'd');
        reveal_strlit("levelRange");
        assert("levelRange"@.len() == 10 && "levelRange"@[1] == 'e');
        reveal_strlit("majorIds");
        assert("majorIds"@.len() == 8 && "majorIds"@[1] == 'a');
        reveal_strlit("professions");
        assert("professions"@.len() == 11 && "professions"@[1] == 'r');
        reveal_strlit("query");
        assert("query"@.len() == 5 && "query"@[1] == 'u');
        reveal_strlit("tier");
        assert("tier"@.len() == 4 && "tier"@[1] == 'i');
        reveal_strlit("type");
        assert("type"@.len() == 4 && "type"@[1] == 'y');
        lemma_member_at(members, "attackSpeed"@, 0);
        lemma_required_read_back(&Distinct(self.attack_speed), j, "attackSpeed"@);
        lemma_member_at(members, "identifications"@, 1);
        lemma_required_read_back(&Distinct(self.identifications), j, "identifications"@);
        lemma_member_at(members, "levelRange"@, 2);
        lemma_required_read_back(&Pair(self.level_range), j, "levelRange"@);
        lemma_member_at(members, "majorIds"@, 3);
        lemma_required_read_back(&Distinct(self.major_ids), j, "majorIds"@);
        lemma_member_at(members, "professions"@, 4);
        lemma_required_read_back(&Distinct(self.professions), j, "professions"@);
        lemma_member_at(members, "query"@, 5);
        lemma_optional_read_back(self.query, j, "query"@);
        lemma_member_at(members, "tier"@, 6);
        lemma_required_read_back(&Distinct(self.tier), j, "tier"@);
        lemma_member_at(members, "type"@, 7);
        lemma_required_read_back(&Distinct(self.item_type), j, "type"@);
    }

    proof fn lemma_one_reading(&self, other: &Self, j: JsonValue) {
        lemma_required_one_reading(&Distinct(self.attack_speed), &Distinct(other.attack_speed), j, "attackSpeed"@);
        lemma_required_one_reading(
            &Distinct(self.identifications),
            &Distinct(other.identifications),
            j,
            "identifications"@,
        );
        lemma_required_one_reading(&Pair(self.level_range), &Pair(other.level_range), j, "levelRange"@);
        lemma_required_one_reading(&Distinct(self.major_ids), &Distinct(other.major_ids), j, "majorIds"@);
        lemma_required_one_reading(&Distinct(self.professions), &Distinct(other.professions), j, "professions"@);
        lemma_optional_one_reading(self.query, other.query, j, "query"@);
        lemma_required_one_reading(&Distinct(self.tier), &Distinct(other.tier), j, "tier"@);
        lemma_required_one_reading(&Distinct(self.item_type), &Distinct(other.item_type), j, "type"@);
    }

    proof fn lemma_read_is_valid(&self, j: JsonValue) {
        lemma_required_is_valid(&Distinct(self.attack_speed), j, "attackSpeed"@);
        lemma_required_is_valid(&Distinct(self.identifications), j, "identifications"@);
        lemma_required_is_valid(&Pair(self.level_range), j, "levelRange"@);
        lemma_required_is_valid(&Distinct(self.major_ids), j, "majorIds"@);
        lemma_required_is_valid(&Distinct(self.professions), j, "professions"@);
        lemma_optional_is_valid(self.query, j, "query"@);
        lemma_required_is_valid(&Distinct(self.tier), j, "tier"@);
        lemma_required_is_valid(&Distinct(self.item_type), j, "type"@);
    }
}

impl Default for ItemQuery {
    fn default() -> (r: Self)
        ensures
            r.is_unfiltered(),
            r.query is None,
    {
        ItemQuery {
            attack_speed: Vec::new(),
            identifications: Vec::new(),
            level_range: (0, 110),
            major_ids: Vec::new(),
            professions: Vec::new(),
            query: None,
            tier: Vec::new(),
            item_type: Vec::new(),
        }
    }
}

impl ItemQuery {
    /// Whether the query asks for nothing in particular: items of every kind
    /// and of every level from 0 to 110.
    pub open spec fn is_unfiltered(self) -> bool {
        &&& self.attack_speed@.len() == 0
        &&& self.identifications@.len() == 0
        &&& self.level_range == (0u8, 110u8)
        &&& self.major_ids@.len() == 0
        &&& self.professions@.len() == 0
        &&& self.tier@.len() == 0
        &&& self.item_type@.len() == 0
    }

    /// Whether no list of the query holds anything twice.
    pub open spec fn wf(self) -> bool {
        &&& self.attack_speed@.no_duplicates()
        &&& self.identifications@.no_duplicates()
        &&& self.major_ids@.no_duplicates()
        &&& self.professions@.no_duplicates()
        &&& self.tier@.no_duplicates()
        &&& self.item_type@.no_duplicates()
    }

    /// A query that asks for nothing in particular.
    #[inline]
    pub fn new() -> (r: Self)
        ensures
            r.is_unfiltered(),
            r.query is None,
            r.wf(),
    {
        Self::default()
    }

    /// Asks for items whose name holds `query`.
    #[inline]
    pub fn set_query(&mut self, query: String)
        ensures
            *final(self) == (ItemQuery { query: Some(query), ..*old(self) }),
    {
        self.query = Some(query);
    }

    /// Asks for items of at most the level `max_lvl`.
    #[inline]
    pub fn set_max_level(&mut self, max_lvl: u8)
        ensures
            *final(self) == (ItemQuery { level_range: (old(self).level_range.0, max_lvl), ..*old(self) }),
    {
        self.level_range.1 = max_lvl;
    }

    /// Asks for items of at least the level `min_lvl`.
    #[inline]
    pub fn set_min_level(&mut self, min_lvl: u8)
        ensures
            *final(self) == (ItemQuery { level_range: (min_lvl, old(self).level_range.1), ..*old(self) }),
    {
        self.level_range.0 = min_lvl;
    }

    /// Asks for items of the rarity or tier `tier`, and says whether the query did not
    /// ask for it before.
    #[inline]
    pub fn add_tier<R: Into<Rarity>>(&mut self, tier: R) -> (added: bool)
        ensures
            *final(self) == (ItemQuery { tier: final(self).tier, ..*old(self) }),
            old(self).wf() ==> final(self).wf(),
            R::obeys_into_spec() ==> added == !old(self).tier@.contains(tier.into_spec()),
            R::obeys_into_spec() ==> final(self).tier@ == if added {
                old(self).tier@.push(tier.into_spec())
            } else {
                old(self).tier@
            },
    {
        insert(&mut self.tier, tier.into())
    }

    /// Asks for items of the kind `item_type`, and says whether the query did not
    /// ask for it before.
    #[inline]
    pub fn add_item_type<K: Into<ItemType>>(&mut self, item_type: K) -> (added: bool)
        ensures
            *final(self) == (ItemQuery { item_type: final(self).item_type, ..*old(self) }),
            old(self).wf() ==> final(self).wf(),
            K::obeys_into_spec() ==> added == !old(self).item_type@.contains(item_type.into_spec()),
            K::obeys_into_spec() ==> final(self).item_type@ == if added {
                old(self).item_type@.push(item_type.into_spec())
            } else {
                old(self).item_type@
            },
    {
        insert(&mut self.item_type, item_type.into())
    }

    /// Asks for items that change the statistic `ident`, and says whether the query did not
    /// ask for it before.
    #[inline]
    pub fn add_identification<I: Into<Identification>>(&mut self, ident: I) -> (added: bool)
        ensures
            *final(self) == (ItemQuery { identifications: final(self).identifications, ..*old(self) }),
            old(self).wf() ==> final(self).wf(),
            I::obeys_into_spec() ==> added == !old(self).identifications@.contains(ident.into_spec()),
            I::obeys_into_spec() ==> final(self).identifications@ == if added {
                old(self).identifications@.push(ident.into_spec())
            } else {
                old(self).identifications@
            },
    {
        insert(&mut self.identifications, ident.into())
    }

    /// Asks for items of the profession `prof`, and says whether the query did not
    /// ask for it before.
    #[inline]
    pub fn add_profession<P: Into<Profession>>(&mut self, prof: P) -> (added: bool)
        ensures
            *final(self) == (ItemQuery { professions: final(self).professions, ..*old(self) }),
            old(self).wf() ==> final(self).wf(),
            P::obeys_into_spec() ==> added == !old(self).professions@.contains(prof.into_spec()),
            P::obeys_into_spec() ==> final(self).professions@ == if added {
                old(self).professions@.push(prof.into_spec())
            } else {
                old(self).professions@
            },
    {
        insert(&mut self.professions, prof.into())
    }

    /// Asks for items with the major identification `id`, and says whether the query did not
    /// ask for it before.
    #[inline]
    pub fn add_major_id<M: Into<MajorId>>(&mut self, id: M) -> (added: bool)
        ensures
            *final(self) == (ItemQuery { major_ids: final(self).major_ids, ..*old(self) }),
            old(self).wf() ==> final(self).wf(),
            M::obeys_into_spec() ==> added == !old(self).major_ids@.contains(id.into_spec()),
            M::obeys_into_spec() ==> final(self).major_ids@ == if added {
                old(self).major_ids@.push(id.into_spec())
            } else {
                old(self).major_ids@
            },
    {
        insert(&mut self.major_ids, id.into())
    }

    /// Asks for weapons of the attack speed `speed`, and says whether the query did not
    /// ask for it before.
    #[inline]
    pub fn add_attack_speed<S: Into<AttackSpeed>>(&mut self, speed: S) -> (added: bool)
        ensures
            *final(self) == (ItemQuery { attack_speed: final(self).attack_speed, ..*old(self) }),
            old(self).wf() ==> final(self).wf(),
            S::obeys_into_spec() ==> added == !old(self).attack_speed@.contains(speed.into_spec()),
            S::obeys_into_spec() ==> final(self).attack_speed@ == if added {
                old(self).attack_speed@.push(speed.into_spec())
            } else {
                old(self).attack_speed@
            },
    {
        insert(&mut self.attack_speed, speed.into())
    }

    /// A query that asks for items whose name holds `query`, and for nothing
    /// else in particular.
    #[inline]
    pub fn with_query<Q: Text>(query: Q) -> (r: Self)
        ensures
            r.is_unfiltered(),
            r.wf(),
            r.query matches Some(text) && text@ == query.text(),
    {
        let mut s = Self::new();
        s.set_query(query.into_string());
        s
    }
}

impl ItemQuery {
    /// The text that the query is sent as: the compact JSON text of what the
    /// query is written as.
    pub fn request_body(&self) -> (r: String)
        ensures
            r@ == rendered(self.encoded()),
    {
        let j = self.encode();
        proof {
            self.lemma_writable();
        }
        match render(&j) {
            Some(text) => text,
            None => String::new(),
        }
    }

    /// What a query is written as holds text and whole numbers only.
    pub proof fn lemma_writable(&self)
        ensures
            writable(self.encoded()),
    {
        let members = self.encoded()->Object_0;
        assert forall|k: int| 0 <= k < members.len() implies writable(#[trigger] members[k].1) by {
            lemma_tokens_writable(self.attack_speed@);
            lemma_tokens_writable(self.identifications@);
            lemma_tokens_writable(self.major_ids@);
            lemma_tokens_writable(self.professions@);
            let tiers = encoded_items(self.tier@);
            assert forall|i: int| 0 <= i < tiers.len() implies writable(#[trigger] tiers[i]) by {
            }
            lemma_all_writable(tiers);
            let kinds = encoded_items(self.item_type@);
            assert forall|i: int| 0 <= i < kinds.len() implies writable(#[trigger] kinds[i]) by {
            }
            lemma_all_writable(kinds);
            let range = Pair(self.level_range).encoded()->Array_0;
            assert forall|i: int| 0 <= i < range.len() implies writable(#[trigger] range[i]) by {
            }
            lemma_all_writable(range);
        }
        lemma_all_members_writable(members);
    }
}

/// Tokens are written as strings, which can be written as text.
pub proof fn lemma_tokens_writable<E: Token + Copy>(tokens: Seq<E>)
    ensures
        writable(JsonValue::Array(encoded_items(tokens))),
{
    let items = encoded_items(tokens);
    assert forall|i: int| 0 <= i < items.len() implies writable(#[trigger] items[i]) by {
    }
    lemma_all_writable(items);
}
impl Item {
    /// The level that a character needs to use the item.
    pub fn required_level(&self) -> (r: u8)
        ensures
            r == self.item_type.level(),
    {
        match &self.item_type {
            ItemTypeInfo::Tool(x) => x.requirements.level,
            ItemTypeInfo::Accessory(x) => x.requirements.level,
            ItemTypeInfo::Tome(x) => x.requirements.level,
            ItemTypeInfo::Weapon(x) => x.requirements.level,
            ItemTypeInfo::Ingredient(x) => x.requirements.level,
            ItemTypeInfo::Charm(x) => x.requirements.level,
            ItemTypeInfo::Armour(x) => x.requirements.level,
            ItemTypeInfo::Material(x) => x.requirements.level,
        }
    }
}

/// What the kind of an item adds to it. The member `type` of the item says
/// which kind it is; what the kind adds stands beside it in the same object.
#[allow(clippy::large_enum_variant)]
#[derive(Clone, Debug, PartialEq)]
pub enum ItemTypeInfo {
    Tool(ToolInfo),
    Accessory(AccessoryInfo),
    Tome(TomeInfo),
    Weapon(WeaponInfo),
    Ingredient(IngredientInfo),
    Charm(CharmInfo),
    Armour(ArmourInfo),
    Material(MaterialInfo),
}

impl ItemTypeInfo {
    /// The level that a character needs to use an item of this kind.
    pub open spec fn level(self) -> u8 {
        match self {
            ItemTypeInfo::Tool(x) => x.requirements.level,
            ItemTypeInfo::Accessory(x) => x.requirements.level,
            ItemTypeInfo::Tome(x) => x.requirements.level,
            ItemTypeInfo::Weapon(x) => x.requirements.level,
            ItemTypeInfo::Ingredient(x) => x.requirements.level,
            ItemTypeInfo::Charm(x) => x.requirements.level,
            ItemTypeInfo::Armour(x) => x.requirements.level,
            ItemTypeInfo::Material(x) => x.requirements.level,
        }
    }

    /// The fault of reading `j` as the kind that the discriminator `tag`
    /// names.
    pub open spec fn variant_failure(tag: Seq<char>, j: JsonValue) -> Option<DecodeFault> {
        if tag == "tool"@ {
            ToolInfo::failure(j)
        } else if tag == "accessory"@ {
            AccessoryInfo::failure(j)
        } else if tag == "tome"@ {
            TomeInfo::failure(j)
        } else if tag == "weapon"@ {
            WeaponInfo::failure(j)
        } else if tag == "ingredient"@ {
            IngredientInfo::failure(j)
        } else if tag == "charm"@ {
            CharmInfo::failure(j)
        } else if tag == "armour"@ {
            ArmourInfo::failure(j)
        } else if tag == "material"@ {
            MaterialInfo::failure(j)
        } else {
            Some(fault(ErrorKind::UnknownTag, tag))
        }
    }

    /// Whether `self` is what `j` stands for as the kind that the
    /// discriminator `tag` names.
    pub open spec fn variant_reads(self, tag: Seq<char>, j: JsonValue) -> bool {
        if tag == "tool"@ {
            self matches ItemTypeInfo::Tool(x) && x.reads(j)
        } else if tag == "accessory"@ {
            self matches ItemTypeInfo::Accessory(x) && x.reads(j)
        } else if tag == "tome"@ {
            self matches ItemTypeInfo::Tome(x) && x.reads(j)
        } else if tag == "weapon"@ {
            self matches ItemTypeInfo::Weapon(x) && x.reads(j)
        } else if tag == "ingredient"@ {
            self matches ItemTypeInfo::Ingredient(x) && x.reads(j)
        } else if tag == "charm"@ {
            self matches ItemTypeInfo::Charm(x) && x.reads(j)
        } else if tag == "armour"@ {
            self matches ItemTypeInfo::Armour(x) && x.reads(j)
        } else if tag == "material"@ {
            self matches ItemTypeInfo::Material(x) && x.reads(j)
        } else {
            false
        }
    }
}

impl Decode for ItemTypeInfo {
    open spec fn failure(j: JsonValue) -> Option<DecodeFault> {
        required_failure::<String>(j, "type"@).otherwise(Self::variant_failure(tag_of(j, "type"@), j))
    }

    open spec fn reads(&self, j: JsonValue) -> bool {
        &&& required_failure::<String>(j, "type"@) is None
        &&& self.variant_reads(tag_of(j, "type"@), j)
    }

    fn decode(j: &Json) -> (r: Result<Self, DecodeError>) {
        let tag = required::<String>(j, "type")?;
        let tag = tag.as_str();
        if same_text(tag, "tool") {
            Ok(ItemTypeInfo::Tool(ToolInfo::decode(j)?))
        } else if same_text(tag, "accessory") {
            Ok(ItemTypeInfo::Accessory(AccessoryInfo::decode(j)?))
        } else if same_text(tag, "tome") {
            Ok(ItemTypeInfo::Tome(TomeInfo::decode(j)?))
        } else if same_text(tag, "weapon") {
            Ok(ItemTypeInfo::Weapon(WeaponInfo::decode(j)?))
        } else if same_text(tag, "ingredient") {
            Ok(ItemTypeInfo::Ingredient(IngredientInfo::decode(j)?))
        } else if same_text(tag, "charm") {
            Ok(ItemTypeInfo::Charm(CharmInfo::decode(j)?))
        } else if same_text(tag, "armour") {
            Ok(ItemTypeInfo::Armour(ArmourInfo::decode(j)?))
        } else if same_text(tag, "material") {
            Ok(ItemTypeInfo::Material(MaterialInfo::decode(j)?))
        } else {
            Err(DecodeError::new(ErrorKind::UnknownTag, tag))
        }
    }
}

/// What a material adds to an item.
#[derive(Clone, Debug, PartialEq)]
pub struct MaterialInfo {
    pub requirements: LevelOnlyRequirements,
    pub tier: IngredientTier,
    pub identified: bool,
    pub craftable: Vec<CraftedItemType>,
}

impl Decode for MaterialInfo {
    open spec fn failure(j: JsonValue) -> Option<DecodeFault> {
        required_failure::<LevelOnlyRequirements>(j, "requirements"@)
            .otherwise(required_failure::<IngredientTier>(j, "tier"@))
            .otherwise(required_failure::<bool>(j, "identified"@))
            .otherwise(required_failure::<Distinct<CraftedItemType>>(j, "craftable"@))
    }

    open spec fn reads(&self, j: JsonValue) -> bool {
        &&& required_reads(self.requirements, j, "requirements"@)
        &&& required_reads(self.tier, j, "tier"@)
        &&& required_reads(self.identified, j, "identified"@)
        &&& required_reads(Distinct(self.craftable), j, "craftable"@)
    }

    fn decode(j: &Json) -> (r: Result<Self, DecodeError>) {
        let requirements = required::<LevelOnlyRequirements>(j, "requirements")?;
        let tier = required::<IngredientTier>(j, "tier")?;
        let identified = required::<bool>(j, "identified")?;
        let craftable = required::<Distinct<CraftedItemType>>(j, "craftable")?.0;
        Ok(MaterialInfo { requirements, tier, identified, craftable })
    }
}

impl MaterialInfo {
    /// Whether a record of this type reads the member `name`.
    pub open spec fn owns(name: Seq<char>) -> bool {
        name == "requirements"@ || name == "tier"@ || name == "identified"@ || name == "craftable"@
    }

    /// The members that the record is written as.
    pub open spec fn members(&self) -> Seq<(Seq<char>, JsonValue)> {
        seq![
            ("requirements"@, self.requirements.encoded()),
            ("tier"@, self.tier.encoded()),
            ("identified"@, self.identified.encoded()),
            ("craftable"@, Distinct(self.craftable).encoded()),
        ]
    }

    /// What the record is written as is read as the record, also where its
    /// members come after others, as long as the record reads none of those.
    pub proof fn lemma_read_back_among(&self, before: Seq<(Seq<char>, JsonValue)>)
        requires
            self.valid(),
            forall|k: int| 0 <= k < before.len() ==> !Self::owns(#[trigger] before[k].0),
        ensures
            Self::failure(JsonValue::Object(before + self.members())) is None,
            self.reads(JsonValue::Object(before + self.members())),
    {
        let members = self.members();
        let j = JsonValue::Object(before + members);
        reveal_strlit("requirements");
        assert("requirements"@.len() == 12);
        reveal_strlit("tier");
        assert("tier"@.len() == 4);
        reveal_strlit("identified");
        assert("identified"@.len() == 10);
        reveal_strlit("craftable");
        assert("craftable"@.len() == 9);
        lemma_member_among(before, members, "requirements"@, 0);
        lemma_required_read_back(&self.requirements, j, "requirements"@);
        lemma_member_among(before, members, "tier"@, 1);
        lemma_required_read_back(&self.tier, j, "tier"@);
        lemma_member_among(before, members, "identified"@, 2);
        lemma_required_read_back(&self.identified, j, "identified"@);
        lemma_member_among(before, members, "craftable"@, 3);
        lemma_required_read_back(&Distinct(self.craftable), j, "craftable"@);
    }
}

impl Encode for MaterialInfo {
    open spec fn valid(&self) -> bool {
        &&& self.requirements.valid()
        &&& self.tier.valid()
        &&& self.identified.valid()
        &&& Distinct(self.craftable).valid()
    }

    open spec fn encoded(&self) -> JsonValue {
        JsonValue::Object(self.members())
    }

    fn encode(&self) -> (j: Json) {
        let j = ObjectWriter::new()
            .with("requirements", self.requirements.encode())
            .with("tier", self.tier.encode())
            .with("identified", self.identified.encode())
            .with("craftable", self.craftable.encode())
            .done();
        assert(j@->Object_0 =~= self.encoded()->Object_0);
        j
    }

    proof fn lemma_read_back(&self) {
        assert(Seq::<(Seq<char>, JsonValue)>::empty() + self.members() =~= self.members());
        self.lemma_read_back_among(Seq::empty());
    }

    proof fn lemma_one_reading(&self, other: &Self, j: JsonValue) {
        lemma_required_one_reading(&self.requirements, &other.requirements, j, "requirements"@);
        lemma_required_one_reading(&self.tier, &other.tier, j, "tier"@);
        lemma_required_one_reading(&self.identified, &other.identified, j, "identified"@);
        lemma_required_one_reading(&Distinct(self.craftable), &Distinct(other.craftable), j, "craftable"@);
    }

    proof fn lemma_read_is_valid(&self, j: JsonValue) {
        lemma_required_is_valid(&self.requirements, j, "requirements"@);
        lemma_required_is_valid(&self.tier, j, "tier"@);
        lemma_required_is_valid(&self.identified, j, "identified"@);
        lemma_required_is_valid(&Distinct(self.craftable), j, "craftable"@);
    }
}

/// What a piece of armour adds to an item.
#[derive(Clone, Debug, PartialEq)]
pub struct ArmourInfo {
    pub requirements: ItemRequirements,
    pub armour_type: ArmourType,
    pub rarity: ItemRarity,
    pub armour_material: Option<ArmourMaterial>,
    pub armour_color: Option<String>,
    pub drop_meta: Option<DropMeta>,
    pub restrictions: Option<Restrictions>,
    pub major_ids: Vec<(MajorId, String)>,
    pub base: Vec<(Identification, IdentificationStats)>,
    pub identifications: Vec<(Identification, IdentificationStats)>,
    pub powder_slots: u8,
    pub allow_craftsman: bool,
}

impl Decode for ArmourInfo {
    open spec fn failure(j: JsonValue) -> Option<DecodeFault> {
        required_failure::<ItemRequirements>(j, "requirements"@)
            .otherwise(required_failure::<ArmourType>(j, "armourType"@))
            .otherwise(required_failure::<ItemRarity>(j, "rarity"@))
            .otherwise(optional_failure::<ArmourMaterial>(j, "armourMaterial"@))
            .otherwise(optional_failure::<String>(j, "armourColor"@))
            .otherwise(optional_failure::<DropMeta>(j, "dropMeta"@))
            .otherwise(optional_failure::<Restrictions>(j, "restrictions"@))
            .otherwise(defaulted_failure::<Vec<(MajorId, String)>>(j, "majorIds"@))
            .otherwise(defaulted_failure::<Vec<(Identification, IdentificationStats)>>(j, "base"@))
            .otherwise(defaulted_failure::<Vec<(Identification, IdentificationStats)>>(j, "identifications"@))
            .otherwise(filled_failure::<u8>(j, "powderSlots"@))
            .otherwise(filled_failure::<bool>(j, "allowCraftsman"@))
    }

    open spec fn reads(&self, j: JsonValue) -> bool {
        &&& required_reads(self.requirements, j, "requirements"@)
        &&& required_reads(self.armour_type, j, "armourType"@)
        &&& required_reads(self.rarity, j, "rarity"@)
        &&& optional_reads(self.armour_material, j, "armourMaterial"@)
        &&& optional_reads(self.armour_color, j, "armourColor"@)
        &&& optional_reads(self.drop_meta, j, "dropMeta"@)
        &&& optional_reads(self.restrictions, j, "restrictions"@)
        &&& defaulted_reads(self.major_ids, j, "majorIds"@)
        &&& defaulted_reads(self.base, j, "base"@)
        &&& defaulted_reads(self.identifications, j, "identifications"@)
        &&& filled_reads(self.powder_slots, j, "powderSlots"@)
        &&& filled_reads(self.allow_craftsman, j, "allowCraftsman"@)
    }

    fn decode(j: &Json) -> (r: Result<Self, DecodeError>) {
        let requirements = required::<ItemRequirements>(j, "requirements")?;
        let armour_type = required::<ArmourType>(j, "armourType")?;
        let rarity = required::<ItemRarity>(j, "rarity")?;
        let armour_material = optional::<ArmourMaterial>(j, "armourMaterial")?;
        let armour_color = optional::<String>(j, "armourColor")?;
        let drop_meta = optional::<DropMeta>(j, "dropMeta")?;
        let restrictions = optional::<Restrictions>(j, "restrictions")?;
        let major_ids = defaulted::<Vec<(MajorId, String)>>(j, "majorIds")?;
        let base = defaulted::<Vec<(Identification, IdentificationStats)>>(j, "base")?;
        let identifications = defaulted::<Vec<(Identification, IdentificationStats)>>(j, "identifications")?;
        let powder_slots = filled::<u8>(j, "powderSlots")?;
        let allow_craftsman = filled::<bool>(j, "allowCraftsman")?;
        Ok(
            ArmourInfo {
                requirements,
                armour_type,
                rarity,
                armour_material,
                armour_color,
                drop_meta,
                restrictions,
                major_ids,
                base,
                identifications,
                powder_slots,
                allow_craftsman,
            }
        )
    }
}

impl ArmourInfo {
    /// Whether a record of this type reads the member `name`.
    pub open spec fn owns(name: Seq<char>) -> bool {
        name == "requirements"@
            || name == "armourType"@
            || name == "rarity"@
            || name == "armourMaterial"@
            || name == "armourColor"@
            || name == "dropMeta"@
            || name == "restrictions"@
            || name == "majorIds"@
            || name == "base"@
            || name == "identifications"@
            || name == "powderSlots"@
            || name == "allowCraftsman"@
    }

    /// The members that the record is written as.
    pub open spec fn members(&self) -> Seq<(Seq<char>, JsonValue)> {
        seq![
            ("requirements"@, self.requirements.encoded()),
            ("armourType"@, self.armour_type.encoded()),
            ("rarity"@, self.rarity.encoded()),
            ("armourMaterial"@, encoded_option(self.armour_material)),
            ("armourColor"@, encoded_option(self.armour_color)),
            ("dropMeta"@, encoded_option(self.drop_meta)),
            ("restrictions"@, encoded_option(self.restrictions)),
            ("majorIds"@, self.major_ids.encoded()),
            ("base"@, self.base.encoded()),
            ("identifications"@, self.identifications.encoded()),
            ("powderSlots"@, self.powder_slots.encoded()),
            ("allowCraftsman"@, self.allow_craftsman.encoded()),
        ]
    }

    /// What the record is written as is read as the record, also where its
    /// members come after others, as long as the record reads none of those.
    pub proof fn lemma_read_back_among(&self, before: Seq<(Seq<char>, JsonValue)>)
        requires
            self.valid(),
            forall|k: int| 0 <= k < before.len() ==> !Self::owns(#[trigger] before[k].0),
        ensures
            Self::failure(JsonValue::Object(before + self.members())) is None,
            self.reads(JsonValue::Object(before + self.members())),
    {
        let members = self.members();
        let j = JsonValue::Object(before + members);
        reveal_strlit("requirements");
        assert("requirements"@.len() == 12 && "requirements"@[2] == 'q');
        reveal_strlit("armourType");
        assert("armourType"@.len() == 10 && "armourType"@[2] == 'm');
        reveal_strlit("rarity");
        assert("rarity"@.len() == 6 && "rarity"@[2] == 'r');
        reveal_strlit("armourMaterial");
        assert("armourMaterial"@.len() == 14 && "armourMaterial"@[2] == 'm');
        reveal_strlit("armourColor");
        assert("armourColor"@.len() == 11 && "armourColor"@[2] == 'm');
        reveal_strlit("dropMeta");
        assert("dropMeta"@.len() == 8 && "dropMeta"@[2] == 'o');
        reveal_strlit("restrictions");
        assert("restrictions"@.len() == 12 && "restrictions"@[2] == 's');
        reveal_strlit("majorIds");
        assert("majorIds"@.len() == 8 && "majorIds"@[2] == 'j');
        reveal_strlit("base");
        assert("base"@.len() == 4 && "base"@[2] == 's');
        reveal_strlit("identifications");
        assert("identifications"@.len() == 15 && "identifications"@[2] == 'e');
        reveal_strlit("powderSlots");
        assert("powderSlots"@.len() == 11 && "powderSlots"@[2] == 'w');
        reveal_strlit("allowCraftsman");
        assert("allowCraftsman"@.len() == 14 && "allowCraftsman"@[2] == 'l');
        lemma_member_among(before, members, "requirements"@, 0);
        lemma_required_read_back(&self.requirements, j, "requirements"@);
        lemma_member_among(before, members, "armourType"@, 1);
        lemma_required_read_back(&self.armour_type, j, "armourType"@);
        lemma_member_among(before, members, "rarity"@, 2);
        lemma_required_read_back(&self.rarity, j, "rarity"@);
        lemma_member_among(before, members, "armourMaterial"@, 3);
        lemma_optional_read_back(self.armour_material, j, "armourMaterial"@);
        lemma_member_among(before, members, "armourColor"@, 4);
        lemma_optional_read_back(self.armour_color, j, "armourColor"@);
        lemma_member_among(before, members, "dropMeta"@, 5);
        lemma_optional_read_back(self.drop_meta, j, "dropMeta"@);
        lemma_member_among(before, members, "restrictions"@, 6);
        lemma_optional_read_back(self.restrictions, j, "restrictions"@);
        lemma_member_among(before, members, "majorIds"@, 7);
        lemma_defaulted_read_back(&self.major_ids, j, "majorIds"@);
        lemma_member_among(before, members, "base"@, 8);
        lemma_defaulted_read_back(&self.base, j, "base"@);
        lemma_member_among(before, members, "identifications"@, 9);
        lemma_defaulted_read_back(&self.identifications, j, "identifications"@);
        lemma_member_among(before, members, "powderSlots"@, 10);
        lemma_defaulted_read_back(&self.powder_slots, j, "powderSlots"@);
        lemma_member_among(before, members, "allowCraftsman"@, 11);
        lemma_defaulted_read_back(&self.allow_craftsman, j, "allowCraftsman"@);
    }
}

impl Encode for ArmourInfo {
    open spec fn valid(&self) -> bool {
        &&& self.requirements.valid()
        &&& self.armour_type.valid()
        &&& self.rarity.valid()
        &&& valid_option(self.armour_material)
        &&& valid_option(self.armour_color)
        &&& valid_option(self.drop_meta)
        &&& valid_option(self.restrictions)
        &&& self.major_ids.valid()
        &&& self.base.valid()
        &&& self.identifications.valid()
        &&& self.powder_slots.valid()
        &&& self.allow_craftsman.valid()
    }

    open spec fn encoded(&self) -> JsonValue {
        JsonValue::Object(self.members())
    }

    fn encode(&self) -> (j: Json) {
        let j = ObjectWriter::new()
            .with("requirements", self.requirements.encode())
            .with("armourType", self.armour_type.encode())
            .with("rarity", self.rarity.encode())
            .with("armourMaterial", encode_option(&self.armour_material))
            .with("armourColor", encode_option(&self.armour_color))
            .with("dropMeta", encode_option(&self.drop_meta))
            .with("restrictions", encode_option(&self.restrictions))
            .with("majorIds", self.major_ids.encode())
            .with("base", self.base.encode())
            .with("identifications", self.identifications.encode())
            .with("powderSlots", self.powder_slots.encode())
            .with("allowCraftsman", self.allow_craftsman.encode())
            .done();
        assert(j@->Object_0 =~= self.encoded()->Object_0);
        j
    }

    proof fn lemma_read_back(&self) {
        assert(Seq::<(Seq<char>, JsonValue)>::empty() + self.members() =~= self.members());
        self.lemma_read_back_among(Seq::empty());
    }

    proof fn lemma_one_reading(&self, other: &Self, j: JsonValue) {
        lemma_required_one_reading(&self.requirements, &other.requirements, j, "requirements"@);
        lemma_required_one_reading(&self.armour_type, &other.armour_type, j, "armourType"@);
        lemma_required_one_reading(&self.rarity, &other.rarity, j, "rarity"@);
        lemma_optional_one_reading(self.armour_material, other.armour_material, j, "armourMaterial"@);
        lemma_optional_one_reading(self.armour_color, other.armour_color, j, "armourColor"@);
        lemma_optional_one_reading(self.drop_meta, other.drop_meta, j, "dropMeta"@);
        lemma_optional_one_reading(self.restrictions, other.restrictions, j, "restrictions"@);
        lemma_defaulted_one_reading(&self.major_ids, &other.major_ids, j, "majorIds"@);
        lemma_defaulted_one_reading(&self.base, &other.base, j, "base"@);
        lemma_defaulted_one_reading(&self.identifications, &other.identifications, j, "identifications"@);
        lemma_filled_one_reading(&self.powder_slots, &other.powder_slots, j, "powderSlots"@);
        lemma_filled_one_reading(&self.allow_craftsman, &other.allow_craftsman, j, "allowCraftsman"@);
    }

    proof fn lemma_read_is_valid(&self, j: JsonValue) {
        lemma_required_is_valid(&self.requirements, j, "requirements"@);
        lemma_required_is_valid(&self.armour_type, j, "armourType"@);
        lemma_required_is_valid(&self.rarity, j, "rarity"@);
        lemma_optional_is_valid(self.armour_material, j, "armourMaterial"@);
        lemma_optional_is_valid(self.armour_color, j, "armourColor"@);
        lemma_optional_is_valid(self.drop_meta, j, "dropMeta"@);
        lemma_optional_is_valid(self.restrictions, j, "restrictions"@);
        lemma_defaulted_is_valid(&self.major_ids, j, "majorIds"@);
        lemma_defaulted_is_valid(&self.base, j, "base"@);
        lemma_defaulted_is_valid(&self.identifications, j, "identifications"@);
        lemma_filled_is_valid(&self.powder_slots, j, "powderSlots"@);
        lemma_filled_is_valid(&self.allow_craftsman, j, "allowCraftsman"@);
    }
}

/// What a weapon adds to an item.
#[derive(Clone, Debug, PartialEq)]
pub struct WeaponInfo {
    pub requirements: ItemRequirements,
    pub rarity: ItemRarity,
    pub weapon_type: WeaponType,
    pub attack_speed: AttackSpeed,
    pub base: Vec<(Identification, IdentificationStats)>,
    pub identifications: Vec<(Identification, IdentificationStats)>,
    pub major_ids: Vec<(MajorId, String)>,
    pub drop_meta: Option<DropMeta>,
    pub restrictions: Option<Restrictions>,
    pub average_dps: Option<u64>,
    pub powder_slots: u8,
    pub allow_craftsman: bool,
}

impl Decode for WeaponInfo {
    open spec fn failure(j: JsonValue) -> Option<DecodeFault> {
        required_failure::<ItemRequirements>(j, "requirements"@)
            .otherwise(required_failure::<ItemRarity>(j, "rarity"@))
            .otherwise(required_failure::<WeaponType>(j, "weaponType"@))
            .otherwise(required_failure::<AttackSpeed>(j, "attackSpeed"@))
            .otherwise(defaulted_failure::<Vec<(Identification, IdentificationStats)>>(j, "base"@))
            .otherwise(defaulted_failure::<Vec<(Identification, IdentificationStats)>>(j, "identifications"@))
            .otherwise(defaulted_failure::<Vec<(MajorId, String)>>(j, "majorIds"@))
            .otherwise(optional_failure::<DropMeta>(j, "dropMeta"@))
            .otherwise(optional_failure::<Restrictions>(j, "restrictions"@))
            .otherwise(optional_failure::<u64>(j, "averageDps"@))
            .otherwise(filled_failure::<u8>(j, "powderSlots"@))
            .otherwise(filled_failure::<bool>(j, "allowCraftsman"@))
    }

    open spec fn reads(&self, j: JsonValue) -> bool {
        &&& required_reads(self.requirements, j, "requirements"@)
        &&& required_reads(self.rarity, j, "rarity"@)
        &&& required_reads(self.weapon_type, j, "weaponType"@)
        &&& required_reads(self.attack_speed, j, "attackSpeed"@)
        &&& defaulted_reads(self.base, j, "base"@)
        &&& defaulted_reads(self.identifications, j, "identifications"@)
        &&& defaulted_reads(self.major_ids, j, "majorIds"@)
        &&& optional_reads(self.drop_meta, j, "dropMeta"@)
        &&& optional_reads(self.restrictions, j, "restrictions"@)
        &&& optional_reads(self.average_dps, j, "averageDps"@)
        &&& filled_reads(self.powder_slots, j, "powderSlots"@)
        &&& filled_reads(self.allow_craftsman, j, "allowCraftsman"@)
    }

    fn decode(j: &Json) -> (r: Result<Self, DecodeError>) {
        let requirements = required::<ItemRequirements>(j, "requirements")?;
        let rarity = required::<ItemRarity>(j, "rarity")?;
        let weapon_type = required::<WeaponType>(j, "weaponType")?;
        let attack_speed = required::<AttackSpeed>(j, "attackSpeed")?;
        let base = defaulted::<Vec<(Identification, IdentificationStats)>>(j, "base")?;
        let identifications = defaulted::<Vec<(Identification, IdentificationStats)>>(j, "identifications")?;
        let major_ids = defaulted::<Vec<(MajorId, String)>>(j, "majorIds")?;
        let drop_meta = optional::<DropMeta>(j, "dropMeta")?;
        let restrictions = optional::<Restrictions>(j, "restrictions")?;
        let average_dps = optional::<u64>(j, "averageDps")?;
        let powder_slots = filled::<u8>(j, "powderSlots")?;
        let allow_craftsman = filled::<bool>(j, "allowCraftsman")?;
        Ok(
            WeaponInfo {
                requirements,
                rarity,
                weapon_type,
                attack_speed,
                base,
                identifications,
                major_ids,
                drop_meta,
                restrictions,
                average_dps,
                powder_slots,
                allow_craftsman,
            }
        )
    }
}

impl WeaponInfo {
    /// Whether a record of this type reads the member `name`.
    pub open spec fn owns(name: Seq<char>) -> bool {
        name == "requirements"@
            || name == "rarity"@
            || name == "weaponType"@
            || name == "attackSpeed"@
            || name == "base"@
            || name == "identifications"@
            || name == "majorIds"@
            || name == "dropMeta"@
            || name == "restrictions"@
            || name == "averageDps"@
            || name == "powderSlots"@
            || name == "allowCraftsman"@
    }

    /// The members that the record is written as.
    pub open spec fn members(&self) -> Seq<(Seq<char>, JsonValue)> {
        seq![
            ("requirements"@, self.requirements.encoded()),
            ("rarity"@, self.rarity.encoded()),
            ("weaponType"@, self.weapon_type.encoded()),
            ("attackSpeed"@, self.attack_speed.encoded()),
            ("base"@, self.base.encoded()),
            ("identifications"@, self.identifications.encoded()),
            ("majorIds"@, self.major_ids.encoded()),
            ("dropMeta"@, encoded_option(self.drop_meta)),
            ("restrictions"@, encoded_option(self.restrictions)),
            ("averageDps"@, encoded_option(self.average_dps)),
            ("powderSlots"@, self.powder_slots.encoded()),
            ("allowCraftsman"@, self.allow_craftsman.encoded()),
        ]
    }

    /// What the record is written as is read as the record, also where its
    /// members come after others, as long as the record reads none of those.
    pub proof fn lemma_read_back_among(&self, before: Seq<(Seq<char>, JsonValue)>)
        requires
            self.valid(),
            forall|k: int| 0 <= k < before.len() ==> !Self::owns(#[trigger] before[k].0),
        ensures
            Self::failure(JsonValue::Object(before + self.members())) is None,
            self.reads(JsonValue::Object(before + self.members())),
    {
        let members = self.members();
        let j = JsonValue::Object(before + members);
        reveal_strlit("requirements");
        assert("requirements"@.len() == 12 && "requirements"@[2] == 'q');
        reveal_strlit("rarity");
        assert("rarity"@.len() == 6 && "rarity"@[2] == 'r');
        reveal_strlit("weaponType");
        assert("weaponType"@.len() == 10 && "weaponType"@[2] == 'a');
        reveal_strlit("attackSpeed");
        assert("attackSpeed"@.len() == 11 && "attackSpeed"@[2] == 't');
        reveal_strlit("base");
        assert("base"@.len() == 4 && "base"@[2] == 's');
        reveal_strlit("identifications");
        assert("identifications"@.len() == 15 && "identifications"@[2] == 'e');
        reveal_strlit("majorIds");
        assert("majorIds"@.len() == 8 && "majorIds"@[2] == 'j');
        reveal_strlit("dropMeta");
        assert("dropMeta"@.len() == 8 && "dropMeta"@[2] == 'o');
        reveal_strlit("restrictions");
        assert("restrictions"@.len() == 12 && "restrictions"@[2] == 's');
        reveal_strlit("averageDps");
        assert("averageDps"@.len() == 10 && "averageDps"@[2] == 'e');
        reveal_strlit("powderSlots");
        assert("powderSlots"@.len() == 11 && "powderSlots"@[2] == 'w');
        reveal_strlit("allowCraftsman");
        assert("allowCraftsman"@.len() == 14 && "allowCraftsman"@[2] == 'l');
        lemma_member_among(before, members, "requirements"@, 0);
        lemma_required_read_back(&self.requirements, j, "requirements"@);
        lemma_member_among(before, members, "rarity"@, 1);
        lemma_required_read_back(&self.rarity, j, "rarity"@);
        lemma_member_among(before, members, "weaponType"@, 2);
        lemma_required_read_back(&self.weapon_type, j, "weaponType"@);
        lemma_member_among(before, members, "attackSpeed"@, 3);
        lemma_required_read_back(&self.attack_speed, j, "attackSpeed"@);
        lemma_member_among(before, members, "base"@, 4);
        lemma_defaulted_read_back(&self.base, j, "base"@);
        lemma_member_among(before, members, "identifications"@, 5);
        lemma_defaulted_read_back(&self.identifications, j, "identifications"@);
        lemma_member_among(before, members, "majorIds"@, 6);
        lemma_defaulted_read_back(&self.major_ids, j, "majorIds"@);
        lemma_member_among(before, members, "dropMeta"@, 7);
        lemma_optional_read_back(self.drop_meta, j, "dropMeta"@);
        lemma_member_among(before, members, "restrictions"@, 8);
        lemma_optional_read_back(self.restrictions, j, "restrictions"@);
        lemma_member_among(before, members, "averageDps"@, 9);
        lemma_optional_read_back(self.average_dps, j, "averageDps"@);
        lemma_member_among(before, members, "powderSlots"@, 10);
        lemma_defaulted_read_back(&self.powder_slots, j, "powderSlots"@);
        lemma_member_among(before, members, "allowCraftsman"@, 11);
        lemma_defaulted_read_back(&self.allow_craftsman, j, "allowCraftsman"@);
    }
}

impl Encode for WeaponInfo {
    open spec fn valid(&self) -> bool {
        &&& self.requirements.valid()
        &&& self.rarity.valid()
        &&& self.weapon_type.valid()
        &&& self.attack_speed.valid()
        &&& self.base.valid()
        &&& self.identifications.valid()
        &&& self.major_ids.valid()
        &&& valid_option(self.drop_meta)
        &&& valid_option(self.restrictions)
        &&& valid_option(self.average_dps)
        &&& self.powder_slots.valid()
        &&& self.allow_craftsman.valid()
    }

    open spec fn encoded(&self) -> JsonValue {
        JsonValue::Object(self.members())
    }

    fn encode(&self) -> (j: Json) {
        let j = ObjectWriter::new()
            .with("requirements", self.requirements.encode())
            .with("rarity", self.rarity.encode())
            .with("weaponType", self.weapon_type.encode())
            .with("attackSpeed", self.attack_speed.encode())
            .with("base", self.base.encode())
            .with("identifications", self.identifications.encode())
            .with("majorIds", self.major_ids.encode())
            .with("dropMeta", encode_option(&self.drop_meta))
            .with("restrictions", encode_option(&self.restrictions))
            .with("averageDps", encode_option(&self.average_dps))
            .with("powderSlots", self.powder_slots.encode())
            .with("allowCraftsman", self.allow_craftsman.encode())
            .done();
        assert(j@->Object_0 =~= self.encoded()->Object_0);
        j
    }

    proof fn lemma_read_back(&self) {
        assert(Seq::<(Seq<char>, JsonValue)>::empty() + self.members() =~= self.members());
        self.lemma_read_back_among(Seq::empty());
    }

    proof fn lemma_one_reading(&self, other: &Self, j: JsonValue) {
        lemma_required_one_reading(&self.requirements, &other.requirements, j, "requirements"@);
        lemma_required_one_reading(&self.rarity, &other.rarity, j, "rarity"@);
        lemma_required_one_reading(&self.weapon_type, &other.weapon_type, j, "weaponType"@);
        lemma_required_one_reading(&self.attack_speed, &other.attack_speed, j, "attackSpeed"@);
        lemma_defaulted_one_reading(&self.base, &other.base, j, "base"@);
        lemma_defaulted_one_reading(&self.identifications, &other.identifications, j, "identifications"@);
        lemma_defaulted_one_reading(&self.major_ids, &other.major_ids, j, "majorIds"@);
        lemma_optional_one_reading(self.drop_meta, other.drop_meta, j, "dropMeta"@);
        lemma_optional_one_reading(self.restrictions, other.restrictions, j, "restrictions"@);
        lemma_optional_one_reading(self.average_dps, other.average_dps, j, "averageDps"@);
        lemma_filled_one_reading(&self.powder_slots, &other.powder_slots, j, "powderSlots"@);
        lemma_filled_one_reading(&self.allow_craftsman, &other.allow_craftsman, j, "allowCraftsman"@);
    }

    proof fn lemma_read_is_valid(&self, j: JsonValue) {
        lemma_required_is_valid(&self.requirements, j, "requirements"@);
        lemma_required_is_valid(&self.rarity, j, "rarity"@);
        lemma_required_is_valid(&self.weapon_type, j, "weaponType"@);
        lemma_required_is_valid(&self.attack_speed, j, "attackSpeed"@);
        lemma_defaulted_is_valid(&self.base, j, "base"@);
        lemma_defaulted_is_valid(&self.identifications, j, "identifications"@);
        lemma_defaulted_is_valid(&self.major_ids, j, "majorIds"@);
        lemma_optional_is_valid(self.drop_meta, j, "dropMeta"@);
        lemma_optional_is_valid(self.restrictions, j, "restrictions"@);
        lemma_optional_is_valid(self.average_dps, j, "averageDps"@);
        lemma_filled_is_valid(&self.powder_slots, j, "powderSlots"@);
        lemma_filled_is_valid(&self.allow_craftsman, j, "allowCraftsman"@);
    }
}

/// What an accessory adds to an item.
#[derive(Clone, Debug, PartialEq)]
pub struct AccessoryInfo {
    pub requirements: ItemRequirements,
    pub rarity: ItemRarity,
    pub accessory_type: AccessoryType,
    pub base: Vec<(Identification, IdentificationStats)>,
    pub identifications: Vec<(Identification, IdentificationStats)>,
    pub restrictions: Option<Restrictions>,
    pub drop_meta: Option<DropMeta>,
    pub major_ids: Vec<(MajorId, String)>,
}

impl Decode for AccessoryInfo {
    open spec fn failure(j: JsonValue) -> Option<DecodeFault> {
        required_failure::<ItemRequirements>(j, "requirements"@)
            .otherwise(required_failure::<ItemRarity>(j, "rarity"@))
            .otherwise(required_failure::<AccessoryType>(j, "accessoryType"@))
            .otherwise(defaulted_failure::<Vec<(Identification, IdentificationStats)>>(j, "base"@))
            .otherwise(defaulted_failure::<Vec<(Identification, IdentificationStats)>>(j, "identifications"@))
            .otherwise(optional_failure::<Restrictions>(j, "restrictions"@))
            .otherwise(optional_failure::<DropMeta>(j, "dropMeta"@))
            .otherwise(defaulted_failure::<Vec<(MajorId, String)>>(j, "majorIds"@))
    }

    open spec fn reads(&self, j: JsonValue) -> bool {
        &&& required_reads(self.requirements, j, "requirements"@)
        &&& required_reads(self.rarity, j, "rarity"@)
        &&& required_reads(self.accessory_type, j, "accessoryType"@)
        &&& defaulted_reads(self.base, j, "base"@)
        &&& defaulted_reads(self.identifications, j, "identifications"@)
        &&& optional_reads(self.restrictions, j, "restrictions"@)
        &&& optional_reads(self.drop_meta, j, "dropMeta"@)
        &&& defaulted_reads(self.major_ids, j, "majorIds"@)
    }

    fn decode(j: &Json) -> (r: Result<Self, DecodeError>) {
        let requirements = required::<ItemRequirements>(j, "requirements")?;
        let rarity = required::<ItemRarity>(j, "rarity")?;
        let accessory_type = required::<AccessoryType>(j, "accessoryType")?;
        let base = defaulted::<Vec<(Identification, IdentificationStats)>>(j, "base")?;
        let identifications = defaulted::<Vec<(Identification, IdentificationStats)>>(j, "identifications")?;
        let restrictions = optional::<Restrictions>(j, "restrictions")?;
        let drop_meta = optional::<DropMeta>(j, "dropMeta")?;
        let major_ids = defaulted::<Vec<(MajorId, String)>>(j, "majorIds")?;
        Ok(
            AccessoryInfo {
                requirements,
                rarity,
                accessory_type,
                base,
                identifications,
                restrictions,
                drop_meta,
                major_ids,
            }
        )
    }
}

impl AccessoryInfo {
    /// Whether a record of this type reads the member `name`.
    pub open spec fn owns(name: Seq<char>) -> bool {
        name == "requirements"@
            || name == "rarity"@
            || name == "accessoryType"@
            || name == "base"@
            || name == "identifications"@
            || name == "restrictions"@
            || name == "dropMeta"@
            || name == "majorIds"@
    }

    /// The members that the record is written as.
    pub open spec fn members(&self) -> Seq<(Seq<char>, JsonValue)> {
        seq![
            ("requirements"@, self.requirements.encoded()),
            ("rarity"@, self.rarity.encoded()),
            ("accessoryType"@, self.accessory_type.encoded()),
            ("base"@, self.base.encoded()),
            ("identifications"@, self.identifications.encoded()),
            ("restrictions"@, encoded_option(self.restrictions)),
            ("dropMeta"@, encoded_option(self.drop_meta)),
            ("majorIds"@, self.major_ids.encoded()),
        ]
    }

    /// What the record is written as is read as the record, also where its
    /// members come after others, as long as the record reads none of those.
    pub proof fn lemma_read_back_among(&self, before: Seq<(Seq<char>, JsonValue)>)
        requires
            self.valid(),
            forall|k: int| 0 <= k < before.len() ==> !Self::owns(#[trigger] before[k].0),
        ensures
            Self::failure(JsonValue::Object(before + self.members())) is None,
            self.reads(JsonValue::Object(before + self.members())),
    {
        let members = self.members();
        let j = JsonValue::Object(before + members);
        reveal_strlit("requirements");
        assert("requirements"@.len() == 12 && "requirements"@[2] == 'q');
        reveal_strlit("rarity");
        assert("rarity"@.len() == 6 && "rarity"@[2] == 'r');
        reveal_strlit("accessoryType");
        assert("accessoryType"@.len() == 13 && "accessoryType"@[2] == 'c');
        reveal_strlit("base");
        assert("base"@.len() == 4 && "base"@[2] == 's');
        reveal_strlit("identifications");
        assert("identifications"@.len() == 15 && "identifications"@[2] == 'e');
        reveal_strlit("restrictions");
        assert("restrictions"@.len() == 12 && "restrictions"@[2] == 's');
        reveal_strlit("dropMeta");
        assert("dropMeta"@.len() == 8 && "dropMeta"@[2] == 'o');
        reveal_strlit("majorIds");
        assert("majorIds"@.len() == 8 && "majorIds"@[2] == 'j');
        lemma_member_among(before, members, "requirements"@, 0);
        lemma_required_read_back(&self.requirements, j, "requirements"@);
        lemma_member_among(before, members, "rarity"@, 1);
        lemma_required_read_back(&self.rarity, j, "rarity"@);
        lemma_member_among(before, members, "accessoryType"@, 2);
        lemma_required_read_back(&self.accessory_type, j, "accessoryType"@);
        lemma_member_among(before, members, "base"@, 3);
        lemma_defaulted_read_back(&self.base, j, "base"@);
        lemma_member_among(before, members, "identifications"@, 4);
        lemma_defaulted_read_back(&self.identifications, j, "identifications"@);
        lemma_member_among(before, members, "restrictions"@, 5);
        lemma_optional_read_back(self.restrictions, j, "restrictions"@);
        lemma_member_among(before, members, "dropMeta"@, 6);
        lemma_optional_read_back(self.drop_meta, j, "dropMeta"@);
        lemma_member_among(before, members, "majorIds"@, 7);
        lemma_defaulted_read_back(&self.major_ids, j, "majorIds"@);
    }
}

impl Encode for AccessoryInfo {
    open spec fn valid(&self) -> bool {
        &&& self.requirements.valid()
        &&& self.rarity.valid()
        &&& self.accessory_type.valid()
        &&& self.base.valid()
        &&& self.identifications.valid()
        &&& valid_option(self.restrictions)
        &&& valid_option(self.drop_meta)
        &&& self.major_ids.valid()
    }

    open spec fn encoded(&self) -> JsonValue {
        JsonValue::Object(self.members())
    }

    fn encode(&self) -> (j: Json) {
        let j = ObjectWriter::new()
            .with("requirements", self.requirements.encode())
            .with("rarity", self.rarity.encode())
            .with("accessoryType", self.accessory_type.encode())
            .with("base", self.base.encode())
            .with("identifications", self.identifications.encode())
            .with("restrictions", encode_option(&self.restrictions))
            .with("dropMeta", encode_option(&self.drop_meta))
            .with("majorIds", self.major_ids.encode())
            .done();
        assert(j@->Object_0 =~= self.encoded()->Object_0);
        j
    }

    proof fn lemma_read_back(&self) {
        assert(Seq::<(Seq<char>, JsonValue)>::empty() + self.members() =~= self.members());
        self.lemma_read_back_among(Seq::empty());
    }

    proof fn lemma_one_reading(&self, other: &Self, j: JsonValue) {
        lemma_required_one_reading(&self.requirements, &other.requirements, j, "requirements"@);
        lemma_required_one_reading(&self.rarity, &other.rarity, j, "rarity"@);
        lemma_required_one_reading(&self.accessory_type, &other.accessory_type, j, "accessoryType"@);
        lemma_defaulted_one_reading(&self.base, &other.base, j, "base"@);
        lemma_defaulted_one_reading(&self.identifications, &other.identifications, j, "identifications"@);
        lemma_optional_one_reading(self.restrictions, other.restrictions, j, "restrictions"@);
        lemma_optional_one_reading(self.drop_meta, other.drop_meta, j, "dropMeta"@);
        lemma_defaulted_one_reading(&self.major_ids, &other.major_ids, j, "majorIds"@);
    }

    proof fn lemma_read_is_valid(&self, j: JsonValue) {
        lemma_required_is_valid(&self.requirements, j, "requirements"@);
        lemma_required_is_valid(&self.rarity, j, "rarity"@);
        lemma_required_is_valid(&self.accessory_type, j, "accessoryType"@);
        lemma_defaulted_is_valid(&self.base, j, "base"@);
        lemma_defaulted_is_valid(&self.identifications, j, "identifications"@);
        lemma_optional_is_valid(self.restrictions, j, "restrictions"@);
        lemma_optional_is_valid(self.drop_meta, j, "dropMeta"@);
        lemma_defaulted_is_valid(&self.major_ids, j, "majorIds"@);
    }
}

/// What a gathering tool adds to an item.
#[derive(Clone, Debug, PartialEq)]
pub struct ToolInfo {
    pub requirements: LevelOnlyRequirements,
    pub tool_type: ToolType,
    pub gathering_speed: u64,
    pub rarity: ItemRarity,
}

impl Decode for ToolInfo {
    open spec fn failure(j: JsonValue) -> Option<DecodeFault> {
        required_failure::<LevelOnlyRequirements>(j, "requirements"@)
            .otherwise(required_failure::<ToolType>(j, "toolType"@))
            .otherwise(required_failure::<u64>(j, "gatheringSpeed"@))
            .otherwise(required_failure::<ItemRarity>(j, "rarity"@))
    }

    open spec fn reads(&self, j: JsonValue) -> bool {
        &&& required_reads(self.requirements, j, "requirements"@)
        &&& required_reads(self.tool_type, j, "toolType"@)
        &&& required_reads(self.gathering_speed, j, "gatheringSpeed"@)
        &&& required_reads(self.rarity, j, "rarity"@)
    }

    fn decode(j: &Json) -> (r: Result<Self, DecodeError>) {
        let requirements = required::<LevelOnlyRequirements>(j, "requirements")?;
        let tool_type = required::<ToolType>(j, "toolType")?;
        let gathering_speed = required::<u64>(j, "gatheringSpeed")?;
        let rarity = required::<ItemRarity>(j, "rarity")?;
        Ok(ToolInfo { requirements, tool_type, gathering_speed, rarity })
    }
}

impl ToolInfo {
    /// Whether a record of this type reads the member `name`.
    pub open spec fn owns(name: Seq<char>) -> bool {
        name == "requirements"@ || name == "toolType"@ || name == "gatheringSpeed"@ || name == "rarity"@
    }

    /// The members that the record is written as.
    pub open spec fn members(&self) -> Seq<(Seq<char>, JsonValue)> {
        seq![
            ("requirements"@, self.requirements.encoded()),
            ("toolType"@, self.tool_type.encoded()),
            ("gatheringSpeed"@, self.gathering_speed.encoded()),
            ("rarity"@, self.rarity.encoded()),
        ]
    }

    /// What the record is written as is read as the record, also where its
    /// members come after others, as long as the record reads none of those.
    pub proof fn lemma_read_back_among(&self, before: Seq<(Seq<char>, JsonValue)>)
        requires
            self.valid(),
            forall|k: int| 0 <= k < before.len() ==> !Self::owns(#[trigger] before[k].0),
        ensures
            Self::failure(JsonValue::Object(before + self.members())) is None,
            self.reads(JsonValue::Object(before + self.members())),
    {
        let members = self.members();
        let j = JsonValue::Object(before + members);
        reveal_strlit("requirements");
        assert("requirements"@.len() == 12);
        reveal_strlit("toolType");
        assert("toolType"@.len() == 8);
        reveal_strlit("gatheringSpeed");
        assert("gatheringSpeed"@.len() == 14);
        reveal_strlit("rarity");
        assert("rarity"@.len() == 6);
        lemma_member_among(before, members, "requirements"@, 0);
        lemma_required_read_back(&self.requirements, j, "requirements"@);
        lemma_member_among(before, members, "toolType"@, 1);
        lemma_required_read_back(&self.tool_type, j, "toolType"@);
        lemma_member_among(before, members, "gatheringSpeed"@, 2);
        lemma_required_read_back(&self.gathering_speed, j, "gatheringSpeed"@);
        lemma_member_among(before, members, "rarity"@, 3);
        lemma_required_read_back(&self.rarity, j, "rarity"@);
    }
}

impl Encode for ToolInfo {
    open spec fn valid(&self) -> bool {
        &&& self.requirements.valid()
        &&& self.tool_type.valid()
        &&& self.gathering_speed.valid()
        &&& self.rarity.valid()
    }

    open spec fn encoded(&self) -> JsonValue {
        JsonValue::Object(self.members())
    }

    fn encode(&self) -> (j: Json) {
        let j = ObjectWriter::new()
            .with("requirements", self.requirements.encode())
            .with("toolType", self.tool_type.encode())
            .with("gatheringSpeed", self.gathering_speed.encode())
            .with("rarity", self.rarity.encode())
            .done();
        assert(j@->Object_0 =~= self.encoded()->Object_0);
        j
    }

    proof fn lemma_read_back(&self) {
        assert(Seq::<(Seq<char>, JsonValue)>::empty() + self.members() =~= self.members());
        self.lemma_read_back_among(Seq::empty());
    }

    proof fn lemma_one_reading(&self, other: &Self, j: JsonValue) {
        lemma_required_one_reading(&self.requirements, &other.requirements, j, "requirements"@);
        lemma_required_one_reading(&self.tool_type, &other.tool_type, j, "toolType"@);
        lemma_required_one_reading(&self.gathering_speed, &other.gathering_speed, j, "gatheringSpeed"@);
        lemma_required_one_reading(&self.rarity, &other.rarity, j, "rarity"@);
    }

    proof fn lemma_read_is_valid(&self, j: JsonValue) {
        lemma_required_is_valid(&self.requirements, j, "requirements"@);
        lemma_required_is_valid(&self.tool_type, j, "toolType"@);
        lemma_required_is_valid(&self.gathering_speed, j, "gatheringSpeed"@);
        lemma_required_is_valid(&self.rarity, j, "rarity"@);
    }
}

/// What a tome adds to an item.
#[derive(Clone, Debug, PartialEq)]
pub struct TomeInfo {
    pub requirements: LevelOnlyRequirements,
    pub rarity: ItemRarity,
    pub tome_type: TomeType,
    pub drop_meta: Option<DropMeta>,
    pub raid_reward: bool,
    pub restrictions: Option<Restrictions>,
    pub identifications: Vec<(Identification, IdentificationStats)>,
}

impl Decode for TomeInfo {
    open spec fn failure(j: JsonValue) -> Option<DecodeFault> {
        required_failure::<LevelOnlyRequirements>(j, "requirements"@)
            .otherwise(required_failure::<ItemRarity>(j, "rarity"@))
            .otherwise(required_failure::<TomeType>(j, "tomeType"@))
            .otherwise(optional_failure::<DropMeta>(j, "dropMeta"@))
            .otherwise(required_failure::<bool>(j, "raidReward"@))
            .otherwise(optional_failure::<Restrictions>(j, "restrictions"@))
            .otherwise(defaulted_failure::<Vec<(Identification, IdentificationStats)>>(j, "identifications"@))
    }

    open spec fn reads(&self, j: JsonValue) -> bool {
        &&& required_reads(self.requirements, j, "requirements"@)
        &&& required_reads(self.rarity, j, "rarity"@)
        &&& required_reads(self.tome_type, j, "tomeType"@)
        &&& optional_reads(self.drop_meta, j, "dropMeta"@)
        &&& required_reads(self.raid_reward, j, "raidReward"@)
        &&& optional_reads(self.restrictions, j, "restrictions"@)
        &&& defaulted_reads(self.identifications, j, "identifications"@)
    }

    fn decode(j: &Json) -> (r: Result<Self, DecodeError>) {
        let requirements = required::<LevelOnlyRequirements>(j, "requirements")?;
        let rarity = required::<ItemRarity>(j, "rarity")?;
        let tome_type = required::<TomeType>(j, "tomeType")?;
        let drop_meta = optional::<DropMeta>(j, "dropMeta")?;
        let raid_reward = required::<bool>(j, "raidReward")?;
        let restrictions = optional::<Restrictions>(j, "restrictions")?;
        let identifications = defaulted::<Vec<(Identification, IdentificationStats)>>(j, "identifications")?;
        Ok(TomeInfo { requirements, rarity, tome_type, drop_meta, raid_reward, restrictions, identifications })
    }
}

impl TomeInfo {
    /// Whether a record of this type reads the member `name`.
    pub open spec fn owns(name: Seq<char>) -> bool {
        name == "requirements"@
            || name == "rarity"@
            || name == "tomeType"@
            || name == "dropMeta"@
            || name == "raidReward"@
            || name == "restrictions"@
            || name == "identifications"@
    }

    /// The members that the record is written as.
    pub open spec fn members(&self) -> Seq<(Seq<char>, JsonValue)> {
        seq![
            ("requirements"@, self.requirements.encoded()),
            ("rarity"@, self.rarity.encoded()),
            ("tomeType"@, self.tome_type.encoded()),
            ("dropMeta"@, encoded_option(self.drop_meta)),
            ("raidReward"@, self.raid_reward.encoded()),
            ("restrictions"@, encoded_option(self.restrictions)),
            ("identifications"@, self.identifications.encoded()),
        ]
    }

    /// What the record is written as is read as the record, also where its
    /// members come after others, as long as the record reads none of those.
    pub proof fn lemma_read_back_among(&self, before: Seq<(Seq<char>, JsonValue)>)
        requires
            self.valid(),
            forall|k: int| 0 <= k < before.len() ==> !Self::owns(#[trigger] before[k].0),
        ensures
            Self::failure(JsonValue::Object(before + self.members())) is None,
            self.reads(JsonValue::Object(before + self.members())),
    {
        let members = self.members();
        let j = JsonValue::Object(before + members);
        reveal_strlit("requirements");
        assert("requirements"@.len() == 12 && "requirements"@[2] == 'q');
        reveal_strlit("rarity");
        assert("rarity"@.len() == 6 && "rarity"@[2] == 'r');
        reveal_strlit("tomeType");
        assert("tomeType"@.len() == 8 && "tomeType"@[2] == 'm');
        reveal_strlit("dropMeta");
        assert("dropMeta"@.len() == 8 && "dropMeta"@[2] == 'o');
        reveal_strlit("raidReward");
        assert("raidReward"@.len() == 10 && "raidReward"@[2] == 'i');
        reveal_strlit("restrictions");
        assert("restrictions"@.len() == 12 && "restrictions"@[2] == 's');
        reveal_strlit("identifications");
        assert("identifications"@.len() == 15 && "identifications"@[2] == 'e');
        lemma_member_among(before, members, "requirements"@, 0);
        lemma_required_read_back(&self.requirements, j, "requirements"@);
        lemma_member_among(before, members, "rarity"@, 1);
        lemma_required_read_back(&self.rarity, j, "rarity"@);
        lemma_member_among(before, members, "tomeType"@, 2);
        lemma_required_read_back(&self.tome_type, j, "tomeType"@);
        lemma_member_among(before, members, "dropMeta"@, 3);
        lemma_optional_read_back(self.drop_meta, j, "dropMeta"@);
        lemma_member_among(before, members, "raidReward"@, 4);
        lemma_required_read_back(&self.raid_reward, j, "raidReward"@);
        lemma_member_among(before, members, "restrictions"@, 5);
        lemma_optional_read_back(self.restrictions, j, "restrictions"@);
        lemma_member_among(before, members, "identifications"@, 6);
        lemma_defaulted_read_back(&self.identifications, j, "identifications"@);
    }
}

impl Encode for TomeInfo {
    open spec fn valid(&self) -> bool {
        &&& self.requirements.valid()
        &&& self.rarity.valid()
        &&& self.tome_type.valid()
        &&& valid_option(self.drop_meta)
        &&& self.raid_reward.valid()
        &&& valid_option(self.restrictions)
        &&& self.identifications.valid()
    }

    open spec fn encoded(&self) -> JsonValue {
        JsonValue::Object(self.members())
    }

    fn encode(&self) -> (j: Json) {
        let j = ObjectWriter::new()
            .with("requirements", self.requirements.encode())
            .with("rarity", self.rarity.encode())
            .with("tomeType", self.tome_type.encode())
            .with("dropMeta", encode_option(&self.drop_meta))
            .with("raidReward", self.raid_reward.encode())
            .with("restrictions", encode_option(&self.restrictions))
            .with("identifications", self.identifications.encode())
            .done();
        assert(j@->Object_0 =~= self.encoded()->Object_0);
        j
    }

    proof fn lemma_read_back(&self) {
        assert(Seq::<(Seq<char>, JsonValue)>::empty() + self.members() =~= self.members());
        self.lemma_read_back_among(Seq::empty());
    }

    proof fn lemma_one_reading(&self, other: &Self, j: JsonValue) {
        lemma_required_one_reading(&self.requirements, &other.requirements, j, "requirements"@);
        lemma_required_one_reading(&self.rarity, &other.rarity, j, "rarity"@);
        lemma_required_one_reading(&self.tome_type, &other.tome_type, j, "tomeType"@);
        lemma_optional_one_reading(self.drop_meta, other.drop_meta, j, "dropMeta"@);
        lemma_required_one_reading(&self.raid_reward, &other.raid_reward, j, "raidReward"@);
        lemma_optional_one_reading(self.restrictions, other.restrictions, j, "restrictions"@);
        lemma_defaulted_one_reading(&self.identifications, &other.identifications, j, "identifications"@);
    }

    proof fn lemma_read_is_valid(&self, j: JsonValue) {
        lemma_required_is_valid(&self.requirements, j, "requirements"@);
        lemma_required_is_valid(&self.rarity, j, "rarity"@);
        lemma_required_is_valid(&self.tome_type, j, "tomeType"@);
        lemma_optional_is_valid(self.drop_meta, j, "dropMeta"@);
        lemma_required_is_valid(&self.raid_reward, j, "raidReward"@);
        lemma_optional_is_valid(self.restrictions, j, "restrictions"@);
        lemma_defaulted_is_valid(&self.identifications, j, "identifications"@);
    }
}

/// What an ingredient adds to an item.
#[derive(Clone, Debug, PartialEq)]
pub struct IngredientInfo {
    pub requirements: IngredientRequirements,
    pub tier: IngredientTier,
    pub consumable_only_ids: ConsumableOnlyIds,
    pub item_only_ids: ItemOnlyIds,
    pub ingredient_position_modifiers: IngredientPositionModifiers,
    pub dropped_by: Vec<DropLocation>,
    pub identifications: Vec<(Identification, IdentificationStats)>,
}

impl Decode for IngredientInfo {
    open spec fn failure(j: JsonValue) -> Option<DecodeFault> {
        required_failure::<IngredientRequirements>(j, "requirements"@)
            .otherwise(required_failure::<IngredientTier>(j, "tier"@))
            .otherwise(required_failure::<ConsumableOnlyIds>(j, "consumableOnlyIDs"@))
            .otherwise(required_failure::<ItemOnlyIds>(j, "itemOnlyIDs"@))
            .otherwise(required_failure::<IngredientPositionModifiers>(j, "ingredientPositionModifiers"@))
            .otherwise(defaulted_failure::<Vec<DropLocation>>(j, "droppedBy"@))
            .otherwise(defaulted_failure::<Vec<(Identification, IdentificationStats)>>(j, "identifications"@))
    }

    open spec fn reads(&self, j: JsonValue) -> bool {
        &&& required_reads(self.requirements, j, "requirements"@)
        &&& required_reads(self.tier, j, "tier"@)
        &&& required_reads(self.consumable_only_ids, j, "consumableOnlyIDs"@)
        &&& required_reads(self.item_only_ids, j, "itemOnlyIDs"@)
        &&& required_reads(self.ingredient_position_modifiers, j, "ingredientPositionModifiers"@)
        &&& defaulted_reads(self.dropped_by, j, "droppedBy"@)
        &&& defaulted_reads(self.identifications, j, "identifications"@)
    }

    fn decode(j: &Json) -> (r: Result<Self, DecodeError>) {
        let requirements = required::<IngredientRequirements>(j, "requirements")?;
        let tier = required::<IngredientTier>(j, "tier")?;
        let consumable_only_ids = required::<ConsumableOnlyIds>(j, "consumableOnlyIDs")?;
        let item_only_ids = required::<ItemOnlyIds>(j, "itemOnlyIDs")?;
        let ingredient_position_modifiers = required::<IngredientPositionModifiers>(j, "ingredientPositionModifiers")?;
        let dropped_by = defaulted::<Vec<DropLocation>>(j, "droppedBy")?;
        let identifications = defaulted::<Vec<(Identification, IdentificationStats)>>(j, "identifications")?;
        Ok(
            IngredientInfo {
                requirements,
                tier,
                consumable_only_ids,
                item_only_ids,
                ingredient_position_modifiers,
                dropped_by,
                identifications,
            }
        )
    }
}

impl IngredientInfo {
    /// Whether a record of this type reads the member `name`.
    pub open spec fn owns(name: Seq<char>) -> bool {
        name == "requirements"@
            || name == "tier"@
            || name == "consumableOnlyIDs"@
            || name == "itemOnlyIDs"@
            || name == "ingredientPositionModifiers"@
            || name == "droppedBy"@
            || name == "identifications"@
    }

    /// The members that the record is written as.
    pub open spec fn members(&self) -> Seq<(Seq<char>, JsonValue)> {
        seq![
            ("requirements"@, self.requirements.encoded()),
            ("tier"@, self.tier.encoded()),
            ("consumableOnlyIDs"@, self.consumable_only_ids.encoded()),
            ("itemOnlyIDs"@, self.item_only_ids.encoded()),
            ("ingredientPositionModifiers"@, self.ingredient_position_modifiers.encoded()),
            ("droppedBy"@, self.dropped_by.encoded()),
            ("identifications"@, self.identifications.encoded()),
        ]
    }

    /// What the record is written as is read as the record, also where its
    /// members come after others, as long as the record reads none of those.
    pub proof fn lemma_read_back_among(&self, before: Seq<(Seq<char>, JsonValue)>)
        requires
            self.valid(),
            forall|k: int| 0 <= k < before.len() ==> !Self::owns(#[trigger] before[k].0),
        ensures
            Self::failure(JsonValue::Object(before + self.members())) is None,
            self.reads(JsonValue::Object(before + self.members())),
    {
        let members = self.members();
        let j = JsonValue::Object(before + members);
        reveal_strlit("requirements");
        assert("requirements"@.len() == 12);
        reveal_strlit("tier");
        assert("tier"@.len() == 4);
        reveal_strlit("consumableOnlyIDs");
        assert("consumableOnlyIDs"@.len() == 17);
        reveal_strlit("itemOnlyIDs");
        assert("itemOnlyIDs"@.len() == 11);
        reveal_strlit("ingredientPositionModifiers");
        assert("ingredientPositionModifiers"@.len() == 27);
        reveal_strlit("droppedBy");
        assert("droppedBy"@.len() == 9);
        reveal_strlit("identifications");
        assert("identifications"@.len() == 15);
        lemma_member_among(before, members, "requirements"@, 0);
        lemma_required_read_back(&self.requirements, j, "requirements"@);
        lemma_member_among(before, members, "tier"@, 1);
        lemma_required_read_back(&self.tier, j, "tier"@);
        lemma_member_among(before, members, "consumableOnlyIDs"@, 2);
        lemma_required_read_back(&self.consumable_only_ids, j, "consumableOnlyIDs"@);
        lemma_member_among(before, members, "itemOnlyIDs"@, 3);
        lemma_required_read_back(&self.item_only_ids, j, "itemOnlyIDs"@);
        lemma_member_among(before, members, "ingredientPositionModifiers"@, 4);
        lemma_required_read_back(&self.ingredient_position_modifiers, j, "ingredientPositionModifiers"@);
        lemma_member_among(before, members, "droppedBy"@, 5);
        lemma_defaulted_read_back(&self.dropped_by, j, "droppedBy"@);
        lemma_member_among(before, members, "identifications"@, 6);
        lemma_defaulted_read_back(&self.identifications, j, "identifications"@);
    }
}

impl Encode for IngredientInfo {
    open spec fn valid(&self) -> bool {
        &&& self.requirements.valid()
        &&& self.tier.valid()
        &&& self.consumable_only_ids.valid()
        &&& self.item_only_ids.valid()
        &&& self.ingredient_position_modifiers.valid()
        &&& self.dropped_by.valid()
        &&& self.identifications.valid()
    }

    open spec fn encoded(&self) -> JsonValue {
        JsonValue::Object(self.members())
    }

    fn encode(&self) -> (j: Json) {
        let j = ObjectWriter::new()
            .with("requirements", self.requirements.encode())
            .with("tier", self.tier.encode())
            .with("consumableOnlyIDs", self.consumable_only_ids.encode())
            .with("itemOnlyIDs", self.item_only_ids.encode())
            .with("ingredientPositionModifiers", self.ingredient_position_modifiers.encode())
            .with("droppedBy", self.dropped_by.encode())
            .with("identifications", self.identifications.encode())
            .done();
        assert(j@->Object_0 =~= self.encoded()->Object_0);
        j
    }

    proof fn lemma_read_back(&self) {
        assert(Seq::<(Seq<char>, JsonValue)>::empty() + self.members() =~= self.members());
        self.lemma_read_back_among(Seq::empty());
    }

    proof fn lemma_one_reading(&self, other: &Self, j: JsonValue) {
        lemma_required_one_reading(&self.requirements, &other.requirements, j, "requirements"@);
        lemma_required_one_reading(&self.tier, &other.tier, j, "tier"@);
        lemma_required_one_reading(&self.consumable_only_ids, &other.consumable_only_ids, j, "consumableOnlyIDs"@);
        lemma_required_one_reading(&self.item_only_ids, &other.item_only_ids, j, "itemOnlyIDs"@);
        lemma_required_one_reading(
            &self.ingredient_position_modifiers,
            &other.ingredient_position_modifiers,
            j,
            "ingredientPositionModifiers"@,
        );
        lemma_defaulted_one_reading(&self.dropped_by, &other.dropped_by, j, "droppedBy"@);
        lemma_defaulted_one_reading(&self.identifications, &other.identifications, j, "identifications"@);
    }

    proof fn lemma_read_is_valid(&self, j: JsonValue) {
        lemma_required_is_valid(&self.requirements, j, "requirements"@);
        lemma_required_is_valid(&self.tier, j, "tier"@);
        lemma_required_is_valid(&self.consumable_only_ids, j, "consumableOnlyIDs"@);
        lemma_required_is_valid(&self.item_only_ids, j, "itemOnlyIDs"@);
        lemma_required_is_valid(&self.ingredient_position_modifiers, j, "ingredientPositionModifiers"@);
        lemma_defaulted_is_valid(&self.dropped_by, j, "droppedBy"@);
        lemma_defaulted_is_valid(&self.identifications, j, "identifications"@);
    }
}

/// What a charm adds to an item.
#[derive(Clone, Debug, PartialEq)]
pub struct CharmInfo {
    pub requirements: CharmRequirements,
    pub rarity: ItemRarity,
    pub restrictions: Option<Restrictions>,
    pub drop_meta: Option<DropMeta>,
    pub raid_reward: bool,
    pub base: Vec<(Identification, IdentificationStats)>,
    pub identifications: Vec<(Identification, IdentificationStats)>,
}

impl Decode for CharmInfo {
    open spec fn failure(j: JsonValue) -> Option<DecodeFault> {
        required_failure::<CharmRequirements>(j, "requirements"@)
            .otherwise(required_failure::<ItemRarity>(j, "rarity"@))
            .otherwise(optional_failure::<Restrictions>(j, "restrictions"@))
            .otherwise(optional_failure::<DropMeta>(j, "dropMeta"@))
            .otherwise(required_failure::<bool>(j, "raidReward"@))
            .otherwise(defaulted_failure::<Vec<(Identification, IdentificationStats)>>(j, "base"@))
            .otherwise(defaulted_failure::<Vec<(Identification, IdentificationStats)>>(j, "identifications"@))
    }

    open spec fn reads(&self, j: JsonValue) -> bool {
        &&& required_reads(self.requirements, j, "requirements"@)
        &&& required_reads(self.rarity, j, "rarity"@)
        &&& optional_reads(self.restrictions, j, "restrictions"@)
        &&& optional_reads(self.drop_meta, j, "dropMeta"@)
        &&& required_reads(self.raid_reward, j, "raidReward"@)
        &&& defaulted_reads(self.base, j, "base"@)
        &&& defaulted_reads(self.identifications, j, "identifications"@)
    }

    fn decode(j: &Json) -> (r: Result<Self, DecodeError>) {
        let requirements = required::<CharmRequirements>(j, "requirements")?;
        let rarity = required::<ItemRarity>(j, "rarity")?;
        let restrictions = optional::<Restrictions>(j, "restrictions")?;
        let drop_meta = optional::<DropMeta>(j, "dropMeta")?;
        let raid_reward = required::<bool>(j, "raidReward")?;
        let base = defaulted::<Vec<(Identification, IdentificationStats)>>(j, "base")?;
        let identifications = defaulted::<Vec<(Identification, IdentificationStats)>>(j, "identifications")?;
        Ok(CharmInfo { requirements, rarity, restrictions, drop_meta, raid_reward, base, identifications })
    }
}

impl CharmInfo {
    /// Whether a record of this type reads the member `name`.
    pub open spec fn owns(name: Seq<char>) -> bool {
        name == "requirements"@
            || name == "rarity"@
            || name == "restrictions"@
            || name == "dropMeta"@
            || name == "raidReward"@
            || name == "base"@
            || name == "identifications"@
    }

    /// The members that the record is written as.
    pub open spec fn members(&self) -> Seq<(Seq<char>, JsonValue)> {
        seq![
            ("requirements"@, self.requirements.encoded()),
            ("rarity"@, self.rarity.encoded()),
            ("restrictions"@, encoded_option(self.restrictions)),
            ("dropMeta"@, encoded_option(self.drop_meta)),
            ("raidReward"@, self.raid_reward.encoded()),
            ("base"@, self.base.encoded()),
            ("identifications"@, self.identifications.encoded()),
        ]
    }

    /// What the record is written as is read as the record, also where its
    /// members come after others, as long as the record reads none of those.
    pub proof fn lemma_read_back_among(&self, before: Seq<(Seq<char>, JsonValue)>)
        requires
            self.valid(),
            forall|k: int| 0 <= k < before.len() ==> !Self::owns(#[trigger] before[k].0),
        ensures
            Self::failure(JsonValue::Object(before + self.members())) is None,
            self.reads(JsonValue::Object(before + self.members())),
    {
        let members = self.members();
        let j = JsonValue::Object(before + members);
        reveal_strlit("requirements");
        assert("requirements"@.len() == 12 && "requirements"@[2] == 'q');
        reveal_strlit("rarity");
        assert("rarity"@.len() == 6 && "rarity"@[2] == 'r');
        reveal_strlit("restrictions");
        assert("restrictions"@.len() == 12 && "restrictions"@[2] == 's');
        reveal_strlit("dropMeta");
        assert("dropMeta"@.len() == 8 && "dropMeta"@[2] == 'o');
        reveal_strlit("raidReward");
        assert("raidReward"@.len() == 10 && "raidReward"@[2] == 'i');
        reveal_strlit("base");
        assert("base"@.len() == 4 && "base"@[2] == 's');
        reveal_strlit("identifications");
        assert("identifications"@.len() == 15 && "identifications"@[2] == 'e');
        lemma_member_among(before, members, "requirements"@, 0);
        lemma_required_read_back(&self.requirements, j, "requirements"@);
        lemma_member_among(before, members, "rarity"@, 1);
        lemma_required_read_back(&self.rarity, j, "rarity"@);
        lemma_member_among(before, members, "restrictions"@, 2);
        lemma_optional_read_back(self.restrictions, j, "restrictions"@);
        lemma_member_among(before, members, "dropMeta"@, 3);
        lemma_optional_read_back(self.drop_meta, j, "dropMeta"@);
        lemma_member_among(before, members, "raidReward"@, 4);
        lemma_required_read_back(&self.raid_reward, j, "raidReward"@);
        lemma_member_among(before, members, "base"@, 5);
        lemma_defaulted_read_back(&self.base, j, "base"@);
        lemma_member_among(before, members, "identifications"@, 6);
        lemma_defaulted_read_back(&self.identifications, j, "identifications"@);
    }
}

impl Encode for CharmInfo {
    open spec fn valid(&self) -> bool {
        &&& self.requirements.valid()
        &&& self.rarity.valid()
        &&& valid_option(self.restrictions)
        &&& valid_option(self.drop_meta)
        &&& self.raid_reward.valid()
        &&& self.base.valid()
        &&& self.identifications.valid()
    }

    open spec fn encoded(&self) -> JsonValue {
        JsonValue::Object(self.members())
    }

    fn encode(&self) -> (j: Json) {
        let j = ObjectWriter::new()
            .with("requirements", self.requirements.encode())
            .with("rarity", self.rarity.encode())
            .with("restrictions", encode_option(&self.restrictions))
            .with("dropMeta", encode_option(&self.drop_meta))
            .with("raidReward", self.raid_reward.encode())
            .with("base", self.base.encode())
            .with("identifications", self.identifications.encode())
            .done();
        assert(j@->Object_0 =~= self.encoded()->Object_0);
        j
    }

    proof fn lemma_read_back(&self) {
        assert(Seq::<(Seq<char>, JsonValue)>::empty() + self.members() =~= self.members());
        self.lemma_read_back_among(Seq::empty());
    }

    proof fn lemma_one_reading(&self, other: &Self, j: JsonValue) {
        lemma_required_one_reading(&self.requirements, &other.requirements, j, "requirements"@);
        lemma_required_one_reading(&self.rarity, &other.rarity, j, "rarity"@);
        lemma_optional_one_reading(self.restrictions, other.restrictions, j, "restrictions"@);
        lemma_optional_one_reading(self.drop_meta, other.drop_meta, j, "dropMeta"@);
        lemma_required_one_reading(&self.raid_reward, &other.raid_reward, j, "raidReward"@);
        lemma_defaulted_one_reading(&self.base, &other.base, j, "base"@);
        lemma_defaulted_one_reading(&self.identifications, &other.identifications, j, "identifications"@);
    }

    proof fn lemma_read_is_valid(&self, j: JsonValue) {
        lemma_required_is_valid(&self.requirements, j, "requirements"@);
        lemma_required_is_valid(&self.rarity, j, "rarity"@);
        lemma_optional_is_valid(self.restrictions, j, "restrictions"@);
        lemma_optional_is_valid(self.drop_meta, j, "dropMeta"@);
        lemma_required_is_valid(&self.raid_reward, j, "raidReward"@);
        lemma_defaulted_is_valid(&self.base, j, "base"@);
        lemma_defaulted_is_valid(&self.identifications, j, "identifications"@);
    }
}

/// What an ingredient does to the item it is crafted into; what is not given is 0.
#[derive(Clone, Debug, PartialEq)]
pub struct ItemOnlyIds {
    pub durability_modifier: i64,
    pub strength_requirement: i64,
    pub dexterity_requirement: i64,
    pub intelligence_requirement: i64,
    pub defence_requirement: i64,
    pub agility_requirement: i64,
}

impl Decode for ItemOnlyIds {
    open spec fn failure(j: JsonValue) -> Option<DecodeFault> {
        defaulted_failure::<i64>(j, "durabilityModifier"@)
            .otherwise(defaulted_failure::<i64>(j, "strengthRequirement"@))
            .otherwise(defaulted_failure::<i64>(j, "dexterityRequirement"@))
            .otherwise(defaulted_failure::<i64>(j, "intelligenceRequirement"@))
            .otherwise(defaulted_failure::<i64>(j, "defenceRequirement"@))
            .otherwise(defaulted_failure::<i64>(j, "agilityRequirement"@))
    }

    open spec fn reads(&self, j: JsonValue) -> bool {
        &&& defaulted_reads(self.durability_modifier, j, "durabilityModifier"@)
        &&& defaulted_reads(self.strength_requirement, j, "strengthRequirement"@)
        &&& defaulted_reads(self.dexterity_requirement, j, "dexterityRequirement"@)
        &&& defaulted_reads(self.intelligence_requirement, j, "intelligenceRequirement"@)
        &&& defaulted_reads(self.defence_requirement, j, "defenceRequirement"@)
        &&& defaulted_reads(self.agility_requirement, j, "agilityRequirement"@)
    }

    fn decode(j: &Json) -> (r: Result<Self, DecodeError>) {
        let durability_modifier = defaulted::<i64>(j, "durabilityModifier")?;
        let strength_requirement = defaulted::<i64>(j, "strengthRequirement")?;
        let dexterity_requirement = defaulted::<i64>(j, "dexterityRequirement")?;
        let intelligence_requirement = defaulted::<i64>(j, "intelligenceRequirement")?;
        let defence_requirement = defaulted::<i64>(j, "defenceRequirement")?;
        let agility_requirement = defaulted::<i64>(j, "agilityRequirement")?;
        Ok(
            ItemOnlyIds {
                durability_modifier,
                strength_requirement,
                dexterity_requirement,
                intelligence_requirement,
                defence_requirement,
                agility_requirement,
            }
        )
    }
}

impl Encode for ItemOnlyIds {
    open spec fn valid(&self) -> bool {
        &&& self.durability_modifier.valid()
        &&& self.strength_requirement.valid()
        &&& self.dexterity_requirement.valid()
        &&& self.intelligence_requirement.valid()
        &&& self.defence_requirement.valid()
        &&& self.agility_requirement.valid()
    }

    open spec fn encoded(&self) -> JsonValue {
        JsonValue::Object(
            seq![
                ("durabilityModifier"@, self.durability_modifier.encoded()),
                ("strengthRequirement"@, self.strength_requirement.encoded()),
                ("dexterityRequirement"@, self.dexterity_requirement.encoded()),
                ("intelligenceRequirement"@, self.intelligence_requirement.encoded()),
                ("defenceRequirement"@, self.defence_requirement.encoded()),
                ("agilityRequirement"@, self.agility_requirement.encoded()),
            ],
        )
    }

    fn encode(&self) -> (j: Json) {
        let j = ObjectWriter::new()
            .with("durabilityModifier", self.durability_modifier.encode())
            .with("strengthRequirement", self.strength_requirement.encode())
            .with("dexterityRequirement", self.dexterity_requirement.encode())
            .with("intelligenceRequirement", self.intelligence_requirement.encode())
            .with("defenceRequirement", self.defence_requirement.encode())
            .with("agilityRequirement", self.agility_requirement.encode())
            .done();
        assert(j@->Object_0 =~= self.encoded()->Object_0);
        j
    }

    proof fn lemma_read_back(&self) {
        let j = self.encoded();
        let members = j->Object_0;
        reveal_strlit("durabilityModifier");
        assert("durabilityModifier"@.len() == 18 && "durabilityModifier"@[1] == 'u');
        reveal_strlit("strengthRequirement");
        assert("strengthRequirement"@.len() == 19 && "strengthRequirement"@[1] == 't');
        reveal_strlit("dexterityRequirement");
        assert("dexterityRequirement"@.len() == 20 && "dexterityRequirement"@[1] == 'e');
        reveal_strlit("intelligenceRequirement");
        assert("intelligenceRequirement"@.len() == 23 && "intelligenceRequirement"@[1] == 'n');
        reveal_strlit("defenceRequirement");
        assert("defenceRequirement"@.len() == 18 && "defenceRequirement"@[1] == 'e');
        reveal_strlit("agilityRequirement");
        assert("agilityRequirement"@.len() == 18 && "agilityRequirement"@[1] == 'g');
        lemma_member_at(members, "durabilityModifier"@, 0);
        lemma_defaulted_read_back(&self.durability_modifier, j, "durabilityModifier"@);
        lemma_member_at(members, "strengthRequirement"@, 1);
        lemma_defaulted_read_back(&self.strength_requirement, j, "strengthRequirement"@);
        lemma_member_at(members, "dexterityRequirement"@, 2);
        lemma_defaulted_read_back(&self.dexterity_requirement, j, "dexterityRequirement"@);
        lemma_member_at(members, "intelligenceRequirement"@, 3);
        lemma_defaulted_read_back(&self.intelligence_requirement, j, "intelligenceRequirement"@);
        lemma_member_at(members, "defenceRequirement"@, 4);
        lemma_defaulted_read_back(&self.defence_requirement, j, "defenceRequirement"@);
        lemma_member_at(members, "agilityRequirement"@, 5);
        lemma_defaulted_read_back(&self.agility_requirement, j, "agilityRequirement"@);
    }

    proof fn lemma_one_reading(&self, other: &Self, j: JsonValue) {
        lemma_defaulted_one_reading(&self.durability_modifier, &other.durability_modifier, j, "durabilityModifier"@);
        lemma_defaulted_one_reading(
            &self.strength_requirement,
            &other.strength_requirement,
            j,
            "strengthRequirement"@,
        );
        lemma_defaulted_one_reading(
            &self.dexterity_requirement,
            &other.dexterity_requirement,
            j,
            "dexterityRequirement"@,
        );
        lemma_defaulted_one_reading(
            &self.intelligence_requirement,
            &other.intelligence_requirement,
            j,
            "intelligenceRequirement"@,
        );
        lemma_defaulted_one_reading(&self.defence_requirement, &other.defence_requirement, j, "defenceRequirement"@);
        lemma_defaulted_one_reading(&self.agility_requirement, &other.agility_requirement, j, "agilityRequirement"@);
    }

    proof fn lemma_read_is_valid(&self, j: JsonValue) {
        lemma_defaulted_is_valid(&self.durability_modifier, j, "durabilityModifier"@);
        lemma_defaulted_is_valid(&self.strength_requirement, j, "strengthRequirement"@);
        lemma_defaulted_is_valid(&self.dexterity_requirement, j, "dexterityRequirement"@);
        lemma_defaulted_is_valid(&self.intelligence_requirement, j, "intelligenceRequirement"@);
        lemma_defaulted_is_valid(&self.defence_requirement, j, "defenceRequirement"@);
        lemma_defaulted_is_valid(&self.agility_requirement, j, "agilityRequirement"@);
    }
}

/// What an ingredient does to its neighbours in the recipe; what is not given is 0.
#[derive(Clone, Debug, PartialEq)]
pub struct IngredientPositionModifiers {
    pub left: i64,
    pub right: i64,
    pub above: i64,
    pub under: i64,
    pub touching: i64,
    pub not_touching: i64,
}

impl Decode for IngredientPositionModifiers {
    open spec fn failure(j: JsonValue) -> Option<DecodeFault> {
        defaulted_failure::<i64>(j, "left"@)
            .otherwise(defaulted_failure::<i64>(j, "right"@))
            .otherwise(defaulted_failure::<i64>(j, "above"@))
            .otherwise(defaulted_failure::<i64>(j, "under"@))
            .otherwise(defaulted_failure::<i64>(j, "touching"@))
            .otherwise(defaulted_failure::<i64>(j, "notTouching"@))
    }

    open spec fn reads(&self, j: JsonValue) -> bool {
        &&& defaulted_reads(self.left, j, "left"@)
        &&& defaulted_reads(self.right, j, "right"@)
        &&& defaulted_reads(self.above, j, "above"@)
        &&& defaulted_reads(self.under, j, "under"@)
        &&& defaulted_reads(self.touching, j, "touching"@)
        &&& defaulted_reads(self.not_touching, j, "notTouching"@)
    }

    fn decode(j: &Json) -> (r: Result<Self, DecodeError>) {
        let left = defaulted::<i64>(j, "left")?;
        let right = defaulted::<i64>(j, "right")?;
        let above = defaulted::<i64>(j, "above")?;
        let under = defaulted::<i64>(j, "under")?;
        let touching = defaulted::<i64>(j, "touching")?;
        let not_touching = defaulted::<i64>(j, "notTouching")?;
        Ok(IngredientPositionModifiers { left, right, above, under, touching, not_touching })
    }
}

impl Encode for IngredientPositionModifiers {
    open spec fn valid(&self) -> bool {
        &&& self.left.valid()
        &&& self.right.valid()
        &&& self.above.valid()
        &&& self.under.valid()
        &&& self.touching.valid()
        &&& self.not_touching.valid()
    }

    open spec fn encoded(&self) -> JsonValue {
        JsonValue::Object(
            seq![
                ("left"@, self.left.encoded()),
                ("right"@, self.right.encoded()),
                ("above"@, self.above.encoded()),
                ("under"@, self.under.encoded()),
                ("touching"@, self.touching.encoded()),
                ("notTouching"@, self.not_touching.encoded()),
            ],
        )
    }

    fn encode(&self) -> (j: Json) {
        let j = ObjectWriter::new()
            .with("left", self.left.encode())
            .with("right", self.right.encode())
            .with("above", self.above.encode())
            .with("under", self.under.encode())
            .with("touching", self.touching.encode())
            .with("notTouching", self.not_touching.encode())
            .done();
        assert(j@->Object_0 =~= self.encoded()->Object_0);
        j
    }

    proof fn lemma_read_back(&self) {
        let j = self.encoded();
        let members = j->Object_0;
        reveal_strlit("left");
        assert("left"@.len() == 4 && "left"@[0] == 'l');
        reveal_strlit("right");
        assert("right"@.len() == 5 && "right"@[0] == 'r');
        reveal_strlit("above");
        assert("above"@.len() == 5 && "above"@[0] == 'a');
        reveal_strlit("under");
        assert("under"@.len() == 5 && "under"@[0] == 'u');
        reveal_strlit("touching");
        assert("touching"@.len() == 8 && "touching"@[0] == 't');
        reveal_strlit("notTouching");
        assert("notTouching"@.len() == 11 && "notTouching"@[0] == 'n');
        lemma_member_at(members, "left"@, 0);
        lemma_defaulted_read_back(&self.left, j, "left"@);
        lemma_member_at(members, "right"@, 1);
        lemma_defaulted_read_back(&self.right, j, "right"@);
        lemma_member_at(members, "above"@, 2);
        lemma_defaulted_read_back(&self.above, j, "above"@);
        lemma_member_at(members, "under"@, 3);
        lemma_defaulted_read_back(&self.under, j, "under"@);
        lemma_member_at(members, "touching"@, 4);
        lemma_defaulted_read_back(&self.touching, j, "touching"@);
        lemma_member_at(members, "notTouching"@, 5);
        lemma_defaulted_read_back(&self.not_touching, j, "notTouching"@);
    }

    proof fn lemma_one_reading(&self, other: &Self, j: JsonValue) {
        lemma_defaulted_one_reading(&self.left, &other.left, j, "left"@);
        lemma_defaulted_one_reading(&self.right, &other.right, j, "right"@);
        lemma_defaulted_one_reading(&self.above, &other.above, j, "above"@);
        lemma_defaulted_one_reading(&self.under, &other.under, j, "under"@);
        lemma_defaulted_one_reading(&self.touching, &other.touching, j, "touching"@);
        lemma_defaulted_one_reading(&self.not_touching, &other.not_touching, j, "notTouching"@);
    }

    proof fn lemma_read_is_valid(&self, j: JsonValue) {
        lemma_defaulted_is_valid(&self.left, j, "left"@);
        lemma_defaulted_is_valid(&self.right, j, "right"@);
        lemma_defaulted_is_valid(&self.above, j, "above"@);
        lemma_defaulted_is_valid(&self.under, j, "under"@);
        lemma_defaulted_is_valid(&self.touching, j, "touching"@);
        lemma_defaulted_is_valid(&self.not_touching, j, "notTouching"@);
    }
}

/// What an ingredient does to the consumable it is crafted into; what is not given is 0.
#[derive(Clone, Debug, PartialEq)]
pub struct ConsumableOnlyIds {
    pub duration: i64,
    pub charges: i64,
}

impl Decode for ConsumableOnlyIds {
    open spec fn failure(j: JsonValue) -> Option<DecodeFault> {
        defaulted_failure::<i64>(j, "duration"@)
            .otherwise(defaulted_failure::<i64>(j, "charges"@))
    }

    open spec fn reads(&self, j: JsonValue) -> bool {
        &&& defaulted_reads(self.duration, j, "duration"@)
        &&& defaulted_reads(self.charges, j, "charges"@)
    }

    fn decode(j: &Json) -> (r: Result<Self, DecodeError>) {
        let duration = defaulted::<i64>(j, "duration")?;
        let charges = defaulted::<i64>(j, "charges")?;
        Ok(ConsumableOnlyIds { duration, charges })
    }
}

impl Encode for ConsumableOnlyIds {
    open spec fn valid(&self) -> bool {
        &&& self.duration.valid()
        &&& self.charges.valid()
    }

    open spec fn encoded(&self) -> JsonValue {
        JsonValue::Object(
            seq![
                ("duration"@, self.duration.encoded()),
                ("charges"@, self.charges.encoded()),
            ],
        )
    }

    fn encode(&self) -> (j: Json) {
        let j = ObjectWriter::new()
            .with("duration", self.duration.encode())
            .with("charges", self.charges.encode())
            .done();
        assert(j@->Object_0 =~= self.encoded()->Object_0);
        j
    }

    proof fn lemma_read_back(&self) {
        let j = self.encoded();
        let members = j->Object_0;
        reveal_strlit("duration");
        assert("duration"@.len() == 8);
        reveal_strlit("charges");
        assert("charges"@.len() == 7);
        lemma_member_at(members, "duration"@, 0);
        lemma_defaulted_read_back(&self.duration, j, "duration"@);
        lemma_member_at(members, "charges"@, 1);
        lemma_defaulted_read_back(&self.charges, j, "charges"@);
    }

    proof fn lemma_one_reading(&self, other: &Self, j: JsonValue) {
        lemma_defaulted_one_reading(&self.duration, &other.duration, j, "duration"@);
        lemma_defaulted_one_reading(&self.charges, &other.charges, j, "charges"@);
    }

    proof fn lemma_read_is_valid(&self, j: JsonValue) {
        lemma_defaulted_is_valid(&self.duration, j, "duration"@);
        lemma_defaulted_is_valid(&self.charges, j, "charges"@);
    }
}

/// Where and how an item is come by.
#[derive(Clone, Debug, PartialEq)]
pub struct DropMeta {
    pub name: String,
    /// Has length of 3 or 4
    pub coordinates: Vec<i64>,
    pub drop_type: DropType,
    pub event: Option<String>,
}

impl Decode for DropMeta {
    open spec fn failure(j: JsonValue) -> Option<DecodeFault> {
        required_failure::<String>(j, "name"@)
            .otherwise(required_failure::<Vec<i64>>(j, "coordinates"@))
            .otherwise(required_failure::<DropType>(j, "type"@))
            .otherwise(optional_failure::<String>(j, "event"@))
    }

    open spec fn reads(&self, j: JsonValue) -> bool {
        &&& required_reads(self.name, j, "name"@)
        &&& required_reads(self.coordinates, j, "coordinates"@)
        &&& required_reads(self.drop_type, j, "type"@)
        &&& optional_reads(self.event, j, "event"@)
    }

    fn decode(j: &Json) -> (r: Result<Self, DecodeError>) {
        let name = required::<String>(j, "name")?;
        let coordinates = required::<Vec<i64>>(j, "coordinates")?;
        let drop_type = required::<DropType>(j, "type")?;
        let event = optional::<String>(j, "event")?;
        Ok(DropMeta { name, coordinates, drop_type, event })
    }
}

impl Encode for DropMeta {
    open spec fn valid(&self) -> bool {
        &&& self.name.valid()
        &&& self.coordinates.valid()
        &&& self.drop_type.valid()
        &&& valid_option(self.event)
    }

    open spec fn encoded(&self) -> JsonValue {
        JsonValue::Object(
            seq![
                ("name"@, self.name.encoded()),
                ("coordinates"@, self.coordinates.encoded()),
                ("type"@, self.drop_type.encoded()),
                ("event"@, encoded_option(self.event)),
            ],
        )
    }

    fn encode(&self) -> (j: Json) {
        let j = ObjectWriter::new()
            .with("name", self.name.encode())
            .with("coordinates", self.coordinates.encode())
            .with("type", self.drop_type.encode())
            .with("event", encode_option(&self.event))
            .done();
        assert(j@->Object_0 =~= self.encoded()->Object_0);
        j
    }

    proof fn lemma_read_back(&self) {
        let j = self.encoded();
        let members = j->Object_0;
        reveal_strlit("name");
        assert("name"@.len() == 4 && "name"@[0] == 'n');
        reveal_strlit("coordinates");
        assert("coordinates"@.len() == 11 && "coordinates"@[0] == 'c');
        reveal_strlit("type");
        assert("type"@.len() == 4 && "type"@[0] == 't');
        reveal_strlit("event");
        assert("event"@.len() == 5 && "event"@[0] == 'e');
        lemma_member_at(members, "name"@, 0);
        lemma_required_read_back(&self.name, j, "name"@);
        lemma_member_at(members, "coordinates"@, 1);
        lemma_required_read_back(&self.coordinates, j, "coordinates"@);
        lemma_member_at(members, "type"@, 2);
        lemma_required_read_back(&self.drop_type, j, "type"@);
        lemma_member_at(members, "event"@, 3);
        lemma_optional_read_back(self.event, j, "event"@);
    }

    proof fn lemma_one_reading(&self, other: &Self, j: JsonValue) {
        lemma_required_one_reading(&self.name, &other.name, j, "name"@);
        lemma_required_one_reading(&self.coordinates, &other.coordinates, j, "coordinates"@);
        lemma_required_one_reading(&self.drop_type, &other.drop_type, j, "type"@);
        lemma_optional_one_reading(self.event, other.event, j, "event"@);
    }

    proof fn lemma_read_is_valid(&self, j: JsonValue) {
        lemma_required_is_valid(&self.name, j, "name"@);
        lemma_required_is_valid(&self.coordinates, j, "coordinates"@);
        lemma_required_is_valid(&self.drop_type, j, "type"@);
        lemma_optional_is_valid(self.event, j, "event"@);
    }
}

/// A creature that drops an ingredient, and where it is found.
#[derive(Clone, Debug, PartialEq)]
pub struct DropLocation {
    pub name: String,
    pub location: Option<(i64, i64, i64, i64)>,
}

impl Decode for DropLocation {
    open spec fn failure(j: JsonValue) -> Option<DecodeFault> {
        required_failure::<String>(j, "name"@)
            .otherwise(optional_failure::<Quad<i64, i64, i64, i64>>(j, "location"@))
    }

    open spec fn reads(&self, j: JsonValue) -> bool {
        &&& required_reads(self.name, j, "name"@)
        &&& optional_reads(Quad::lift(self.location), j, "location"@)
    }

    fn decode(j: &Json) -> (r: Result<Self, DecodeError>) {
        let name = required::<String>(j, "name")?;
        let location = match optional::<Quad<i64, i64, i64, i64>>(j, "location")? {
            Some(place) => Some(place.0),
            None => None,
        };
        Ok(DropLocation { name, location })
    }
}

impl Encode for DropLocation {
    open spec fn valid(&self) -> bool {
        &&& self.name.valid()
        &&& valid_option(Quad::lift(self.location))
    }

    open spec fn encoded(&self) -> JsonValue {
        JsonValue::Object(
            seq![
                ("name"@, self.name.encoded()),
                ("location"@, encoded_option(Quad::lift(self.location))),
            ],
        )
    }

    fn encode(&self) -> (j: Json) {
        let j = ObjectWriter::new()
            .with("name", self.name.encode())
            .with("location", encode_option(&Quad::lifted(self.location)))
            .done();
        assert(j@->Object_0 =~= self.encoded()->Object_0);
        j
    }

    proof fn lemma_read_back(&self) {
        let j = self.encoded();
        let members = j->Object_0;
        reveal_strlit("name");
        assert("name"@.len() == 4);
        reveal_strlit("location");
        assert("location"@.len() == 8);
        lemma_member_at(members, "name"@, 0);
        lemma_required_read_back(&self.name, j, "name"@);
        lemma_member_at(members, "location"@, 1);
        lemma_optional_read_back(Quad::lift(self.location), j, "location"@);
    }

    proof fn lemma_one_reading(&self, other: &Self, j: JsonValue) {
        lemma_required_one_reading(&self.name, &other.name, j, "name"@);
        lemma_optional_one_reading(Quad::lift(self.location), Quad::lift(other.location), j, "location"@);
    }

    proof fn lemma_read_is_valid(&self, j: JsonValue) {
        lemma_required_is_valid(&self.name, j, "name"@);
        lemma_optional_is_valid(Quad::lift(self.location), j, "location"@);
    }
}

/// What a character needs to use an item.
#[derive(Clone, Debug, PartialEq)]
pub struct ItemRequirements {
    pub level: u8,
    pub strength: Option<u8>,
    pub dexterity: Option<u8>,
    pub intelligence: Option<u8>,
    pub defence: Option<u8>,
    pub agility: Option<u8>,
    pub quest: Option<String>,
    pub class_requirement: Option<Class>,
}

impl Decode for ItemRequirements {
    open spec fn failure(j: JsonValue) -> Option<DecodeFault> {
        required_failure::<u8>(j, "level"@)
            .otherwise(optional_failure::<u8>(j, "strength"@))
            .otherwise(optional_failure::<u8>(j, "dexterity"@))
            .otherwise(optional_failure::<u8>(j, "intelligence"@))
            .otherwise(optional_failure::<u8>(j, "defence"@))
            .otherwise(optional_failure::<u8>(j, "agility"@))
            .otherwise(optional_failure::<String>(j, "quest"@))
            .otherwise(optional_failure::<Class>(j, "classRequirement"@))
    }

    open spec fn reads(&self, j: JsonValue) -> bool {
        &&& required_reads(self.level, j, "level"@)
        &&& optional_reads(self.strength, j, "strength"@)
        &&& optional_reads(self.dexterity, j, "dexterity"@)
        &&& optional_reads(self.intelligence, j, "intelligence"@)
        &&& optional_reads(self.defence, j, "defence"@)
        &&& optional_reads(self.agility, j, "agility"@)
        &&& optional_reads(self.quest, j, "quest"@)
        &&& optional_reads(self.class_requirement, j, "classRequirement"@)
    }

    fn decode(j: &Json) -> (r: Result<Self, DecodeError>) {
        let level = required::<u8>(j, "level")?;
        let strength = optional::<u8>(j, "strength")?;
        let dexterity = optional::<u8>(j, "dexterity")?;
        let intelligence = optional::<u8>(j, "intelligence")?;
        let defence = optional::<u8>(j, "defence")?;
        let agility = optional::<u8>(j, "agility")?;
        let quest = optional::<String>(j, "quest")?;
        let class_requirement = optional::<Class>(j, "classRequirement")?;
        Ok(ItemRequirements { level, strength, dexterity, intelligence, defence, agility, quest, class_requirement })
    }
}

impl Encode for ItemRequirements {
    open spec fn valid(&self) -> bool {
        &&& self.level.valid()
        &&& valid_option(self.strength)
        &&& valid_option(self.dexterity)
        &&& valid_option(self.intelligence)
        &&& valid_option(self.defence)
        &&& valid_option(self.agility)
        &&& valid_option(self.quest)
        &&& valid_option(self.class_requirement)
    }

    open spec fn encoded(&self) -> JsonValue {
        JsonValue::Object(
            seq![
                ("level"@, self.level.encoded()),
                ("strength"@, encoded_option(self.strength)),
                ("dexterity"@, encoded_option(self.dexterity)),
                ("intelligence"@, encoded_option(self.intelligence)),
                ("defence"@, encoded_option(self.defence)),
                ("agility"@, encoded_option(self.agility)),
                ("quest"@, encoded_option(self.quest)),
                ("classRequirement"@, encoded_option(self.class_requirement)),
            ],
        )
    }

    fn encode(&self) -> (j: Json) {
        let j = ObjectWriter::new()
            .with("level", self.level.encode())
            .with("strength", encode_option(&self.strength))
            .with("dexterity", encode_option(&self.dexterity))
            .with("intelligence", encode_option(&self.intelligence))
            .with("defence", encode_option(&self.defence))
            .with("agility", encode_option(&self.agility))
            .with("quest", encode_option(&self.quest))
            .with("classRequirement", encode_option(&self.class_requirement))
            .done();
        assert(j@->Object_0 =~= self.encoded()->Object_0);
        j
    }

    proof fn lemma_read_back(&self) {
        let j = self.encoded();
        let members = j->Object_0;
        reveal_strlit("level");
        assert("level"@.len() == 5 && "level"@[0] == 'l');
        reveal_strlit("strength");
        assert("strength"@.len() == 8 && "strength"@[0] == 's');
        reveal_strlit("dexterity");
        assert("dexterity"@.len() == 9 && "dexterity"@[0] == 'd');
        reveal_strlit("intelligence");
        assert("intelligence"@.len() == 12 && "intelligence"@[0] == 'i');
        reveal_strlit("defence");
        assert("defence"@.len() == 7 && "defence"@[0] == 'd');
        reveal_strlit("agility");
        assert("agility"@.len() == 7 && "agility"@[0] == 'a');
        reveal_strlit("quest");
        assert("quest"@.len() == 5 && "quest"@[0] == 'q');
        reveal_strlit("classRequirement");
        assert("classRequirement"@.len() == 16 && "classRequirement"@[0] == 'c');
        lemma_member_at(members, "level"@, 0);
        lemma_required_read_back(&self.level, j, "level"@);
        lemma_member_at(members, "strength"@, 1);
        lemma_optional_read_back(self.strength, j, "strength"@);
        lemma_member_at(members, "dexterity"@, 2);
        lemma_optional_read_back(self.dexterity, j, "dexterity"@);
        lemma_member_at(members, "intelligence"@, 3);
        lemma_optional_read_back(self.intelligence, j, "intelligence"@);
        lemma_member_at(members, "defence"@, 4);
        lemma_optional_read_back(self.defence, j, "defence"@);
        lemma_member_at(members, "agility"@, 5);
        lemma_optional_read_back(self.agility, j, "agility"@);
        lemma_member_at(members, "quest"@, 6);
        lemma_optional_read_back(self.quest, j, "quest"@);
        lemma_member_at(members, "classRequirement"@, 7);
        lemma_optional_read_back(self.class_requirement, j, "classRequirement"@);
    }

    proof fn lemma_one_reading(&self, other: &Self, j: JsonValue) {
        lemma_required_one_reading(&self.level, &other.level, j, "level"@);
        lemma_optional_one_reading(self.strength, other.strength, j, "strength"@);
        lemma_optional_one_reading(self.dexterity, other.dexterity, j, "dexterity"@);
        lemma_optional_one_reading(self.intelligence, other.intelligence, j, "intelligence"@);
        lemma_optional_one_reading(self.defence, other.defence, j, "defence"@);
        lemma_optional_one_reading(self.agility, other.agility, j, "agility"@);
        lemma_optional_one_reading(self.quest, other.quest, j, "quest"@);
        lemma_optional_one_reading(self.class_requirement, other.class_requirement, j, "classRequirement"@);
    }

    proof fn lemma_read_is_valid(&self, j: JsonValue) {
        lemma_required_is_valid(&self.level, j, "level"@);
        lemma_optional_is_valid(self.strength, j, "strength"@);
        lemma_optional_is_valid(self.dexterity, j, "dexterity"@);
        lemma_optional_is_valid(self.intelligence, j, "intelligence"@);
        lemma_optional_is_valid(self.defence, j, "defence"@);
        lemma_optional_is_valid(self.agility, j, "agility"@);
        lemma_optional_is_valid(self.quest, j, "quest"@);
        lemma_optional_is_valid(self.class_requirement, j, "classRequirement"@);
    }
}

/// What a character needs to use an ingredient.
#[derive(Clone, Debug, PartialEq)]
pub struct IngredientRequirements {
    pub level: u8,
    pub skills: Vec<String>,
}

impl Decode for IngredientRequirements {
    open spec fn failure(j: JsonValue) -> Option<DecodeFault> {
        required_failure::<u8>(j, "level"@)
            .otherwise(required_failure::<Distinct<String>>(j, "skills"@))
    }

    open spec fn reads(&self, j: JsonValue) -> bool {
        &&& required_reads(self.level, j, "level"@)
        &&& required_reads(Distinct(self.skills), j, "skills"@)
    }

    fn decode(j: &Json) -> (r: Result<Self, DecodeError>) {
        let level = required::<u8>(j, "level")?;
        let skills = required::<Distinct<String>>(j, "skills")?.0;
        Ok(IngredientRequirements { level, skills })
    }
}

impl Encode for IngredientRequirements {
    open spec fn valid(&self) -> bool {
        &&& self.level.valid()
        &&& Distinct(self.skills).valid()
    }

    open spec fn encoded(&self) -> JsonValue {
        JsonValue::Object(
            seq![
                ("level"@, self.level.encoded()),
                ("skills"@, Distinct(self.skills).encoded()),
            ],
        )
    }

    fn encode(&self) -> (j: Json) {
        let j = ObjectWriter::new()
            .with("level", self.level.encode())
            .with("skills", self.skills.encode())
            .done();
        assert(j@->Object_0 =~= self.encoded()->Object_0);
        j
    }

    proof fn lemma_read_back(&self) {
        let j = self.encoded();
        let members = j->Object_0;
        reveal_strlit("level");
        assert("level"@.len() == 5);
        reveal_strlit("skills");
        assert("skills"@.len() == 6);
        lemma_member_at(members, "level"@, 0);
        lemma_required_read_back(&self.level, j, "level"@);
        lemma_member_at(members, "skills"@, 1);
        lemma_required_read_back(&Distinct(self.skills), j, "skills"@);
    }

    proof fn lemma_one_reading(&self, other: &Self, j: JsonValue) {
        lemma_required_one_reading(&self.level, &other.level, j, "level"@);
        lemma_required_one_reading(&Distinct(self.skills), &Distinct(other.skills), j, "skills"@);
    }

    proof fn lemma_read_is_valid(&self, j: JsonValue) {
        lemma_required_is_valid(&self.level, j, "level"@);
        lemma_required_is_valid(&Distinct(self.skills), j, "skills"@);
    }
}

/// The level that a character needs to use an item.
#[derive(Clone, Debug, PartialEq)]
pub struct LevelOnlyRequirements {
    pub level: u8,
}

impl Decode for LevelOnlyRequirements {
    open spec fn failure(j: JsonValue) -> Option<DecodeFault> {
        required_failure::<u8>(j, "level"@)
    }

    open spec fn reads(&self, j: JsonValue) -> bool {
        &&& required_reads(self.level, j, "level"@)
    }

    fn decode(j: &Json) -> (r: Result<Self, DecodeError>) {
        let level = required::<u8>(j, "level")?;
        Ok(LevelOnlyRequirements { level })
    }
}

impl Encode for LevelOnlyRequirements {
    open spec fn valid(&self) -> bool {
        &&& self.level.valid()
    }

    open spec fn encoded(&self) -> JsonValue {
        JsonValue::Object(
            seq![
                ("level"@, self.level.encoded()),
            ],
        )
    }

    fn encode(&self) -> (j: Json) {
        let j = ObjectWriter::new()
            .with("level", self.level.encode())
            .done();
        assert(j@->Object_0 =~= self.encoded()->Object_0);
        j
    }

    proof fn lemma_read_back(&self) {
        let j = self.encoded();
        let members = j->Object_0;
        reveal_strlit("level");
        assert("level"@.len() == 5);
        lemma_member_at(members, "level"@, 0);
        lemma_required_read_back(&self.level, j, "level"@);
    }

    proof fn lemma_one_reading(&self, other: &Self, j: JsonValue) {
        lemma_required_one_reading(&self.level, &other.level, j, "level"@);
    }

    proof fn lemma_read_is_valid(&self, j: JsonValue) {
        lemma_required_is_valid(&self.level, j, "level"@);
    }
}

/// What a character needs to use a charm.
#[derive(Clone, Debug, PartialEq)]
pub struct CharmRequirements {
    pub level: u8,
    pub level_range: LevelRange,
}

impl Decode for CharmRequirements {
    open spec fn failure(j: JsonValue) -> Option<DecodeFault> {
        required_failure::<u8>(j, "level"@)
            .otherwise(required_failure::<LevelRange>(j, "levelRange"@))
    }

    open spec fn reads(&self, j: JsonValue) -> bool {
        &&& required_reads(self.level, j, "level"@)
        &&& required_reads(self.level_range, j, "levelRange"@)
    }

    fn decode(j: &Json) -> (r: Result<Self, DecodeError>) {
        let level = required::<u8>(j, "level")?;
        let level_range = required::<LevelRange>(j, "levelRange")?;
        Ok(CharmRequirements { level, level_range })
    }
}

impl Encode for CharmRequirements {
    open spec fn valid(&self) -> bool {
        &&& self.level.valid()
        &&& self.level_range.valid()
    }

    open spec fn encoded(&self) -> JsonValue {
        JsonValue::Object(
            seq![
                ("level"@, self.level.encoded()),
                ("levelRange"@, self.level_range.encoded()),
            ],
        )
    }

    fn encode(&self) -> (j: Json) {
        let j = ObjectWriter::new()
            .with("level", self.level.encode())
            .with("levelRange", self.level_range.encode())
            .done();
        assert(j@->Object_0 =~= self.encoded()->Object_0);
        j
    }

    proof fn lemma_read_back(&self) {
        let j = self.encoded();
        let members = j->Object_0;
        reveal_strlit("level");
        assert("level"@.len() == 5);
        reveal_strlit("levelRange");
        assert("levelRange"@.len() == 10);
        lemma_member_at(members, "level"@, 0);
        lemma_required_read_back(&self.level, j, "level"@);
        lemma_member_at(members, "levelRange"@, 1);
        lemma_required_read_back(&self.level_range, j, "levelRange"@);
    }

    proof fn lemma_one_reading(&self, other: &Self, j: JsonValue) {
        lemma_required_one_reading(&self.level, &other.level, j, "level"@);
        lemma_required_one_reading(&self.level_range, &other.level_range, j, "levelRange"@);
    }

    proof fn lemma_read_is_valid(&self, j: JsonValue) {
        lemma_required_is_valid(&self.level, j, "level"@);
        lemma_required_is_valid(&self.level_range, j, "levelRange"@);
    }
}

/// A range of levels.
#[derive(Clone, Debug, PartialEq)]
pub struct LevelRange {
    pub min: u8,
    pub max: u8,
}

impl Decode for LevelRange {
    open spec fn failure(j: JsonValue) -> Option<DecodeFault> {
        required_failure::<u8>(j, "min"@)
            .otherwise(required_failure::<u8>(j, "max"@))
    }

    open spec fn reads(&self, j: JsonValue) -> bool {
        &&& required_reads(self.min, j, "min"@)
        &&& required_reads(self.max, j, "max"@)
    }

    fn decode(j: &Json) -> (r: Result<Self, DecodeError>) {
        let min = required::<u8>(j, "min")?;
        let max = required::<u8>(j, "max")?;
        Ok(LevelRange { min, max })
    }
}

impl Encode for LevelRange {
    open spec fn valid(&self) -> bool {
        &&& self.min.valid()
        &&& self.max.valid()
    }

    open spec fn encoded(&self) -> JsonValue {
        JsonValue::Object(
            seq![
                ("min"@, self.min.encoded()),
                ("max"@, self.max.encoded()),
            ],
        )
    }

    fn encode(&self) -> (j: Json) {
        let j = ObjectWriter::new()
            .with("min", self.min.encode())
            .with("max", self.max.encode())
            .done();
        assert(j@->Object_0 =~= self.encoded()->Object_0);
        j
    }

    proof fn lemma_read_back(&self) {
        let j = self.encoded();
        let members = j->Object_0;
        reveal_strlit("min");
        assert("min"@.len() == 3 && "min"@[1] == 'i');
        reveal_strlit("max");
        assert("max"@.len() == 3 && "max"@[1] == 'a');
        lemma_member_at(members, "min"@, 0);
        lemma_required_read_back(&self.min, j, "min"@);
        lemma_member_at(members, "max"@, 1);
        lemma_required_read_back(&self.max, j, "max"@);
    }

    proof fn lemma_one_reading(&self, other: &Self, j: JsonValue) {
        lemma_required_one_reading(&self.min, &other.min, j, "min"@);
        lemma_required_one_reading(&self.max, &other.max, j, "max"@);
    }

    proof fn lemma_read_is_valid(&self, j: JsonValue) {
        lemma_required_is_valid(&self.min, j, "min"@);
        lemma_required_is_valid(&self.max, j, "max"@);
    }
}

/// The tier of an ingredient or a material, by its number of stars.
///
/// The API writes a tier as a number or as the decimal text of one; both
/// stand for the same tier.
#[derive(Clone, Copy, Debug, PartialEq, Eq, PartialOrd, Ord, Hash, Structural)]
pub enum IngredientTier {
    Ingredient0Star,
    Ingredient1Star,
    Ingredient2Star,
    Ingredient3Star,
}

impl IngredientTier {
    /// The tier with `stars` stars, if there is one.
    pub open spec fn of_stars(stars: int) -> Option<IngredientTier> {
        if stars == 0 {
            Some(IngredientTier::Ingredient0Star)
        } else if stars == 1 {
            Some(IngredientTier::Ingredient1Star)
        } else if stars == 2 {
            Some(IngredientTier::Ingredient2Star)
        } else if stars == 3 {
            Some(IngredientTier::Ingredient3Star)
        } else {
            None
        }
    }

    /// The number of stars of the tier.
    pub open spec fn stars(self) -> int {
        match self {
            IngredientTier::Ingredient0Star => 0,
            IngredientTier::Ingredient1Star => 1,
            IngredientTier::Ingredient2Star => 2,
            IngredientTier::Ingredient3Star => 3,
        }
    }

    /// The tier that a document stands for: a whole number from 0 to 3, or a
    /// string that is the decimal text of one.
    pub open spec fn resolved(j: JsonValue) -> Option<IngredientTier> {
        match j {
            JsonValue::Number(_) => match integer_of(j) {
                Some(n) => Self::of_stars(n),
                None => None,
            },
            JsonValue::String(s) => match u8::of_text(s) {
                Some(n) => Self::of_stars(n as int),
                None => None,
            },
            _ => None,
        }
    }

    /// The tier with `stars` stars, if there is one.
    pub fn from_stars(stars: u64) -> (r: Option<IngredientTier>)
        ensures
            r == Self::of_stars(stars as int),
    {
        if stars == 0 {
            Some(IngredientTier::Ingredient0Star)
        } else if stars == 1 {
            Some(IngredientTier::Ingredient1Star)
        } else if stars == 2 {
            Some(IngredientTier::Ingredient2Star)
        } else if stars == 3 {
            Some(IngredientTier::Ingredient3Star)
        } else {
            None
        }
    }
}

impl Decode for IngredientTier {
    open spec fn failure(j: JsonValue) -> Option<DecodeFault> {
        if Self::resolved(j) is Some {
            None
        } else {
            Some(plain_fault(ErrorKind::NotATier))
        }
    }

    open spec fn reads(&self, j: JsonValue) -> bool {
        Self::resolved(j) == Some(*self)
    }

    fn decode(j: &Json) -> (r: Result<Self, DecodeError>) {
        let tier = match j {
            Json::Number(JsonNumber::Unsigned(n)) => IngredientTier::from_stars(*n),
            Json::Number(JsonNumber::Signed(n)) => {
                if *n >= 0 {
                    IngredientTier::from_stars(*n as u64)
                } else {
                    None
                }
            },
            Json::String(s) => match u8::from_text(s.as_str()) {
                Some(n) => IngredientTier::from_stars(n as u64),
                None => None,
            },
            _ => None,
        };
        match tier {
            Some(tier) => Ok(tier),
            None => Err(DecodeError::plain(ErrorKind::NotATier)),
        }
    }
}

/// A number and the decimal text of that number stand for the same tier, or
/// both for none.
pub proof fn lemma_tier_dual_encoding(n: u8, text: Seq<char>)
    requires
        u8::of_text(text) == Some(n),
    ensures
        IngredientTier::resolved(JsonValue::String(text)) == IngredientTier::resolved(
            JsonValue::Number(JsonNumber::Unsigned(n as u64)),
        ),
        IngredientTier::resolved(JsonValue::String(text)) is Some <==> n <= 3,
{
}

/// The shapes by which a document is told apart where no tag says what it is,
/// in the order in which they are tried.
#[derive(Clone, Copy, Debug, PartialEq, Eq, Structural)]
pub enum Shape {
    /// A number.
    Number,
    /// An object with the members `min`, `raw` and `max` and no others.
    Range,
    /// A string.
    Token,
    /// An array, whatever it holds.
    Aggregate,
    /// Anything else.
    Unrecognized,
}

/// Whether the members are `min`, `raw` and `max`, each once, in any order.
pub open spec fn is_range(j: JsonValue) -> bool {
    &&& j is Object
    &&& j->Object_0.len() == 3
    &&& j.member("min"@) is Some
    &&& j.member("raw"@) is Some
    &&& j.member("max"@) is Some
}

/// The shape of a document: the first that fits.
pub open spec fn shape(j: JsonValue) -> Shape {
    if j is Number {
        Shape::Number
    } else if is_range(j) {
        Shape::Range
    } else if j is String {
        Shape::Token
    } else if j is Array {
        Shape::Aggregate
    } else {
        Shape::Unrecognized
    }
}

/// Tells the shape of a document.
pub fn shape_of(j: &Json) -> (r: Shape)
    ensures
        r == shape(j@),
{
    match j {
        Json::Number(_) => Shape::Number,
        Json::Object(members) => {
            proof {
                lemma_object_view(*j);
            }
            if members.len() == 3 && j.get("min").is_some() && j.get("raw").is_some() && j.get("max").is_some() {
                Shape::Range
            } else {
                Shape::Unrecognized
            }
        },
        Json::String(_) => Shape::Token,
        Json::Array(_) => Shape::Aggregate,
        _ => Shape::Unrecognized,
    }
}

/// A statistic with a range: the value it has before rolling, and the bounds
/// of the roll.
#[derive(Clone, Debug, PartialEq, Eq, Structural)]
pub struct DynamicIdentificationStats {
    pub min: i64,
    pub raw: i64,
    pub max: i64,
}

impl Decode for DynamicIdentificationStats {
    open spec fn failure(j: JsonValue) -> Option<DecodeFault> {
        required_failure::<i64>(j, "min"@)
            .otherwise(required_failure::<i64>(j, "raw"@))
            .otherwise(required_failure::<i64>(j, "max"@))
    }

    open spec fn reads(&self, j: JsonValue) -> bool {
        &&& required_reads(self.min, j, "min"@)
        &&& required_reads(self.raw, j, "raw"@)
        &&& required_reads(self.max, j, "max"@)
    }

    fn decode(j: &Json) -> (r: Result<Self, DecodeError>) {
        let min = required::<i64>(j, "min")?;
        let raw = required::<i64>(j, "raw")?;
        let max = required::<i64>(j, "max")?;
        Ok(DynamicIdentificationStats { min, raw, max })
    }
}

/// What an item does to a statistic: a fixed amount, or an amount that is
/// rolled within a range. The two are told apart by shape.
#[derive(Clone, Debug, PartialEq, Eq, Structural)]
pub enum IdentificationStats {
    Static(i64),
    Dynamic(DynamicIdentificationStats),
}

impl Decode for IdentificationStats {
    open spec fn failure(j: JsonValue) -> Option<DecodeFault> {
        match shape(j) {
            Shape::Number => if <i64 as Decode>::failure(j) is None {
                None
            } else {
                Some(plain_fault(ErrorKind::UnrecognizedShape))
            },
            Shape::Range => if DynamicIdentificationStats::failure(j) is None {
                None
            } else {
                Some(plain_fault(ErrorKind::UnrecognizedShape))
            },
            _ => Some(plain_fault(ErrorKind::UnrecognizedShape)),
        }
    }

    open spec fn reads(&self, j: JsonValue) -> bool {
        match self {
            IdentificationStats::Static(n) => shape(j) == Shape::Number && n.reads(j),
            IdentificationStats::Dynamic(range) => shape(j) == Shape::Range && range.reads(j),
        }
    }

    fn decode(j: &Json) -> (r: Result<Self, DecodeError>) {
        match shape_of(j) {
            Shape::Number => match <i64 as Decode>::decode(j) {
                Ok(n) => Ok(IdentificationStats::Static(n)),
                Err(_) => Err(DecodeError::plain(ErrorKind::UnrecognizedShape)),
            },
            Shape::Range => match DynamicIdentificationStats::decode(j) {
                Ok(range) => Ok(IdentificationStats::Dynamic(range)),
                Err(_) => Err(DecodeError::plain(ErrorKind::UnrecognizedShape)),
            },
            _ => Err(DecodeError::plain(ErrorKind::UnrecognizedShape)),
        }
    }
}

/// How an item is come by.
#[derive(Clone, Debug, PartialEq, Eq, Structural)]
pub enum DropType {
    Merchant,
    Lootrun,
    Raid,
    Miniboss,
    Guild,
    Altar,
    Quest,
    DungeonMerchant,
    Dungeon,
    Challenge,
    /// Sold at events; the API lists the events in place of a token.
    EventMerchant,
}

impl DropType {
    /// The way that a token stands for, if it is one.
    pub open spec fn of_token(s: Seq<char>) -> Option<DropType> {
        if s == "merchant"@ {
            Some(DropType::Merchant)
        } else if s == "lootrun"@ {
            Some(DropType::Lootrun)
        } else if s == "raid"@ {
            Some(DropType::Raid)
        } else if s == "miniboss"@ {
            Some(DropType::Miniboss)
        } else if s == "guild"@ {
            Some(DropType::Guild)
        } else if s == "altar"@ {
            Some(DropType::Altar)
        } else if s == "quest"@ {
            Some(DropType::Quest)
        } else if s == "dungeonMerchant"@ {
            Some(DropType::DungeonMerchant)
        } else if s == "dungeon"@ {
            Some(DropType::Dungeon)
        } else if s == "challenge"@ {
            Some(DropType::Challenge)
        } else {
            None
        }
    }

    /// The way that a document stands for: that of its token where it is a
    /// string, `EventMerchant` where it is an array.
    pub open spec fn resolved(j: JsonValue) -> Option<DropType> {
        match shape(j) {
            Shape::Token => Self::of_token(j->String_0),
            Shape::Aggregate => Some(DropType::EventMerchant),
            _ => None,
        }
    }

    /// Reads a token.
    pub fn from_token(s: &str) -> (r: Option<DropType>)
        ensures
            r == Self::of_token(s@),
    {
        if same_text(s, "merchant") {
            Some(DropType::Merchant)
        } else if same_text(s, "lootrun") {
            Some(DropType::Lootrun)
        } else if same_text(s, "raid") {
            Some(DropType::Raid)
        } else if same_text(s, "miniboss") {
            Some(DropType::Miniboss)
        } else if same_text(s, "guild") {
            Some(DropType::Guild)
        } else if same_text(s, "altar") {
            Some(DropType::Altar)
        } else if same_text(s, "quest") {
            Some(DropType::Quest)
        } else if same_text(s, "dungeonMerchant") {
            Some(DropType::DungeonMerchant)
        } else if same_text(s, "dungeon") {
            Some(DropType::Dungeon)
        } else if same_text(s, "challenge") {
            Some(DropType::Challenge)
        } else {
            None
        }
    }
}

impl Decode for DropType {
    open spec fn failure(j: JsonValue) -> Option<DecodeFault> {
        if Self::resolved(j) is Some {
            None
        } else {
            Some(plain_fault(ErrorKind::UnrecognizedShape))
        }
    }

    open spec fn reads(&self, j: JsonValue) -> bool {
        Self::resolved(j) == Some(*self)
    }

    fn decode(j: &Json) -> (r: Result<Self, DecodeError>) {
        let way = match shape_of(j) {
            Shape::Token => match j {
                Json::String(s) => DropType::from_token(s.as_str()),
                _ => None,
            },
            Shape::Aggregate => Some(DropType::EventMerchant),
            _ => None,
        };
        match way {
            Some(way) => Ok(way),
            None => Err(DecodeError::plain(ErrorKind::UnrecognizedShape)),
        }
    }
}

/// A kind of item that can be crafted.
///
/// The kinds are written as bare tokens; the family whose list holds the
/// token is found by trying the families in the order given here.
#[derive(Clone, Copy, Debug, PartialEq, Eq, PartialOrd, Ord, Hash, Structural)]
pub enum CraftedItemType {
    Weapon(WeaponType),
    Armour(ArmourType),
    Accessory(AccessoryType),
    Other(OtherCraftedItemType),
}

impl CraftedItemType {
    /// The kind that a token stands for: that of the first family that knows it.
    pub open spec fn of_token(s: Seq<char>) -> Option<CraftedItemType> {
        if WeaponType::of_token(s) is Some {
            Some(CraftedItemType::Weapon(WeaponType::of_token(s)->Some_0))
        } else if ArmourType::of_token(s) is Some {
            Some(CraftedItemType::Armour(ArmourType::of_token(s)->Some_0))
        } else if AccessoryType::of_token(s) is Some {
            Some(CraftedItemType::Accessory(AccessoryType::of_token(s)->Some_0))
        } else if OtherCraftedItemType::of_token(s) is Some {
            Some(CraftedItemType::Other(OtherCraftedItemType::of_token(s)->Some_0))
        } else {
            None
        }
    }

    /// The token by which the kind is written.
    pub open spec fn token(self) -> Seq<char> {
        match self {
            CraftedItemType::Weapon(kind) => kind.token(),
            CraftedItemType::Armour(kind) => kind.token(),
            CraftedItemType::Accessory(kind) => kind.token(),
            CraftedItemType::Other(kind) => kind.token(),
        }
    }

    /// Reads a token.
    pub fn from_token(s: &str) -> (r: Option<CraftedItemType>)
        ensures
            r == Self::of_token(s@),
    {
        if let Some(kind) = WeaponType::from_token(s) {
            return Some(CraftedItemType::Weapon(kind));
        }
        if let Some(kind) = ArmourType::from_token(s) {
            return Some(CraftedItemType::Armour(kind));
        }
        if let Some(kind) = AccessoryType::from_token(s) {
            return Some(CraftedItemType::Accessory(kind));
        }
        if let Some(kind) = OtherCraftedItemType::from_token(s) {
            return Some(CraftedItemType::Other(kind));
        }
        None
    }

    /// Writes the kind as its token.
    pub fn as_token(self) -> (r: &'static str)
        ensures
            r@ == self.token(),
    {
        match self {
            CraftedItemType::Weapon(kind) => kind.as_token(),
            CraftedItemType::Armour(kind) => kind.as_token(),
            CraftedItemType::Accessory(kind) => kind.as_token(),
            CraftedItemType::Other(kind) => kind.as_token(),
        }
    }
}

impl Decode for CraftedItemType {
    open spec fn failure(j: JsonValue) -> Option<DecodeFault> {
        if j is String && Self::of_token(j->String_0) is Some {
            None
        } else {
            Some(plain_fault(ErrorKind::UnrecognizedShape))
        }
    }

    open spec fn reads(&self, j: JsonValue) -> bool {
        j is String && Self::of_token(j->String_0) == Some(*self)
    }

    fn decode(j: &Json) -> (r: Result<Self, DecodeError>) {
        match j {
            Json::String(s) => match Self::from_token(s.as_str()) {
                Some(kind) => Ok(kind),
                None => Err(DecodeError::plain(ErrorKind::UnrecognizedShape)),
            },
            _ => Err(DecodeError::plain(ErrorKind::UnrecognizedShape)),
        }
    }
}

/// A kind of item.
///
/// The kinds are written as bare tokens; the family whose list holds the
/// token is found by trying the families in the order given here.
#[derive(Clone, Copy, Debug, PartialEq, Eq, PartialOrd, Ord, Hash, Structural)]
pub enum ItemType {
    Tool(ToolType),
    Weapon(WeaponType),
    Armour(ArmourType),
    Accessory(AccessoryType),
    Tome(TomeType),
    Other(OtherItemType),
}

impl ItemType {
    /// The kind that a token stands for: that of the first family that knows it.
    pub open spec fn of_token(s: Seq<char>) -> Option<ItemType> {
        if ToolType::of_token(s) is Some {
            Some(ItemType::Tool(ToolType::of_token(s)->Some_0))
        } else if WeaponType::of_token(s) is Some {
            Some(ItemType::Weapon(WeaponType::of_token(s)->Some_0))
        } else if ArmourType::of_token(s) is Some {
            Some(ItemType::Armour(ArmourType::of_token(s)->Some_0))
        } else if AccessoryType::of_token(s) is Some {
            Some(ItemType::Accessory(AccessoryType::of_token(s)->Some_0))
        } else if TomeType::of_token(s) is Some {
            Some(ItemType::Tome(TomeType::of_token(s)->Some_0))
        } else if OtherItemType::of_token(s) is Some {
            Some(ItemType::Other(OtherItemType::of_token(s)->Some_0))
        } else {
            None
        }
    }

    /// The token by which the kind is written.
    pub open spec fn token(self) -> Seq<char> {
        match self {
            ItemType::Tool(kind) => kind.token(),
            ItemType::Weapon(kind) => kind.token(),
            ItemType::Armour(kind) => kind.token(),
            ItemType::Accessory(kind) => kind.token(),
            ItemType::Tome(kind) => kind.token(),
            ItemType::Other(kind) => kind.token(),
        }
    }

    /// Reads a token.
    pub fn from_token(s: &str) -> (r: Option<ItemType>)
        ensures
            r == Self::of_token(s@),
    {
        if let Some(kind) = ToolType::from_token(s) {
            return Some(ItemType::Tool(kind));
        }
        if let Some(kind) = WeaponType::from_token(s) {
            return Some(ItemType::Weapon(kind));
        }
        if let Some(kind) = ArmourType::from_token(s) {
            return Some(ItemType::Armour(kind));
        }
        if let Some(kind) = AccessoryType::from_token(s) {
            return Some(ItemType::Accessory(kind));
        }
        if let Some(kind) = TomeType::from_token(s) {
            return Some(ItemType::Tome(kind));
        }
        if let Some(kind) = OtherItemType::from_token(s) {
            return Some(ItemType::Other(kind));
        }
        None
    }

    /// Writes the kind as its token.
    pub fn as_token(self) -> (r: &'static str)
        ensures
            r@ == self.token(),
    {
        match self {
            ItemType::Tool(kind) => kind.as_token(),
            ItemType::Weapon(kind) => kind.as_token(),
            ItemType::Armour(kind) => kind.as_token(),
            ItemType::Accessory(kind) => kind.as_token(),
            ItemType::Tome(kind) => kind.as_token(),
            ItemType::Other(kind) => kind.as_token(),
        }
    }
}

impl Decode for ItemType {
    open spec fn failure(j: JsonValue) -> Option<DecodeFault> {
        if j is String && Self::of_token(j->String_0) is Some {
            None
        } else {
            Some(plain_fault(ErrorKind::UnrecognizedShape))
        }
    }

    open spec fn reads(&self, j: JsonValue) -> bool {
        j is String && Self::of_token(j->String_0) == Some(*self)
    }

    fn decode(j: &Json) -> (r: Result<Self, DecodeError>) {
        match j {
            Json::String(s) => match Self::from_token(s.as_str()) {
                Some(kind) => Ok(kind),
                None => Err(DecodeError::plain(ErrorKind::UnrecognizedShape)),
            },
            _ => Err(DecodeError::plain(ErrorKind::UnrecognizedShape)),
        }
    }
}

/// The rarity of an item, or the tier of an ingredient: whichever the
/// document can be read as, the rarity tried first.
#[derive(Clone, Copy, Debug, PartialEq, Eq, PartialOrd, Ord, Hash, Structural)]
pub enum Rarity {
    Item(ItemRarity),
    Ingredient(IngredientTier),
}

impl Rarity {
    /// The rarity or tier that a document stands for.
    pub open spec fn resolved(j: JsonValue) -> Option<Rarity> {
        if j is String && ItemRarity::of_token(j->String_0) is Some {
            Some(Rarity::Item(ItemRarity::of_token(j->String_0)->Some_0))
        } else if IngredientTier::resolved(j) is Some {
            Some(Rarity::Ingredient(IngredientTier::resolved(j)->Some_0))
        } else {
            None
        }
    }
}

impl Decode for Rarity {
    open spec fn failure(j: JsonValue) -> Option<DecodeFault> {
        if Self::resolved(j) is Some {
            None
        } else {
            Some(plain_fault(ErrorKind::UnrecognizedShape))
        }
    }

    open spec fn reads(&self, j: JsonValue) -> bool {
        Self::resolved(j) == Some(*self)
    }

    fn decode(j: &Json) -> (r: Result<Self, DecodeError>) {
        if let Ok(rarity) = <ItemRarity as Decode>::decode(j) {
            return Ok(Rarity::Item(rarity));
        }
        match IngredientTier::decode(j) {
            Ok(tier) => Ok(Rarity::Ingredient(tier)),
            Err(_) => Err(DecodeError::plain(ErrorKind::UnrecognizedShape)),
        }
    }
}

impl From<IngredientTier> for Rarity {
    fn from(val: IngredientTier) -> (r: Rarity) {
        Rarity::Ingredient(val)
    }
}

impl FromSpecImpl<IngredientTier> for Rarity {
    open spec fn obeys_from_spec() -> bool {
        true
    }

    open spec fn from_spec(val: IngredientTier) -> Rarity {
        Rarity::Ingredient(val)
    }
}

impl From<ItemRarity> for Rarity {
    fn from(val: ItemRarity) -> (r: Rarity) {
        Rarity::Item(val)
    }
}

impl FromSpecImpl<ItemRarity> for Rarity {
    open spec fn obeys_from_spec() -> bool {
        true
    }

    open spec fn from_spec(val: ItemRarity) -> Rarity {
        Rarity::Item(val)
    }
}

impl From<ToolType> for ItemType {
    fn from(val: ToolType) -> (r: ItemType) {
        ItemType::Tool(val)
    }
}

impl FromSpecImpl<ToolType> for ItemType {
    open spec fn obeys_from_spec() -> bool {
        true
    }

    open spec fn from_spec(val: ToolType) -> ItemType {
        ItemType::Tool(val)
    }
}

impl From<WeaponType> for ItemType {
    fn from(val: WeaponType) -> (r: ItemType) {
        ItemType::Weapon(val)
    }
}

impl FromSpecImpl<WeaponType> for ItemType {
    open spec fn obeys_from_spec() -> bool {
        true
    }

    open spec fn from_spec(val: WeaponType) -> ItemType {
        ItemType::Weapon(val)
    }
}

impl From<ArmourType> for ItemType {
    fn from(val: ArmourType) -> (r: ItemType) {
        ItemType::Armour(val)
    }
}

impl FromSpecImpl<ArmourType> for ItemType {
    open spec fn obeys_from_spec() -> bool {
        true
    }

    open spec fn from_spec(val: ArmourType) -> ItemType {
        ItemType::Armour(val)
    }
}

impl From<AccessoryType> for ItemType {
    fn from(val: AccessoryType) -> (r: ItemType) {
        ItemType::Accessory(val)
    }
}

impl FromSpecImpl<AccessoryType> for ItemType {
    open spec fn obeys_from_spec() -> bool {
        true
    }

    open spec fn from_spec(val: AccessoryType) -> ItemType {
        ItemType::Accessory(val)
    }
}

impl From<TomeType> for ItemType {
    fn from(val: TomeType) -> (r: ItemType) {
        ItemType::Tome(val)
    }
}

impl FromSpecImpl<TomeType> for ItemType {
    open spec fn obeys_from_spec() -> bool {
        true
    }

    open spec fn from_spec(val: TomeType) -> ItemType {
        ItemType::Tome(val)
    }
}

impl From<OtherItemType> for ItemType {
    fn from(val: OtherItemType) -> (r: ItemType) {
        ItemType::Other(val)
    }
}

impl FromSpecImpl<OtherItemType> for ItemType {
    open spec fn obeys_from_spec() -> bool {
        true
    }

    open spec fn from_spec(val: OtherItemType) -> ItemType {
        ItemType::Other(val)
    }
}

impl From<WeaponType> for CraftedItemType {
    fn from(val: WeaponType) -> (r: CraftedItemType) {
        CraftedItemType::Weapon(val)
    }
}

impl FromSpecImpl<WeaponType> for CraftedItemType {
    open spec fn obeys_from_spec() -> bool {
        true
    }

    open spec fn from_spec(val: WeaponType) -> CraftedItemType {
        CraftedItemType::Weapon(val)
    }
}

impl From<ArmourType> for CraftedItemType {
    fn from(val: ArmourType) -> (r: CraftedItemType) {
        CraftedItemType::Armour(val)
    }
}

impl FromSpecImpl<ArmourType> for CraftedItemType {
    open spec fn obeys_from_spec() -> bool {
        true
    }

    open spec fn from_spec(val: ArmourType) -> CraftedItemType {
        CraftedItemType::Armour(val)
    }
}

impl From<AccessoryType> for CraftedItemType {
    fn from(val: AccessoryType) -> (r: CraftedItemType) {
        CraftedItemType::Accessory(val)
    }
}

impl FromSpecImpl<AccessoryType> for CraftedItemType {
    open spec fn obeys_from_spec() -> bool {
        true
    }

    open spec fn from_spec(val: AccessoryType) -> CraftedItemType {
        CraftedItemType::Accessory(val)
    }
}

impl From<OtherCraftedItemType> for CraftedItemType {
    fn from(val: OtherCraftedItemType) -> (r: CraftedItemType) {
        CraftedItemType::Other(val)
    }
}

impl FromSpecImpl<OtherCraftedItemType> for CraftedItemType {
    open spec fn obeys_from_spec() -> bool {
        true
    }

    open spec fn from_spec(val: OtherCraftedItemType) -> CraftedItemType {
        CraftedItemType::Other(val)
    }
}
impl Encode for IngredientTier {
    open spec fn valid(&self) -> bool {
        true
    }

    open spec fn encoded(&self) -> JsonValue {
        JsonValue::Number(JsonNumber::Unsigned(self.stars() as u64))
    }

    fn encode(&self) -> (j: Json) {
        let stars: u64 = match self {
            IngredientTier::Ingredient0Star => 0,
            IngredientTier::Ingredient1Star => 1,
            IngredientTier::Ingredient2Star => 2,
            IngredientTier::Ingredient3Star => 3,
        };
        Json::Number(JsonNumber::Unsigned(stars))
    }

    proof fn lemma_read_back(&self) {
    }

    proof fn lemma_one_reading(&self, other: &Self, j: JsonValue) {
    }

    proof fn lemma_read_is_valid(&self, j: JsonValue) {
    }
}

impl Encode for Rarity {
    open spec fn valid(&self) -> bool {
        true
    }

    open spec fn encoded(&self) -> JsonValue {
        match self {
            Rarity::Item(rarity) => rarity.encoded(),
            Rarity::Ingredient(tier) => tier.encoded(),
        }
    }

    fn encode(&self) -> (j: Json) {
        match self {
            Rarity::Item(rarity) => rarity.encode(),
            Rarity::Ingredient(tier) => tier.encode(),
        }
    }

    proof fn lemma_read_back(&self) {
        match self {
            Rarity::Item(rarity) => {
                rarity.lemma_token_is_read();
            },
            Rarity::Ingredient(tier) => {
                tier.lemma_read_back();
            },
        }
    }

    proof fn lemma_one_reading(&self, other: &Self, j: JsonValue) {
    }

    proof fn lemma_read_is_valid(&self, j: JsonValue) {
    }
}

impl Encode for DropType {
    open spec fn valid(&self) -> bool {
        true
    }

    open spec fn encoded(&self) -> JsonValue {
        match self {
            DropType::Merchant => JsonValue::String("merchant"@),
            DropType::Lootrun => JsonValue::String("lootrun"@),
            DropType::Raid => JsonValue::String("raid"@),
            DropType::Miniboss => JsonValue::String("miniboss"@),
            DropType::Guild => JsonValue::String("guild"@),
            DropType::Altar => JsonValue::String("altar"@),
            DropType::Quest => JsonValue::String("quest"@),
            DropType::DungeonMerchant => JsonValue::String("dungeonMerchant"@),
            DropType::Dungeon => JsonValue::String("dungeon"@),
            DropType::Challenge => JsonValue::String("challenge"@),
            DropType::EventMerchant => JsonValue::Array(Seq::empty()),
        }
    }

    fn encode(&self) -> (j: Json) {
        let token = match self {
            DropType::Merchant => "merchant",
            DropType::Lootrun => "lootrun",
            DropType::Raid => "raid",
            DropType::Miniboss => "miniboss",
            DropType::Guild => "guild",
            DropType::Altar => "altar",
            DropType::Quest => "quest",
            DropType::DungeonMerchant => "dungeonMerchant",
            DropType::Dungeon => "dungeon",
            DropType::Challenge => "challenge",
            DropType::EventMerchant => {
                let j = Json::Array(Vec::new());
                proof {
                    lemma_array_view(j);
                    assert(j@->Array_0 =~= Seq::<JsonValue>::empty());
                }
                return j;
            },
        };
        Json::String(String::from_str(token))
    }

    proof fn lemma_read_back(&self) {
        reveal_strlit("merchant");
        assert("merchant"@.len() == 8 && "merchant"@[2] == 'r');
        reveal_strlit("lootrun");
        assert("lootrun"@.len() == 7 && "lootrun"@[2] == 'o');
        reveal_strlit("raid");
        assert("raid"@.len() == 4 && "raid"@[2] == 'i');
        reveal_strlit("miniboss");
        assert("miniboss"@.len() == 8 && "miniboss"@[2] == 'n');
        reveal_strlit("guild");
        assert("guild"@.len() == 5 && "guild"@[2] == 'i');
        reveal_strlit("altar");
        assert("altar"@.len() == 5 && "altar"@[2] == 't');
        reveal_strlit("quest");
        assert("quest"@.len() == 5 && "quest"@[2] == 'e');
        reveal_strlit("dungeonMerchant");
        assert("dungeonMerchant"@.len() == 15 && "dungeonMerchant"@[2] == 'n');
        reveal_strlit("dungeon");
        assert("dungeon"@.len() == 7 && "dungeon"@[2] == 'n');
        reveal_strlit("challenge");
        assert("challenge"@.len() == 9 && "challenge"@[2] == 'a');
    }

    proof fn lemma_one_reading(&self, other: &Self, j: JsonValue) {
    }

    proof fn lemma_read_is_valid(&self, j: JsonValue) {
    }
}

impl Encode for DynamicIdentificationStats {
    open spec fn valid(&self) -> bool {
        true
    }

    open spec fn encoded(&self) -> JsonValue {
        JsonValue::Object(
            seq![("min"@, self.min.encoded()), ("raw"@, self.raw.encoded()), ("max"@, self.max.encoded())],
        )
    }

    fn encode(&self) -> (j: Json) {
        let j = ObjectWriter::new().with("min", self.min.encode()).with("raw", self.raw.encode()).with(
            "max",
            self.max.encode(),
        ).done();
        assert(j@->Object_0 =~= self.encoded()->Object_0);
        j
    }

    proof fn lemma_read_back(&self) {
        let j = self.encoded();
        let members = j->Object_0;
        reveal_strlit("min");
        assert("min"@.len() == 3 && "min"@[0] == 'm' && "min"@[1] == 'i');
        reveal_strlit("raw");
        assert("raw"@.len() == 3 && "raw"@[0] == 'r' && "raw"@[1] == 'a');
        reveal_strlit("max");
        assert("max"@.len() == 3 && "max"@[0] == 'm' && "max"@[1] == 'a');
        lemma_member_at(members, "min"@, 0);
        lemma_required_read_back(&self.min, j, "min"@);
        lemma_member_at(members, "raw"@, 1);
        lemma_required_read_back(&self.raw, j, "raw"@);
        lemma_member_at(members, "max"@, 2);
        lemma_required_read_back(&self.max, j, "max"@);
    }

    proof fn lemma_one_reading(&self, other: &Self, j: JsonValue) {
        lemma_required_one_reading(&self.min, &other.min, j, "min"@);
        lemma_required_one_reading(&self.raw, &other.raw, j, "raw"@);
        lemma_required_one_reading(&self.max, &other.max, j, "max"@);
    }

    proof fn lemma_read_is_valid(&self, j: JsonValue) {
    }
}

impl Encode for IdentificationStats {
    open spec fn valid(&self) -> bool {
        true
    }

    open spec fn encoded(&self) -> JsonValue {
        match self {
            IdentificationStats::Static(n) => n.encoded(),
            IdentificationStats::Dynamic(range) => range.encoded(),
        }
    }

    fn encode(&self) -> (j: Json) {
        match self {
            IdentificationStats::Static(n) => n.encode(),
            IdentificationStats::Dynamic(range) => range.encode(),
        }
    }

    proof fn lemma_read_back(&self) {
        match self {
            IdentificationStats::Static(n) => {
                n.lemma_read_back();
            },
            IdentificationStats::Dynamic(range) => {
                range.lemma_read_back();
            },
        }
    }

    proof fn lemma_one_reading(&self, other: &Self, j: JsonValue) {
        match self {
            IdentificationStats::Static(n) => {
                n.lemma_one_reading(&other->Static_0, j);
            },
            IdentificationStats::Dynamic(range) => {
                range.lemma_one_reading(&other->Dynamic_0, j);
            },
        }
    }

    proof fn lemma_read_is_valid(&self, j: JsonValue) {
    }
}

impl SetItem for Rarity {
    open spec fn same_item(x: JsonValue, y: JsonValue) -> bool {
        Rarity::resolved(x) == Rarity::resolved(y)
    }

    fn alike(&self, other: &Self) -> (r: bool) {
        *self == *other
    }
}

impl WriteItem for Rarity {
    proof fn lemma_same_item(&self, other: &Self, x: JsonValue, y: JsonValue) {
        self.lemma_read_back();
        other.lemma_read_back();
    }
}

impl CraftedItemType {
    /// The token of a kind is read back as the kind: no token belongs to two
    /// families.
    pub proof fn lemma_token_is_read(self)
        ensures
            Self::of_token(self.token()) == Some(self),
    {
        reveal_strlit("dagger");
        assert("dagger"@.len() == 6 && "dagger"@[0] == 'd' && "dagger"@[1] == 'a');
        reveal_strlit("daggers");
        assert("daggers"@.len() == 7 && "daggers"@[0] == 'd' && "daggers"@[1] == 'a');
        reveal_strlit("bow");
        assert("bow"@.len() == 3 && "bow"@[0] == 'b' && "bow"@[1] == 'o');
        reveal_strlit("bows");
        assert("bows"@.len() == 4 && "bows"@[0] == 'b' && "bows"@[1] == 'o');
        reveal_strlit("spear");
        assert("spear"@.len() == 5 && "spear"@[0] == 's' && "spear"@[1] == 'p');
        reveal_strlit("spears");
        assert("spears"@.len() == 6 && "spears"@[0] == 's' && "spears"@[1] == 'p');
        reveal_strlit("relik");
        assert("relik"@.len() == 5 && "relik"@[0] == 'r' && "relik"@[1] == 'e');
        reveal_strlit("reliks");
        assert("reliks"@.len() == 6 && "reliks"@[0] == 'r' && "reliks"@[1] == 'e');
        reveal_strlit("wand");
        assert("wand"@.len() == 4 && "wand"@[0] == 'w' && "wand"@[1] == 'a');
        reveal_strlit("wands");
        assert("wands"@.len() == 5 && "wands"@[0] == 'w' && "wands"@[1] == 'a');
        reveal_strlit("helmet");
        assert("helmet"@.len() == 6 && "helmet"@[0] == 'h' && "helmet"@[1] == 'e');
        reveal_strlit("helmets");
        assert("helmets"@.len() == 7 && "helmets"@[0] == 'h' && "helmets"@[1] == 'e');
        reveal_strlit("chestplate");
        assert("chestplate"@.len() == 10 && "chestplate"@[0] == 'c' && "chestplate"@[1] == 'h');
        reveal_strlit("chestplates");
        assert("chestplates"@.len() == 11 && "chestplates"@[0] == 'c' && "chestplates"@[1] == 'h');
        reveal_strlit("leggings");
        assert("leggings"@.len() == 8 && "leggings"@[0] == 'l' && "leggings"@[1] == 'e');
        reveal_strlit("boots");
        assert("boots"@.len() == 5 && "boots"@[0] == 'b' && "boots"@[1] == 'o');
        reveal_strlit("bracelet");
        assert("bracelet"@.len() == 8 && "bracelet"@[0] == 'b' && "bracelet"@[1] == 'r');
        reveal_strlit("bracelets");
        assert("bracelets"@.len() == 9 && "bracelets"@[0] == 'b' && "bracelets"@[1] == 'r');
        reveal_strlit("necklace");
        assert("necklace"@.len() == 8 && "necklace"@[0] == 'n' && "necklace"@[1] == 'e');
        reveal_strlit("necklaces");
        assert("necklaces"@.len() == 9 && "necklaces"@[0] == 'n' && "necklaces"@[1] == 'e');
        reveal_strlit("ring");
        assert("ring"@.len() == 4 && "ring"@[0] == 'r' && "ring"@[1] == 'i');
        reveal_strlit("rings");
        assert("rings"@.len() == 5 && "rings"@[0] == 'r' && "rings"@[1] == 'i');
        reveal_strlit("potion");
        assert("potion"@.len() == 6 && "potion"@[0] == 'p' && "potion"@[1] == 'o');
        reveal_strlit("potions");
        assert("potions"@.len() == 7 && "potions"@[0] == 'p' && "potions"@[1] == 'o');
        reveal_strlit("scroll");
        assert("scroll"@.len() == 6 && "scroll"@[0] == 's' && "scroll"@[1] == 'c');
        reveal_strlit("scrolls");
        assert("scrolls"@.len() == 7 && "scrolls"@[0] == 's' && "scrolls"@[1] == 'c');
        reveal_strlit("food");
        assert("food"@.len() == 4 && "food"@[0] == 'f' && "food"@[1] == 'o');
        match self {
            CraftedItemType::Weapon(kind) => {
                kind.lemma_token_is_read();
            },
            CraftedItemType::Armour(kind) => {
                kind.lemma_token_is_read();
            },
            CraftedItemType::Accessory(kind) => {
                kind.lemma_token_is_read();
            },
            CraftedItemType::Other(kind) => {
                kind.lemma_token_is_read();
            },
        }
    }
}

impl SetItem for CraftedItemType {
    open spec fn same_item(x: JsonValue, y: JsonValue) -> bool {
        x is String && y is String && Self::of_token(x->String_0) == Self::of_token(y->String_0)
    }

    fn alike(&self, other: &Self) -> (r: bool) {
        *self == *other
    }
}

impl Encode for CraftedItemType {
    open spec fn valid(&self) -> bool {
        true
    }

    open spec fn encoded(&self) -> JsonValue {
        JsonValue::String(self.token())
    }

    fn encode(&self) -> (j: Json) {
        Json::String(String::from_str(self.as_token()))
    }

    proof fn lemma_read_back(&self) {
        self.lemma_token_is_read();
    }

    proof fn lemma_one_reading(&self, other: &Self, j: JsonValue) {
    }

    proof fn lemma_read_is_valid(&self, j: JsonValue) {
    }
}

impl WriteItem for CraftedItemType {
    proof fn lemma_same_item(&self, other: &Self, x: JsonValue, y: JsonValue) {
        self.lemma_token_is_read();
        other.lemma_token_is_read();
    }
}

impl ItemType {
    /// The token of a kind is read back as the kind: no token belongs to two
    /// families.
    pub proof fn lemma_token_is_read(self)
        ensures
            Self::of_token(self.token()) == Some(self),
    {
        reveal_strlit("axe");
        assert("axe"@.len() == 3 && "axe"@[0] == 'a' && "axe"@[1] == 'x');
        reveal_strlit("rod");
        assert("rod"@.len() == 3 && "rod"@[0] == 'r' && "rod"@[1] == 'o');
        reveal_strlit("pickaxe");
        assert("pickaxe"@.len() == 7 && "pickaxe"@[0] == 'p' && "pickaxe"@[1] == 'i');
        reveal_strlit("scythe");
        assert("scythe"@.len() == 6 && "scythe"@[0] == 's' && "scythe"@[1] == 'c');
        reveal_strlit("dagger");
        assert("dagger"@.len() == 6 && "dagger"@[0] == 'd' && "dagger"@[1] == 'a');
        reveal_strlit("daggers");
        assert("daggers"@.len() == 7 && "daggers"@[0] == 'd' && "daggers"@[1] == 'a');
        reveal_strlit("bow");
        assert("bow"@.len() == 3 && "bow"@[0] == 'b' && "bow"@[1] == 'o');
        reveal_strlit("bows");
        assert("bows"@.len() == 4 && "bows"@[0] == 'b' && "bows"@[1] == 'o');
        reveal_strlit("spear");
        assert("spear"@.len() == 5 && "spear"@[0] == 's' && "spear"@[1] == 'p');
        reveal_strlit("spears");
        assert("spears"@.len() == 6 && "spears"@[0] == 's' && "spears"@[1] == 'p');
        reveal_strlit("relik");
        assert("relik"@.len() == 5 && "relik"@[0] == 'r' && "relik"@[1] == 'e');
        reveal_strlit("reliks");
        assert("reliks"@.len() == 6 && "reliks"@[0] == 'r' && "reliks"@[1] == 'e');
        reveal_strlit("wand");
        assert("wand"@.len() == 4 && "wand"@[0] == 'w' && "wand"@[1] == 'a');
        reveal_strlit("wands");
        assert("wands"@.len() == 5 && "wands"@[0] == 'w' && "wands"@[1] == 'a');
        reveal_strlit("helmet");
        assert("helmet"@.len() == 6 && "helmet"@[0] == 'h' && "helmet"@[1] == 'e');
        reveal_strlit("helmets");
        assert("helmets"@.len() == 7 && "helmets"@[0] == 'h' && "helmets"@[1] == 'e');
        reveal_strlit("chestplate");
        assert("chestplate"@.len() == 10 && "chestplate"@[0] == 'c' && "chestplate"@[1] == 'h');
        reveal_strlit("chestplates");
        assert("chestplates"@.len() == 11 && "chestplates"@[0] == 'c' && "chestplates"@[1] == 'h');
        reveal_strlit("leggings");
        assert("leggings"@.len() == 8 && "leggings"@[0] == 'l' && "leggings"@[1] == 'e');
        reveal_strlit("boots");
        assert("boots"@.len() == 5 && "boots"@[0] == 'b' && "boots"@[1] == 'o');
        reveal_strlit("bracelet");
        assert("bracelet"@.len() == 8 && "bracelet"@[0] == 'b' && "bracelet"@[1] == 'r');
        reveal_strlit("bracelets");
        assert("bracelets"@.len() == 9 && "bracelets"@[0] == 'b' && "bracelets"@[1] == 'r');
        reveal_strlit("necklace");
        assert("necklace"@.len() == 8 && "necklace"@[0] == 'n' && "necklace"@[1] == 'e');
        reveal_strlit("necklaces");
        assert("necklaces"@.len() == 9 && "necklaces"@[0] == 'n' && "necklaces"@[1] == 'e');
        reveal_strlit("ring");
        assert("ring"@.len() == 4 && "ring"@[0] == 'r' && "ring"@[1] == 'i');
        reveal_strlit("rings");
        assert("rings"@.len() == 5 && "rings"@[0] == 'r' && "rings"@[1] == 'i');
        reveal_strlit("weaponTome");
        assert("weaponTome"@.len() == 10 && "weaponTome"@[0] == 'w' && "weaponTome"@[1] == 'e');
        reveal_strlit("weapon_tome");
        assert("weapon_tome"@.len() == 11 && "weapon_tome"@[0] == 'w' && "weapon_tome"@[1] == 'e');
        reveal_strlit("armourTome");
        assert("armourTome"@.len() == 10 && "armourTome"@[0] == 'a' && "armourTome"@[1] == 'r');
        reveal_strlit("armour_tome");
        assert("armour_tome"@.len() == 11 && "armour_tome"@[0] == 'a' && "armour_tome"@[1] == 'r');
        reveal_strlit("guildTome");
        assert("guildTome"@.len() == 9 && "guildTome"@[0] == 'g' && "guildTome"@[1] == 'u');
        reveal_strlit("guild_tome");
        assert("guild_tome"@.len() == 10 && "guild_tome"@[0] == 'g' && "guild_tome"@[1] == 'u');
        reveal_strlit("expertiseTome");
        assert("expertiseTome"@.len() == 13 && "expertiseTome"@[0] == 'e' && "expertiseTome"@[1] == 'x');
        reveal_strlit("expertise_tome");
        assert("expertise_tome"@.len() == 14 && "expertise_tome"@[0] == 'e' && "expertise_tome"@[1] == 'x');
        reveal_strlit("mysticismTome");
        assert("mysticismTome"@.len() == 13 && "mysticismTome"@[0] == 'm' && "mysticismTome"@[1] == 'y');
        reveal_strlit("mysticism_tome");
        assert("mysticism_tome"@.len() == 14 && "mysticism_tome"@[0] == 'm' && "mysticism_tome"@[1] == 'y');
        reveal_strlit("marathonTome");
        assert("marathonTome"@.len() == 12 && "marathonTome"@[0] == 'm' && "marathonTome"@[1] == 'a');
        reveal_strlit("marathon_tome");
        assert("marathon_tome"@.len() == 13 && "marathon_tome"@[0] == 'm' && "marathon_tome"@[1] == 'a');
        reveal_strlit("lootrunTome");
        assert("lootrunTome"@.len() == 11 && "lootrunTome"@[0] == 'l' && "lootrunTome"@[1] == 'o');
        reveal_strlit("lootrun_tome");
        assert("lootrun_tome"@.len() == 12 && "lootrun_tome"@[0] == 'l' && "lootrun_tome"@[1] == 'o');
        reveal_strlit("charm");
        assert("charm"@.len() == 5 && "charm"@[0] == 'c' && "charm"@[1] == 'h');
        reveal_strlit("ingredient");
        assert("ingredient"@.len() == 10 && "ingredient"@[0] == 'i' && "ingredient"@[1] == 'n');
        reveal_strlit("material");
        assert("material"@.len() == 8 && "material"@[0] == 'm' && "material"@[1] == 'a');
        match self {
            ItemType::Tool(kind) => {
                kind.lemma_token_is_read();
            },
            ItemType::Weapon(kind) => {
                kind.lemma_token_is_read();
            },
            ItemType::Armour(kind) => {
                kind.lemma_token_is_read();
            },
            ItemType::Accessory(kind) => {
                kind.lemma_token_is_read();
            },
            ItemType::Tome(kind) => {
                kind.lemma_token_is_read();
            },
            ItemType::Other(kind) => {
                kind.lemma_token_is_read();
            },
        }
    }
}

impl SetItem for ItemType {
    open spec fn same_item(x: JsonValue, y: JsonValue) -> bool {
        x is String && y is String && Self::of_token(x->String_0) == Self::of_token(y->String_0)
    }

    fn alike(&self, other: &Self) -> (r: bool) {
        *self == *other
    }
}

impl Encode for ItemType {
    open spec fn valid(&self) -> bool {
        true
    }

    open spec fn encoded(&self) -> JsonValue {
        JsonValue::String(self.token())
    }

    fn encode(&self) -> (j: Json) {
        Json::String(String::from_str(self.as_token()))
    }

    proof fn lemma_read_back(&self) {
        self.lemma_token_is_read();
    }

    proof fn lemma_one_reading(&self, other: &Self, j: JsonValue) {
    }

    proof fn lemma_read_is_valid(&self, j: JsonValue) {
    }
}

impl WriteItem for ItemType {
    proof fn lemma_same_item(&self, other: &Self, x: JsonValue, y: JsonValue) {
        self.lemma_token_is_read();
        other.lemma_token_is_read();
    }
}

impl ItemTypeInfo {
    /// The discriminator of the kind.
    pub open spec fn tag(self) -> Seq<char> {
        match self {
            ItemTypeInfo::Tool(_) => "tool"@,
            ItemTypeInfo::Accessory(_) => "accessory"@,
            ItemTypeInfo::Tome(_) => "tome"@,
            ItemTypeInfo::Weapon(_) => "weapon"@,
            ItemTypeInfo::Ingredient(_) => "ingredient"@,
            ItemTypeInfo::Charm(_) => "charm"@,
            ItemTypeInfo::Armour(_) => "armour"@,
            ItemTypeInfo::Material(_) => "material"@,
        }
    }

    /// Whether some kind reads the member `name`.
    pub open spec fn owns(name: Seq<char>) -> bool {
        name == "type"@
            || ToolInfo::owns(name)
            || AccessoryInfo::owns(name)
            || TomeInfo::owns(name)
            || WeaponInfo::owns(name)
            || IngredientInfo::owns(name)
            || CharmInfo::owns(name)
            || ArmourInfo::owns(name)
            || MaterialInfo::owns(name)
    }

    /// The members that the kind is written as: the discriminator, then what
    /// the kind adds.
    pub open spec fn members(&self) -> Seq<(Seq<char>, JsonValue)> {
        seq![("type"@, JsonValue::String(self.tag()))] + match self {
            ItemTypeInfo::Tool(x) => x.members(),
            ItemTypeInfo::Accessory(x) => x.members(),
            ItemTypeInfo::Tome(x) => x.members(),
            ItemTypeInfo::Weapon(x) => x.members(),
            ItemTypeInfo::Ingredient(x) => x.members(),
            ItemTypeInfo::Charm(x) => x.members(),
            ItemTypeInfo::Armour(x) => x.members(),
            ItemTypeInfo::Material(x) => x.members(),
        }
    }

    /// What the kind is written as is read as the kind, also where its members
    /// come after others, as long as no kind reads any of those.
    pub proof fn lemma_read_back_among(&self, before: Seq<(Seq<char>, JsonValue)>)
        requires
            self.valid(),
            forall|k: int| 0 <= k < before.len() ==> !Self::owns(#[trigger] before[k].0),
        ensures
            Self::failure(JsonValue::Object(before + self.members())) is None,
            self.reads(JsonValue::Object(before + self.members())),
    {
        let head = seq![("type"@, JsonValue::String(self.tag()))];
        let j = JsonValue::Object(before + self.members());
        reveal_strlit("type");
        assert("type"@.len() == 4 && "type"@[0] == 't' && "type"@[2] == 'p');
        reveal_strlit("requirements");
        assert("requirements"@.len() == 12 && "requirements"@[0] == 'r' && "requirements"@[2] == 'q');
        reveal_strlit("toolType");
        assert("toolType"@.len() == 8 && "toolType"@[0] == 't' && "toolType"@[2] == 'o');
        reveal_strlit("gatheringSpeed");
        assert("gatheringSpeed"@.len() == 14 && "gatheringSpeed"@[0] == 'g' && "gatheringSpeed"@[2] == 't');
        reveal_strlit("rarity");
        assert("rarity"@.len() == 6 && "rarity"@[0] == 'r' && "rarity"@[2] == 'r');
        reveal_strlit("accessoryType");
        assert("accessoryType"@.len() == 13 && "accessoryType"@[0] == 'a' && "accessoryType"@[2] == 'c');
        reveal_strlit("base");
        assert("base"@.len() == 4 && "base"@[0] == 'b' && "base"@[2] == 's');
        reveal_strlit("identifications");
        assert("identifications"@.len() == 15 && "identifications"@[0] == 'i' && "identifications"@[2] == 'e');
        reveal_strlit("restrictions");
        assert("restrictions"@.len() == 12 && "restrictions"@[0] == 'r' && "restrictions"@[2] == 's');
        reveal_strlit("dropMeta");
        assert("dropMeta"@.len() == 8 && "dropMeta"@[0] == 'd' && "dropMeta"@[2] == 'o');
        reveal_strlit("majorIds");
        assert("majorIds"@.len() == 8 && "majorIds"@[0] == 'm' && "majorIds"@[2] == 'j');
        reveal_strlit("tomeType");
        assert("tomeType"@.len() == 8 && "tomeType"@[0] == 't' && "tomeType"@[2] == 'm');
        reveal_strlit("raidReward");
        assert("raidReward"@.len() == 10 && "raidReward"@[0] == 'r' && "raidReward"@[2] == 'i');
        reveal_strlit("weaponType");
        assert("weaponType"@.len() == 10 && "weaponType"@[0] == 'w' && "weaponType"@[2] == 'a');
        reveal_strlit("attackSpeed");
        assert("attackSpeed"@.len() == 11 && "attackSpeed"@[0] == 'a' && "attackSpeed"@[2] == 't');
        reveal_strlit("averageDps");
        assert("averageDps"@.len() == 10 && "averageDps"@[0] == 'a' && "averageDps"@[2] == 'e');
        reveal_strlit("powderSlots");
        assert("powderSlots"@.len() == 11 && "powderSlots"@[0] == 'p' && "powderSlots"@[2] == 'w');
        reveal_strlit("allowCraftsman");
        assert("allowCraftsman"@.len() == 14 && "allowCraftsman"@[0] == 'a' && "allowCraftsman"@[2] == 'l');
        reveal_strlit("tier");
        assert("tier"@.len() == 4 && "tier"@[0] == 't' && "tier"@[2] == 'e');
        reveal_strlit("consumableOnlyIDs");
        assert("consumableOnlyIDs"@.len() == 17 && "consumableOnlyIDs"@[0] == 'c' && "consumableOnlyIDs"@[2] == 'n');
        reveal_strlit("itemOnlyIDs");
        assert("itemOnlyIDs"@.len() == 11 && "itemOnlyIDs"@[0] == 'i' && "itemOnlyIDs"@[2] == 'e');
        reveal_strlit("ingredientPositionModifiers");
        assert("ingredientPositionModifiers"@.len() == 27 && "ingredientPositionModifiers"@[0] == 'i');
        assert("ingredientPositionModifiers"@[2] == 'g');
        reveal_strlit("droppedBy");
        assert("droppedBy"@.len() == 9 && "droppedBy"@[0] == 'd' && "droppedBy"@[2] == 'o');
        reveal_strlit("armourType");
        assert("armourType"@.len() == 10 && "armourType"@[0] == 'a' && "armourType"@[2] == 'm');
        reveal_strlit("armourMaterial");
        assert("armourMaterial"@.len() == 14 && "armourMaterial"@[0] == 'a' && "armourMaterial"@[2] == 'm');
        reveal_strlit("armourColor");
        assert("armourColor"@.len() == 11 && "armourColor"@[0] == 'a' && "armourColor"@[2] == 'm');
        reveal_strlit("identified");
        assert("identified"@.len() == 10 && "identified"@[0] == 'i' && "identified"@[2] == 'e');
        reveal_strlit("craftable");
        assert("craftable"@.len() == 9 && "craftable"@[0] == 'c' && "craftable"@[2] == 'a');
        reveal_strlit("tool");
        assert("tool"@.len() == 4 && "tool"@[0] == 't' && "tool"@[2] == 'o');
        reveal_strlit("accessory");
        assert("accessory"@.len() == 9 && "accessory"@[0] == 'a' && "accessory"@[2] == 'c');
        reveal_strlit("tome");
        assert("tome"@.len() == 4 && "tome"@[0] == 't' && "tome"@[2] == 'm');
        reveal_strlit("weapon");
        assert("weapon"@.len() == 6 && "weapon"@[0] == 'w' && "weapon"@[2] == 'a');
        reveal_strlit("ingredient");
        assert("ingredient"@.len() == 10 && "ingredient"@[0] == 'i' && "ingredient"@[2] == 'g');
        reveal_strlit("charm");
        assert("charm"@.len() == 5 && "charm"@[0] == 'c' && "charm"@[2] == 'a');
        reveal_strlit("armour");
        assert("armour"@.len() == 6 && "armour"@[0] == 'a' && "armour"@[2] == 'm');
        reveal_strlit("material");
        assert("material"@.len() == 8 && "material"@[0] == 'm' && "material"@[2] == 't');
        lemma_member_among(before, self.members(), "type"@, 0);
        match self {
            ItemTypeInfo::Tool(x) => {
                assert(!ToolInfo::owns("type"@));
                assert(before + self.members() =~= (before + head) + x.members());
                x.lemma_read_back_among(before + head);
            },
            ItemTypeInfo::Accessory(x) => {
                assert(!AccessoryInfo::owns("type"@));
                assert(before + self.members() =~= (before + head) + x.members());
                x.lemma_read_back_among(before + head);
            },
            ItemTypeInfo::Tome(x) => {
                assert(!TomeInfo::owns("type"@));
                assert(before + self.members() =~= (before + head) + x.members());
                x.lemma_read_back_among(before + head);
            },
            ItemTypeInfo::Weapon(x) => {
                assert(!WeaponInfo::owns("type"@));
                assert(before + self.members() =~= (before + head) + x.members());
                x.lemma_read_back_among(before + head);
            },
            ItemTypeInfo::Ingredient(x) => {
                assert(!IngredientInfo::owns("type"@));
                assert(before + self.members() =~= (before + head) + x.members());
                x.lemma_read_back_among(before + head);
            },
            ItemTypeInfo::Charm(x) => {
                assert(!CharmInfo::owns("type"@));
                assert(before + self.members() =~= (before + head) + x.members());
                x.lemma_read_back_among(before + head);
            },
            ItemTypeInfo::Armour(x) => {
                assert(!ArmourInfo::owns("type"@));
                assert(before + self.members() =~= (before + head) + x.members());
                x.lemma_read_back_among(before + head);
            },
            ItemTypeInfo::Material(x) => {
                assert(!MaterialInfo::owns("type"@));
                assert(before + self.members() =~= (before + head) + x.members());
                x.lemma_read_back_among(before + head);
            },
        }
    }
}

impl Encode for ItemTypeInfo {
    open spec fn valid(&self) -> bool {
        match self {
            ItemTypeInfo::Tool(x) => x.valid(),
            ItemTypeInfo::Accessory(x) => x.valid(),
            ItemTypeInfo::Tome(x) => x.valid(),
            ItemTypeInfo::Weapon(x) => x.valid(),
            ItemTypeInfo::Ingredient(x) => x.valid(),
            ItemTypeInfo::Charm(x) => x.valid(),
            ItemTypeInfo::Armour(x) => x.valid(),
            ItemTypeInfo::Material(x) => x.valid(),
        }
    }

    open spec fn encoded(&self) -> JsonValue {
        JsonValue::Object(self.members())
    }

    fn encode(&self) -> (j: Json) {
        let (tag, rest) = match self {
            ItemTypeInfo::Tool(x) => ("tool", x.encode()),
            ItemTypeInfo::Accessory(x) => ("accessory", x.encode()),
            ItemTypeInfo::Tome(x) => ("tome", x.encode()),
            ItemTypeInfo::Weapon(x) => ("weapon", x.encode()),
            ItemTypeInfo::Ingredient(x) => ("ingredient", x.encode()),
            ItemTypeInfo::Charm(x) => ("charm", x.encode()),
            ItemTypeInfo::Armour(x) => ("armour", x.encode()),
            ItemTypeInfo::Material(x) => ("material", x.encode()),
        };
        let j = ObjectWriter::new().with("type", Json::String(String::from_str(tag))).with_all(rest).done();
        assert(j@->Object_0 =~= self.encoded()->Object_0);
        j
    }

    proof fn lemma_read_back(&self) {
        assert(Seq::<(Seq<char>, JsonValue)>::empty() + self.members() =~= self.members());
        self.lemma_read_back_among(Seq::empty());
    }

    proof fn lemma_one_reading(&self, other: &Self, j: JsonValue) {
        reveal_strlit("tool");
        assert("tool"@.len() == 4 && "tool"@[2] == 'o');
        reveal_strlit("accessory");
        assert("accessory"@.len() == 9 && "accessory"@[2] == 'c');
        reveal_strlit("tome");
        assert("tome"@.len() == 4 && "tome"@[2] == 'm');
        reveal_strlit("weapon");
        assert("weapon"@.len() == 6 && "weapon"@[2] == 'a');
        reveal_strlit("ingredient");
        assert("ingredient"@.len() == 10 && "ingredient"@[2] == 'g');
        reveal_strlit("charm");
        assert("charm"@.len() == 5 && "charm"@[2] == 'a');
        reveal_strlit("armour");
        assert("armour"@.len() == 6 && "armour"@[2] == 'm');
        reveal_strlit("material");
        assert("material"@.len() == 8 && "material"@[2] == 't');
        match self {
            ItemTypeInfo::Tool(x) => {
                x.lemma_one_reading(&other->Tool_0, j);
            },
            ItemTypeInfo::Accessory(x) => {
                x.lemma_one_reading(&other->Accessory_0, j);
            },
            ItemTypeInfo::Tome(x) => {
                x.lemma_one_reading(&other->Tome_0, j);
            },
            ItemTypeInfo::Weapon(x) => {
                x.lemma_one_reading(&other->Weapon_0, j);
            },
            ItemTypeInfo::Ingredient(x) => {
                x.lemma_one_reading(&other->Ingredient_0, j);
            },
            ItemTypeInfo::Charm(x) => {
                x.lemma_one_reading(&other->Charm_0, j);
            },
            ItemTypeInfo::Armour(x) => {
                x.lemma_one_reading(&other->Armour_0, j);
            },
            ItemTypeInfo::Material(x) => {
                x.lemma_one_reading(&other->Material_0, j);
            },
        }
    }

    proof fn lemma_read_is_valid(&self, j: JsonValue) {
        reveal_strlit("tool");
        assert("tool"@.len() == 4 && "tool"@[2] == 'o');
        reveal_strlit("accessory");
        assert("accessory"@.len() == 9 && "accessory"@[2] == 'c');
        reveal_strlit("tome");
        assert("tome"@.len() == 4 && "tome"@[2] == 'm');
        reveal_strlit("weapon");
        assert("weapon"@.len() == 6 && "weapon"@[2] == 'a');
        reveal_strlit("ingredient");
        assert("ingredient"@.len() == 10 && "ingredient"@[2] == 'g');
        reveal_strlit("charm");
        assert("charm"@.len() == 5 && "charm"@[2] == 'a');
        reveal_strlit("armour");
        assert("armour"@.len() == 6 && "armour"@[2] == 'm');
        reveal_strlit("material");
        assert("material"@.len() == 8 && "material"@[2] == 't');
        match self {
            ItemTypeInfo::Tool(x) => {
                x.lemma_read_is_valid(j);
            },
            ItemTypeInfo::Accessory(x) => {
                x.lemma_read_is_valid(j);
            },
            ItemTypeInfo::Tome(x) => {
                x.lemma_read_is_valid(j);
            },
            ItemTypeInfo::Weapon(x) => {
                x.lemma_read_is_valid(j);
            },
            ItemTypeInfo::Ingredient(x) => {
                x.lemma_read_is_valid(j);
            },
            ItemTypeInfo::Charm(x) => {
                x.lemma_read_is_valid(j);
            },
            ItemTypeInfo::Armour(x) => {
                x.lemma_read_is_valid(j);
            },
            ItemTypeInfo::Material(x) => {
                x.lemma_read_is_valid(j);
            },
        }
    }
}
/// What a piece of armour is made of.
#[derive(Clone, Copy, Debug, PartialEq, Eq, PartialOrd, Ord, Hash, Structural)]
pub enum ArmourMaterial {
    Leather,
    Golden,
    Chain,
    Iron,
    Diamond,
}

impl Token for ArmourMaterial {
    open spec fn of_token(s: Seq<char>) -> Option<Self> {
        if s == "leather"@ {
            Some(ArmourMaterial::Leather)
        } else if s == "golden"@ {
            Some(ArmourMaterial::Golden)
        } else if s == "chain"@ {
            Some(ArmourMaterial::Chain)
        } else if s == "iron"@ {
            Some(ArmourMaterial::Iron)
        } else if s == "diamond"@ {
            Some(ArmourMaterial::Diamond)
        } else {
            None
        }
    }

    open spec fn token(self) -> Seq<char> {
        match self {
            ArmourMaterial::Leather => "leather"@,
            ArmourMaterial::Golden => "golden"@,
            ArmourMaterial::Chain => "chain"@,
            ArmourMaterial::Iron => "iron"@,
            ArmourMaterial::Diamond => "diamond"@,
        }
    }

    fn from_token(s: &str) -> (r: Option<Self>) {
        if same_text(s, "leather") {
            Some(ArmourMaterial::Leather)
        } else if same_text(s, "golden") {
            Some(ArmourMaterial::Golden)
        } else if same_text(s, "chain") {
            Some(ArmourMaterial::Chain)
        } else if same_text(s, "iron") {
            Some(ArmourMaterial::Iron)
        } else if same_text(s, "diamond") {
            Some(ArmourMaterial::Diamond)
        } else {
            None
        }
    }

    fn as_token(self) -> (r: &'static str) {
        match self {
            ArmourMaterial::Leather => "leather",
            ArmourMaterial::Golden => "golden",
            ArmourMaterial::Chain => "chain",
            ArmourMaterial::Iron => "iron",
            ArmourMaterial::Diamond => "diamond",
        }
    }

    fn same_token(&self, other: &Self) -> (r: bool) {
        *self == *other
    }

    proof fn lemma_token_is_read(self) {
        reveal_strlit("leather");
        assert("leather"@.len() == 7 && "leather"@[0] == 'l');
        reveal_strlit("golden");
        assert("golden"@.len() == 6 && "golden"@[0] == 'g');
        reveal_strlit("chain");
        assert("chain"@.len() == 5 && "chain"@[0] == 'c');
        reveal_strlit("iron");
        assert("iron"@.len() == 4 && "iron"@[0] == 'i');
        reveal_strlit("diamond");
        assert("diamond"@.len() == 7 && "diamond"@[0] == 'd');
    }
}

/// Where an item can drop.
#[derive(Clone, Copy, Debug, PartialEq, Eq, Structural)]
pub enum DropRestriction {
    Never,
    Normal,
    Dungeon,
    Lootchest,
}

impl Token for DropRestriction {
    open spec fn of_token(s: Seq<char>) -> Option<Self> {
        if s == "never"@ {
            Some(DropRestriction::Never)
        } else if s == "normal"@ {
            Some(DropRestriction::Normal)
        } else if s == "dungeon"@ {
            Some(DropRestriction::Dungeon)
        } else if s == "lootchest"@ {
            Some(DropRestriction::Lootchest)
        } else {
            None
        }
    }

    open spec fn token(self) -> Seq<char> {
        match self {
            DropRestriction::Never => "never"@,
            DropRestriction::Normal => "normal"@,
            DropRestriction::Dungeon => "dungeon"@,
            DropRestriction::Lootchest => "lootchest"@,
        }
    }

    fn from_token(s: &str) -> (r: Option<Self>) {
        if same_text(s, "never") {
            Some(DropRestriction::Never)
        } else if same_text(s, "normal") {
            Some(DropRestriction::Normal)
        } else if same_text(s, "dungeon") {
            Some(DropRestriction::Dungeon)
        } else if same_text(s, "lootchest") {
            Some(DropRestriction::Lootchest)
        } else {
            None
        }
    }

    fn as_token(self) -> (r: &'static str) {
        match self {
            DropRestriction::Never => "never",
            DropRestriction::Normal => "normal",
            DropRestriction::Dungeon => "dungeon",
            DropRestriction::Lootchest => "lootchest",
        }
    }

    fn same_token(&self, other: &Self) -> (r: bool) {
        *self == *other
    }

    proof fn lemma_token_is_read(self) {
        reveal_strlit("never");
        assert("never"@.len() == 5);
        reveal_strlit("normal");
        assert("normal"@.len() == 6);
        reveal_strlit("dungeon");
        assert("dungeon"@.len() == 7);
        reveal_strlit("lootchest");
        assert("lootchest"@.len() == 9);
    }
}

/// What keeps an item with its owner.
#[derive(Clone, Copy, Debug, PartialEq, Eq, Structural)]
pub enum Restrictions {
    QuestItem,
    Soulbound,
    Untradable,
}

impl Token for Restrictions {
    open spec fn of_token(s: Seq<char>) -> Option<Self> {
        if s == "quest item"@ {
            Some(Restrictions::QuestItem)
        } else if s == "soulbound"@ {
            Some(Restrictions::Soulbound)
        } else if s == "untradable"@ {
            Some(Restrictions::Untradable)
        } else {
            None
        }
    }

    open spec fn token(self) -> Seq<char> {
        match self {
            Restrictions::QuestItem => "quest item"@,
            Restrictions::Soulbound => "soulbound"@,
            Restrictions::Untradable => "untradable"@,
        }
    }

    fn from_token(s: &str) -> (r: Option<Self>) {
        if same_text(s, "quest item") {
            Some(Restrictions::QuestItem)
        } else if same_text(s, "soulbound") {
            Some(Restrictions::Soulbound)
        } else if same_text(s, "untradable") {
            Some(Restrictions::Untradable)
        } else {
            None
        }
    }

    fn as_token(self) -> (r: &'static str) {
        match self {
            Restrictions::QuestItem => "quest item",
            Restrictions::Soulbound => "soulbound",
            Restrictions::Untradable => "untradable",
        }
    }

    fn same_token(&self, other: &Self) -> (r: bool) {
        *self == *other
    }

    proof fn lemma_token_is_read(self) {
        reveal_strlit("quest item");
        assert("quest item"@.len() == 10 && "quest item"@[0] == 'q');
        reveal_strlit("soulbound");
        assert("soulbound"@.len() == 9 && "soulbound"@[0] == 's');
        reveal_strlit("untradable");
        assert("untradable"@.len() == 10 && "untradable"@[0] == 'u');
    }
}

/// How fast a weapon attacks, from the slowest to the fastest.
#[derive(Clone, Copy, Debug, PartialEq, Eq, PartialOrd, Ord, Hash, Structural)]
pub enum AttackSpeed {
    SuperSlow,
    VerySlow,
    Slow,
    Normal,
    Fast,
    VeryFast,
    SuperFast,
}

impl Token for AttackSpeed {
    open spec fn of_token(s: Seq<char>) -> Option<Self> {
        if s == "super_slow"@ {
            Some(AttackSpeed::SuperSlow)
        } else if s == "very_slow"@ {
            Some(AttackSpeed::VerySlow)
        } else if s == "slow"@ {
            Some(AttackSpeed::Slow)
        } else if s == "normal"@ {
            Some(AttackSpeed::Normal)
        } else if s == "fast"@ {
            Some(AttackSpeed::Fast)
        } else if s == "very_fast"@ {
            Some(AttackSpeed::VeryFast)
        } else if s == "super_fast"@ {
            Some(AttackSpeed::SuperFast)
        } else {
            None
        }
    }

    open spec fn token(self) -> Seq<char> {
        match self {
            AttackSpeed::SuperSlow => "super_slow"@,
            AttackSpeed::VerySlow => "very_slow"@,
            AttackSpeed::Slow => "slow"@,
            AttackSpeed::Normal => "normal"@,
            AttackSpeed::Fast => "fast"@,
            AttackSpeed::VeryFast => "very_fast"@,
            AttackSpeed::SuperFast => "super_fast"@,
        }
    }

    fn from_token(s: &str) -> (r: Option<Self>) {
        if same_text(s, "super_slow") {
            Some(AttackSpeed::SuperSlow)
        } else if same_text(s, "very_slow") {
            Some(AttackSpeed::VerySlow)
        } else if same_text(s, "slow") {
            Some(AttackSpeed::Slow)
        } else if same_text(s, "normal") {
            Some(AttackSpeed::Normal)
        } else if same_text(s, "fast") {
            Some(AttackSpeed::Fast)
        } else if same_text(s, "very_fast") {
            Some(AttackSpeed::VeryFast)
        } else if same_text(s, "super_fast") {
            Some(AttackSpeed::SuperFast)
        } else {
            None
        }
    }

    fn as_token(self) -> (r: &'static str) {
        match self {
            AttackSpeed::SuperSlow => "super_slow",
            AttackSpeed::VerySlow => "very_slow",
            AttackSpeed::Slow => "slow",
            AttackSpeed::Normal => "normal",
            AttackSpeed::Fast => "fast",
            AttackSpeed::VeryFast => "very_fast",
            AttackSpeed::SuperFast => "super_fast",
        }
    }

    fn same_token(&self, other: &Self) -> (r: bool) {
        *self == *other
    }

    proof fn lemma_token_is_read(self) {
        reveal_strlit("super_slow");
        assert("super_slow"@.len() == 10 && "super_slow"@[0] == 's' && "super_slow"@[6] == 's');
        reveal_strlit("very_slow");
        assert("very_slow"@.len() == 9 && "very_slow"@[0] == 'v' && "very_slow"@[6] == 'l');
        reveal_strlit("slow");
        assert("slow"@.len() == 4 && "slow"@[0] == 's');
        reveal_strlit("normal");
        assert("normal"@.len() == 6 && "normal"@[0] == 'n');
        reveal_strlit("fast");
        assert("fast"@.len() == 4 && "fast"@[0] == 'f');
        reveal_strlit("very_fast");
        assert("very_fast"@.len() == 9 && "very_fast"@[0] == 'v' && "very_fast"@[6] == 'a');
        reveal_strlit("super_fast");
        assert("super_fast"@.len() == 10 && "super_fast"@[0] == 's' && "super_fast"@[6] == 'f');
    }
}

/// A kind of crafted item that is neither weapon, armour nor accessory.
#[derive(Clone, Copy, Debug, PartialEq, Eq, PartialOrd, Ord, Hash, Structural)]
pub enum OtherCraftedItemType {
    Potion,
    Scroll,
    Food,
}

impl Token for OtherCraftedItemType {
    open spec fn of_token(s: Seq<char>) -> Option<Self> {
        if s == "potion"@ || s == "potions"@ {
            Some(OtherCraftedItemType::Potion)
        } else if s == "scroll"@ || s == "scrolls"@ {
            Some(OtherCraftedItemType::Scroll)
        } else if s == "food"@ {
            Some(OtherCraftedItemType::Food)
        } else {
            None
        }
    }

    open spec fn token(self) -> Seq<char> {
        match self {
            OtherCraftedItemType::Potion => "potion"@,
            OtherCraftedItemType::Scroll => "scroll"@,
            OtherCraftedItemType::Food => "food"@,
        }
    }

    fn from_token(s: &str) -> (r: Option<Self>) {
        if same_text(s, "potion") || same_text(s, "potions") {
            Some(OtherCraftedItemType::Potion)
        } else if same_text(s, "scroll") || same_text(s, "scrolls") {
            Some(OtherCraftedItemType::Scroll)
        } else if same_text(s, "food") {
            Some(OtherCraftedItemType::Food)
        } else {
            None
        }
    }

    fn as_token(self) -> (r: &'static str) {
        match self {
            OtherCraftedItemType::Potion => "potion",
            OtherCraftedItemType::Scroll => "scroll",
            OtherCraftedItemType::Food => "food",
        }
    }

    fn same_token(&self, other: &Self) -> (r: bool) {
        *self == *other
    }

    proof fn lemma_token_is_read(self) {
        reveal_strlit("potion");
        assert("potion"@.len() == 6 && "potion"@[0] == 'p');
        reveal_strlit("potions");
        assert("potions"@.len() == 7 && "potions"@[0] == 'p');
        reveal_strlit("scroll");
        assert("scroll"@.len() == 6 && "scroll"@[0] == 's');
        reveal_strlit("scrolls");
        assert("scrolls"@.len() == 7 && "scrolls"@[0] == 's');
        reveal_strlit("food");
        assert("food"@.len() == 4 && "food"@[0] == 'f');
    }
}

/// A kind of item that has no kinds of its own.
#[derive(Clone, Copy, Debug, PartialEq, Eq, PartialOrd, Ord, Hash, Structural)]
pub enum OtherItemType {
    Charm,
    Ingredient,
    Material,
}

impl Token for OtherItemType {
    open spec fn of_token(s: Seq<char>) -> Option<Self> {
        if s == "charm"@ {
            Some(OtherItemType::Charm)
        } else if s == "ingredient"@ {
            Some(OtherItemType::Ingredient)
        } else if s == "material"@ {
            Some(OtherItemType::Material)
        } else {
            None
        }
    }

    open spec fn token(self) -> Seq<char> {
        match self {
            OtherItemType::Charm => "charm"@,
            OtherItemType::Ingredient => "ingredient"@,
            OtherItemType::Material => "material"@,
        }
    }

    fn from_token(s: &str) -> (r: Option<Self>) {
        if same_text(s, "charm") {
            Some(OtherItemType::Charm)
        } else if same_text(s, "ingredient") {
            Some(OtherItemType::Ingredient)
        } else if same_text(s, "material") {
            Some(OtherItemType::Material)
        } else {
            None
        }
    }

    fn as_token(self) -> (r: &'static str) {
        match self {
            OtherItemType::Charm => "charm",
            OtherItemType::Ingredient => "ingredient",
            OtherItemType::Material => "material",
        }
    }

    fn same_token(&self, other: &Self) -> (r: bool) {
        *self == *other
    }

    proof fn lemma_token_is_read(self) {
        reveal_strlit("charm");
        assert("charm"@.len() == 5);
        reveal_strlit("ingredient");
        assert("ingredient"@.len() == 10);
        reveal_strlit("material");
        assert("material"@.len() == 8);
    }
}

/// A kind of gathering tool.
#[derive(Clone, Copy, Debug, PartialEq, Eq, PartialOrd, Ord, Hash, Structural)]
pub enum ToolType {
    Axe,
    Rod,
    Pickaxe,
    Scythe,
}

impl Token for ToolType {
    open spec fn of_token(s: Seq<char>) -> Option<Self> {
        if s == "axe"@ {
            Some(ToolType::Axe)
        } else if s == "rod"@ {
            Some(ToolType::Rod)
        } else if s == "pickaxe"@ {
            Some(ToolType::Pickaxe)
        } else if s == "scythe"@ {
            Some(ToolType::Scythe)
        } else {
            None
        }
    }

    open spec fn token(self) -> Seq<char> {
        match self {
            ToolType::Axe => "axe"@,
            ToolType::Rod => "rod"@,
            ToolType::Pickaxe => "pickaxe"@,
            ToolType::Scythe => "scythe"@,
        }
    }

    fn from_token(s: &str) -> (r: Option<Self>) {
        if same_text(s, "axe") {
            Some(ToolType::Axe)
        } else if same_text(s, "rod") {
            Some(ToolType::Rod)
        } else if same_text(s, "pickaxe") {
            Some(ToolType::Pickaxe)
        } else if same_text(s, "scythe") {
            Some(ToolType::Scythe)
        } else {
            None
        }
    }

    fn as_token(self) -> (r: &'static str) {
        match self {
            ToolType::Axe => "axe",
            ToolType::Rod => "rod",
            ToolType::Pickaxe => "pickaxe",
            ToolType::Scythe => "scythe",
        }
    }

    fn same_token(&self, other: &Self) -> (r: bool) {
        *self == *other
    }

    proof fn lemma_token_is_read(self) {
        reveal_strlit("axe");
        assert("axe"@.len() == 3 && "axe"@[0] == 'a');
        reveal_strlit("rod");
        assert("rod"@.len() == 3 && "rod"@[0] == 'r');
        reveal_strlit("pickaxe");
        assert("pickaxe"@.len() == 7 && "pickaxe"@[0] == 'p');
        reveal_strlit("scythe");
        assert("scythe"@.len() == 6 && "scythe"@[0] == 's');
    }
}

/// A kind of tome.
#[derive(Clone, Copy, Debug, PartialEq, Eq, PartialOrd, Ord, Hash, Structural)]
pub enum TomeType {
    WeaponTome,
    ArmourTome,
    GuildTome,
    ExpertiseTome,
    MysticismTome,
    MarathonTome,
    LootrunTome,
}

impl Token for TomeType {
    open spec fn of_token(s: Seq<char>) -> Option<Self> {
        if s == "weaponTome"@ || s == "weapon_tome"@ {
            Some(TomeType::WeaponTome)
        } else if s == "armourTome"@ || s == "armour_tome"@ {
            Some(TomeType::ArmourTome)
        } else if s == "guildTome"@ || s == "guild_tome"@ {
            Some(TomeType::GuildTome)
        } else if s == "expertiseTome"@ || s == "expertise_tome"@ {
            Some(TomeType::ExpertiseTome)
        } else if s == "mysticismTome"@ || s == "mysticism_tome"@ {
            Some(TomeType::MysticismTome)
        } else if s == "marathonTome"@ || s == "marathon_tome"@ {
            Some(TomeType::MarathonTome)
        } else if s == "lootrunTome"@ || s == "lootrun_tome"@ {
            Some(TomeType::LootrunTome)
        } else {
            None
        }
    }

    open spec fn token(self) -> Seq<char> {
        match self {
            TomeType::WeaponTome => "weaponTome"@,
            TomeType::ArmourTome => "armourTome"@,
            TomeType::GuildTome => "guildTome"@,
            TomeType::ExpertiseTome => "expertiseTome"@,
            TomeType::MysticismTome => "mysticismTome"@,
            TomeType::MarathonTome => "marathonTome"@,
            TomeType::LootrunTome => "lootrunTome"@,
        }
    }

    fn from_token(s: &str) -> (r: Option<Self>) {
        if same_text(s, "weaponTome") || same_text(s, "weapon_tome") {
            Some(TomeType::WeaponTome)
        } else if same_text(s, "armourTome") || same_text(s, "armour_tome") {
            Some(TomeType::ArmourTome)
        } else if same_text(s, "guildTome") || same_text(s, "guild_tome") {
            Some(TomeType::GuildTome)
        } else if same_text(s, "expertiseTome") || same_text(s, "expertise_tome") {
            Some(TomeType::ExpertiseTome)
        } else if same_text(s, "mysticismTome") || same_text(s, "mysticism_tome") {
            Some(TomeType::MysticismTome)
        } else if same_text(s, "marathonTome") || same_text(s, "marathon_tome") {
            Some(TomeType::MarathonTome)
        } else if same_text(s, "lootrunTome") || same_text(s, "lootrun_tome") {
            Some(TomeType::LootrunTome)
        } else {
            None
        }
    }

    fn as_token(self) -> (r: &'static str) {
        match self {
            TomeType::WeaponTome => "weaponTome",
            TomeType::ArmourTome => "armourTome",
            TomeType::GuildTome => "guildTome",
            TomeType::ExpertiseTome => "expertiseTome",
            TomeType::MysticismTome => "mysticismTome",
            TomeType::MarathonTome => "marathonTome",
            TomeType::LootrunTome => "lootrunTome",
        }
    }

    fn same_token(&self, other: &Self) -> (r: bool) {
        *self == *other
    }

    proof fn lemma_token_is_read(self) {
        reveal_strlit("weaponTome");
        assert("weaponTome"@.len() == 10 && "weaponTome"@[1] == 'e');
        reveal_strlit("weapon_tome");
        assert("weapon_tome"@.len() == 11 && "weapon_tome"@[1] == 'e');
        reveal_strlit("armourTome");
        assert("armourTome"@.len() == 10 && "armourTome"@[1] == 'r');
        reveal_strlit("armour_tome");
        assert("armour_tome"@.len() == 11 && "armour_tome"@[1] == 'r');
        reveal_strlit("guildTome");
        assert("guildTome"@.len() == 9 && "guildTome"@[1] == 'u');
        reveal_strlit("guild_tome");
        assert("guild_tome"@.len() == 10 && "guild_tome"@[1] == 'u');
        reveal_strlit("expertiseTome");
        assert("expertiseTome"@.len() == 13 && "expertiseTome"@[1] == 'x');
        reveal_strlit("expertise_tome");
        assert("expertise_tome"@.len() == 14 && "expertise_tome"@[1] == 'x');
        reveal_strlit("mysticismTome");
        assert("mysticismTome"@.len() == 13 && "mysticismTome"@[1] == 'y');
        reveal_strlit("mysticism_tome");
        assert("mysticism_tome"@.len() == 14 && "mysticism_tome"@[1] == 'y');
        reveal_strlit("marathonTome");
        assert("marathonTome"@.len() == 12 && "marathonTome"@[1] == 'a');
        reveal_strlit("marathon_tome");
        assert("marathon_tome"@.len() == 13 && "marathon_tome"@[1] == 'a');
        reveal_strlit("lootrunTome");
        assert("lootrunTome"@.len() == 11 && "lootrunTome"@[1] == 'o');
        reveal_strlit("lootrun_tome");
        assert("lootrun_tome"@.len() == 12 && "lootrun_tome"@[1] == 'o');
    }
}

/// A kind of accessory.
#[derive(Clone, Copy, Debug, PartialEq, Eq, PartialOrd, Ord, Hash, Structural)]
pub enum AccessoryType {
    Bracelet,
    Necklace,
    Ring,
}

impl Token for AccessoryType {
    open spec fn of_token(s: Seq<char>) -> Option<Self> {
        if s == "bracelet"@ || s == "bracelets"@ {
            Some(AccessoryType::Bracelet)
        } else if s == "necklace"@ || s == "necklaces"@ {
            Some(AccessoryType::Necklace)
        } else if s == "ring"@ || s == "rings"@ {
            Some(AccessoryType::Ring)
        } else {
            None
        }
    }

    open spec fn token(self) -> Seq<char> {
        match self {
            AccessoryType::Bracelet => "bracelet"@,
            AccessoryType::Necklace => "necklace"@,
            AccessoryType::Ring => "ring"@,
        }
    }

    fn from_token(s: &str) -> (r: Option<Self>) {
        if same_text(s, "bracelet") || same_text(s, "bracelets") {
            Some(AccessoryType::Bracelet)
        } else if same_text(s, "necklace") || same_text(s, "necklaces") {
            Some(AccessoryType::Necklace)
        } else if same_text(s, "ring") || same_text(s, "rings") {
            Some(AccessoryType::Ring)
        } else {
            None
        }
    }

    fn as_token(self) -> (r: &'static str) {
        match self {
            AccessoryType::Bracelet => "bracelet",
            AccessoryType::Necklace => "necklace",
            AccessoryType::Ring => "ring",
        }
    }

    fn same_token(&self, other: &Self) -> (r: bool) {
        *self == *other
    }

    proof fn lemma_token_is_read(self) {
        reveal_strlit("bracelet");
        assert("bracelet"@.len() == 8 && "bracelet"@[0] == 'b');
        reveal_strlit("bracelets");
        assert("bracelets"@.len() == 9 && "bracelets"@[0] == 'b');
        reveal_strlit("necklace");
        assert("necklace"@.len() == 8 && "necklace"@[0] == 'n');
        reveal_strlit("necklaces");
        assert("necklaces"@.len() == 9 && "necklaces"@[0] == 'n');
        reveal_strlit("ring");
        assert("ring"@.len() == 4 && "ring"@[0] == 'r');
        reveal_strlit("rings");
        assert("rings"@.len() == 5 && "rings"@[0] == 'r');
    }
}

/// A kind of weapon.
#[derive(Clone, Copy, Debug, PartialEq, Eq, PartialOrd, Ord, Hash, Structural)]
pub enum WeaponType {
    Dagger,
    Bow,
    Spear,
    Relik,
    Wand,
}

impl Token for WeaponType {
    open spec fn of_token(s: Seq<char>) -> Option<Self> {
        if s == "dagger"@ || s == "daggers"@ {
            Some(WeaponType::Dagger)
        } else if s == "bow"@ || s == "bows"@ {
            Some(WeaponType::Bow)
        } else if s == "spear"@ || s == "spears"@ {
            Some(WeaponType::Spear)
        } else if s == "relik"@ || s == "reliks"@ {
            Some(WeaponType::Relik)
        } else if s == "wand"@ || s == "wands"@ {
            Some(WeaponType::Wand)
        } else {
            None
        }
    }

    open spec fn token(self) -> Seq<char> {
        match self {
            WeaponType::Dagger => "dagger"@,
            WeaponType::Bow => "bow"@,
            WeaponType::Spear => "spear"@,
            WeaponType::Relik => "relik"@,
            WeaponType::Wand => "wand"@,
        }
    }

    fn from_token(s: &str) -> (r: Option<Self>) {
        if same_text(s, "dagger") || same_text(s, "daggers") {
            Some(WeaponType::Dagger)
        } else if same_text(s, "bow") || same_text(s, "bows") {
            Some(WeaponType::Bow)
        } else if same_text(s, "spear") || same_text(s, "spears") {
            Some(WeaponType::Spear)
        } else if same_text(s, "relik") || same_text(s, "reliks") {
            Some(WeaponType::Relik)
        } else if same_text(s, "wand") || same_text(s, "wands") {
            Some(WeaponType::Wand)
        } else {
            None
        }
    }

    fn as_token(self) -> (r: &'static str) {
        match self {
            WeaponType::Dagger => "dagger",
            WeaponType::Bow => "bow",
            WeaponType::Spear => "spear",
            WeaponType::Relik => "relik",
            WeaponType::Wand => "wand",
        }
    }

    fn same_token(&self, other: &Self) -> (r: bool) {
        *self == *other
    }

    proof fn lemma_token_is_read(self) {
        reveal_strlit("dagger");
        assert("dagger"@.len() == 6 && "dagger"@[0] == 'd');
        reveal_strlit("daggers");
        assert("daggers"@.len() == 7 && "daggers"@[0] == 'd');
        reveal_strlit("bow");
        assert("bow"@.len() == 3 && "bow"@[0] == 'b');
        reveal_strlit("bows");
        assert("bows"@.len() == 4 && "bows"@[0] == 'b');
        reveal_strlit("spear");
        assert("spear"@.len() == 5 && "spear"@[0] == 's');
        reveal_strlit("spears");
        assert("spears"@.len() == 6 && "spears"@[0] == 's');
        reveal_strlit("relik");
        assert("relik"@.len() == 5 && "relik"@[0] == 'r');
        reveal_strlit("reliks");
        assert("reliks"@.len() == 6 && "reliks"@[0] == 'r');
        reveal_strlit("wand");
        assert("wand"@.len() == 4 && "wand"@[0] == 'w');
        reveal_strlit("wands");
        assert("wands"@.len() == 5 && "wands"@[0] == 'w');
    }
}

/// A kind of armour.
#[derive(Clone, Copy, Debug, PartialEq, Eq, PartialOrd, Ord, Hash, Structural)]
pub enum ArmourType {
    Helmet,
    Chestplate,
    Leggings,
    Boots,
}

impl Token for ArmourType {
    open spec fn of_token(s: Seq<char>) -> Option<Self> {
        if s == "helmet"@ || s == "helmets"@ {
            Some(ArmourType::Helmet)
        } else if s == "chestplate"@ || s == "chestplates"@ {
            Some(ArmourType::Chestplate)
        } else if s == "leggings"@ {
            Some(ArmourType::Leggings)
        } else if s == "boots"@ {
            Some(ArmourType::Boots)
        } else {
            None
        }
    }

    open spec fn token(self) -> Seq<char> {
        match self {
            ArmourType::Helmet => "helmet"@,
            ArmourType::Chestplate => "chestplate"@,
            ArmourType::Leggings => "leggings"@,
            ArmourType::Boots => "boots"@,
        }
    }

    fn from_token(s: &str) -> (r: Option<Self>) {
        if same_text(s, "helmet") || same_text(s, "helmets") {
            Some(ArmourType::Helmet)
        } else if same_text(s, "chestplate") || same_text(s, "chestplates") {
            Some(ArmourType::Chestplate)
        } else if same_text(s, "leggings") {
            Some(ArmourType::Leggings)
        } else if same_text(s, "boots") {
            Some(ArmourType::Boots)
        } else {
            None
        }
    }

    fn as_token(self) -> (r: &'static str) {
        match self {
            ArmourType::Helmet => "helmet",
            ArmourType::Chestplate => "chestplate",
            ArmourType::Leggings => "leggings",
            ArmourType::Boots => "boots",
        }
    }

    fn same_token(&self, other: &Self) -> (r: bool) {
        *self == *other
    }

    proof fn lemma_token_is_read(self) {
        reveal_strlit("helmet");
        assert("helmet"@.len() == 6);
        reveal_strlit("helmets");
        assert("helmets"@.len() == 7);
        reveal_strlit("chestplate");
        assert("chestplate"@.len() == 10);
        reveal_strlit("chestplates");
        assert("chestplates"@.len() == 11);
        reveal_strlit("leggings");
        assert("leggings"@.len() == 8);
        reveal_strlit("boots");
        assert("boots"@.len() == 5);
    }
}

/// The rarity of an item.
#[derive(Clone, Copy, Debug, PartialEq, Eq, PartialOrd, Ord, Hash, Structural)]
pub enum ItemRarity {
    Common,
    Unique,
    Rare,
    Legendary,
    Fabled,
    SetPiece,
    Mythic,
}

impl Token for ItemRarity {
    open spec fn of_token(s: Seq<char>) -> Option<Self> {
        if s == "common"@ {
            Some(ItemRarity::Common)
        } else if s == "unique"@ {
            Some(ItemRarity::Unique)
        } else if s == "rare"@ {
            Some(ItemRarity::Rare)
        } else if s == "legendary"@ {
            Some(ItemRarity::Legendary)
        } else if s == "fabled"@ {
            Some(ItemRarity::Fabled)
        } else if s == "set"@ {
            Some(ItemRarity::SetPiece)
        } else if s == "mythic"@ {
            Some(ItemRarity::Mythic)
        } else {
            None
        }
    }

    open spec fn token(self) -> Seq<char> {
        match self {
            ItemRarity::Common => "common"@,
            ItemRarity::Unique => "unique"@,
            ItemRarity::Rare => "rare"@,
            ItemRarity::Legendary => "legendary"@,
            ItemRarity::Fabled => "fabled"@,
            ItemRarity::SetPiece => "set"@,
            ItemRarity::Mythic => "mythic"@,
        }
    }

    fn from_token(s: &str) -> (r: Option<Self>) {
        if same_text(s, "common") {
            Some(ItemRarity::Common)
        } else if same_text(s, "unique") {
            Some(ItemRarity::Unique)
        } else if same_text(s, "rare") {
            Some(ItemRarity::Rare)
        } else if same_text(s, "legendary") {
            Some(ItemRarity::Legendary)
        } else if same_text(s, "fabled") {
            Some(ItemRarity::Fabled)
        } else if same_text(s, "set") {
            Some(ItemRarity::SetPiece)
        } else if same_text(s, "mythic") {
            Some(ItemRarity::Mythic)
        } else {
            None
        }
    }

    fn as_token(self) -> (r: &'static str) {
        match self {
            ItemRarity::Common => "common",
            ItemRarity::Unique => "unique",
            ItemRarity::Rare => "rare",
            ItemRarity::Legendary => "legendary",
            ItemRarity::Fabled => "fabled",
            ItemRarity::SetPiece => "set",
            ItemRarity::Mythic => "mythic",
        }
    }

    fn same_token(&self, other: &Self) -> (r: bool) {
        *self == *other
    }

    proof fn lemma_token_is_read(self) {
        reveal_strlit("common");
        assert("common"@.len() == 6 && "common"@[0] == 'c');
        reveal_strlit("unique");
        assert("unique"@.len() == 6 && "unique"@[0] == 'u');
        reveal_strlit("rare");
        assert("rare"@.len() == 4 && "rare"@[0] == 'r');
        reveal_strlit("legendary");
        assert("legendary"@.len() == 9 && "legendary"@[0] == 'l');
        reveal_strlit("fabled");
        assert("fabled"@.len() == 6 && "fabled"@[0] == 'f');
        reveal_strlit("set");
        assert("set"@.len() == 3 && "set"@[0] == 's');
        reveal_strlit("mythic");
        assert("mythic"@.len() == 6 && "mythic"@[0] == 'm');
    }
}

/// A profession.
#[derive(Clone, Copy, Debug, PartialEq, Eq, PartialOrd, Ord, Hash, Structural)]
pub enum Profession {
    Alchemism,
    Armouring,
    Cooking,
    Jeweling,
    Scribing,
    Tailoring,
    Weaponsmithing,
    Woodworking,
    Mining,
    Fishing,
    Farming,
    Woodcutting,
}

impl Token for Profession {
    open spec fn of_token(s: Seq<char>) -> Option<Self> {
        if s == "alchemism"@ {
            Some(Profession::Alchemism)
        } else if s == "armouring"@ {
            Some(Profession::Armouring)
        } else if s == "cooking"@ {
            Some(Profession::Cooking)
        } else if s == "jeweling"@ {
            Some(Profession::Jeweling)
        } else if s == "scribing"@ {
            Some(Profession::Scribing)
        } else if s == "tailoring"@ {
            Some(Profession::Tailoring)
        } else if s == "weaponsmithing"@ {
            Some(Profession::Weaponsmithing)
        } else if s == "woodworking"@ {
            Some(Profession::Woodworking)
        } else if s == "mining"@ {
            Some(Profession::Mining)
        } else if s == "fishing"@ {
            Some(Profession::Fishing)
        } else if s == "farming"@ {
            Some(Profession::Farming)
        } else if s == "woodcutting"@ {
            Some(Profession::Woodcutting)
        } else {
            None
        }
    }

    open spec fn token(self) -> Seq<char> {
        match self {
            Profession::Alchemism => "alchemism"@,
            Profession::Armouring => "armouring"@,
            Profession::Cooking => "cooking"@,
            Profession::Jeweling => "jeweling"@,
            Profession::Scribing => "scribing"@,
            Profession::Tailoring => "tailoring"@,
            Profession::Weaponsmithing => "weaponsmithing"@,
            Profession::Woodworking => "woodworking"@,
            Profession::Mining => "mining"@,
            Profession::Fishing => "fishing"@,
            Profession::Farming => "farming"@,
            Profession::Woodcutting => "woodcutting"@,
        }
    }

    fn from_token(s: &str) -> (r: Option<Self>) {
        if same_text(s, "alchemism") {
            Some(Profession::Alchemism)
        } else if same_text(s, "armouring") {
            Some(Profession::Armouring)
        } else if same_text(s, "cooking") {
            Some(Profession::Cooking)
        } else if same_text(s, "jeweling") {
            Some(Profession::Jeweling)
        } else if same_text(s, "scribing") {
            Some(Profession::Scribing)
        } else if same_text(s, "tailoring") {
            Some(Profession::Tailoring)
        } else if same_text(s, "weaponsmithing") {
            Some(Profession::Weaponsmithing)
        } else if same_text(s, "woodworking") {
            Some(Profession::Woodworking)
        } else if same_text(s, "mining") {
            Some(Profession::Mining)
        } else if same_text(s, "fishing") {
            Some(Profession::Fishing)
        } else if same_text(s, "farming") {
            Some(Profession::Farming)
        } else if same_text(s, "woodcutting") {
            Some(Profession::Woodcutting)
        } else {
            None
        }
    }

    fn as_token(self) -> (r: &'static str) {
        match self {
            Profession::Alchemism => "alchemism",
            Profession::Armouring => "armouring",
            Profession::Cooking => "cooking",
            Profession::Jeweling => "jeweling",
            Profession::Scribing => "scribing",
            Profession::Tailoring => "tailoring",
            Profession::Weaponsmithing => "weaponsmithing",
            Profession::Woodworking => "woodworking",
            Profession::Mining => "mining",
            Profession::Fishing => "fishing",
            Profession::Farming => "farming",
            Profession::Woodcutting => "woodcutting",
        }
    }

    fn same_token(&self, other: &Self) -> (r: bool) {
        *self == *other
    }

    proof fn lemma_token_is_read(self) {
        reveal_strlit("alchemism");
        assert("alchemism"@.len() == 9 && "alchemism"@[1] == 'l' && "alchemism"@[4] == 'e');
        reveal_strlit("armouring");
        assert("armouring"@.len() == 9 && "armouring"@[1] == 'r' && "armouring"@[4] == 'u');
        reveal_strlit("cooking");
        assert("cooking"@.len() == 7 && "cooking"@[1] == 'o' && "cooking"@[4] == 'i');
        reveal_strlit("jeweling");
        assert("jeweling"@.len() == 8 && "jeweling"@[1] == 'e' && "jeweling"@[4] == 'l');
        reveal_strlit("scribing");
        assert("scribing"@.len() == 8 && "scribing"@[1] == 'c' && "scribing"@[4] == 'b');
        reveal_strlit("tailoring");
        assert("tailoring"@.len() == 9 && "tailoring"@[1] == 'a' && "tailoring"@[4] == 'o');
        reveal_strlit("weaponsmithing");
        assert("weaponsmithing"@.len() == 14 && "weaponsmithing"@[1] == 'e' && "weaponsmithing"@[4] == 'o');
        reveal_strlit("woodworking");
        assert("woodworking"@.len() == 11 && "woodworking"@[1] == 'o' && "woodworking"@[4] == 'w');
        reveal_strlit("mining");
        assert("mining"@.len() == 6 && "mining"@[1] == 'i' && "mining"@[4] == 'n');
        reveal_strlit("fishing");
        assert("fishing"@.len() == 7 && "fishing"@[1] == 'i' && "fishing"@[4] == 'i');
        reveal_strlit("farming");
        assert("farming"@.len() == 7 && "farming"@[1] == 'a' && "farming"@[4] == 'i');
        reveal_strlit("woodcutting");
        assert("woodcutting"@.len() == 11 && "woodcutting"@[1] == 'o' && "woodcutting"@[4] == 'c');
    }
}

/// A statistic that an item can change.
#[derive(Clone, Copy, Debug, PartialEq, Eq, PartialOrd, Ord, Hash, Structural)]
pub enum Identification {
    Strength,
    RawEarthDamage,
    BaseEarthDamage,
    EarthDamagePercent,
    EarthDefence,
    BaseEarthDefence,
    EarthSpellDamagePercent,
    RawEarthSpellDamage,
    EarthMainAttackDamagePercent,
    RawEarthMainAttackDamage,
    Dexterity,
    RawThunderDamage,
    BaseThunderDamage,
    ThunderDamagePercent,
    ThunderDefence,
    BaseThunderDefence,
    ThunderSpellDamagePercent,
    RawThunderSpellDamage,
    ThunderMainAttackDamagePercent,
    RawThunderMainAttackDamage,
    Intelligence,
    RawWaterDamage,
    BaseWaterDamage,
    WaterDamagePercent,
    WaterDefence,
    BaseWaterDefence,
    WaterSpellDamagePercent,
    RawWaterSpellDamage,
    WaterMainAttackDamagePercent,
    RawWaterMainAttackDamage,
    Defence,
    RawFireDamage,
    BaseFireDamage,
    FireDamagePercent,
    FireDefence,
    BaseFireDefence,
    FireSpellDamagePercent,
    RawFireSpellDamage,
    FireMainAttackDamagePercent,
    RawFireMainAttackDamage,
    Agility,
    RawAirDamage,
    BaseAirDamage,
    AirDamagePercent,
    AirDefence,
    BaseAirDefence,
    AirSpellDamagePercent,
    RawAirSpellDamage,
    AirMainAttackDamagePercent,
    RawAirMainAttackDamage,
    NeutralDamagePercent,
    RawNeutralDamage,
    NeutralMainAttackDamagePercent,
    RawNeutralMainAttackDamage,
    RawNeutralSpellDamage,
    RawElementalSpellDamage,
    ElementalDamageBonusRaw,
    ElementalDamagePercent,
    RawElementalDamage,
    ElementalMainAttackDamagePercent,
    RawElementalMainAttackDamage,
    ElementalSpellDamagePercent,
    ElementalDefence,
    MainAttackDamagePercent,
    RawAttackSpeed,
    RawMainAttackDamage,
    Poison,
    Exploding,
    BaseDamage,
    DamagePercent,
    DamageFromMobs,
    RawDamage,
    Knockback,
    SpellDamagePercent,
    ManaSteal,
    ManaRegen,
    RawSpellDamage,
    RawFirstSpellCost,
    RawSecondSpellCost,
    RawThirdSpellCost,
    RawFourthSpellCost,
    FirstSpellCostPercent,
    SecondSpellCostPercent,
    ThirdSpellCostPercent,
    FourthSpellCostPercent,
    HealthRegenRaw,
    Health,
    LifeSteal,
    HealthRegenPercent,
    Basehealth,
    HealingEfficiency,
    Reflection,
    SlowEnemy,
    Thorns,
    WeakenEnemy,
    WalkSpeed,
    SprintRegen,
    Sprint,
    JumpHeight,
    LootBonus,
    XpBonus,
    LeveledLootBonus,
    LeveledXpBonus,
    Stealing,
    LootQuality,
    GatherXpBonus,
    GatherSpeed,
}

impl Token for Identification {
    open spec fn of_token(s: Seq<char>) -> Option<Self> {
        if s == "rawStrength"@ {
            Some(Identification::Strength)
        } else if s == "rawEarthDamage"@ {
            Some(Identification::RawEarthDamage)
        } else if s == "baseEarthDamage"@ {
            Some(Identification::BaseEarthDamage)
        } else if s == "earthDamage"@ {
            Some(Identification::EarthDamagePercent)
        } else if s == "earthDefence"@ {
            Some(Identification::EarthDefence)
        } else if s == "baseEarthDefence"@ {
            Some(Identification::BaseEarthDefence)
        } else if s == "earthSpellDamage"@ {
            Some(Identification::EarthSpellDamagePercent)
        } else if s == "rawEarthSpellDamage"@ {
            Some(Identification::RawEarthSpellDamage)
        } else if s == "earthMainAttackDamage"@ {
            Some(Identification::EarthMainAttackDamagePercent)
        } else if s == "rawEarthMainAttackDamage"@ {
            Some(Identification::RawEarthMainAttackDamage)
        } else if s == "rawDexterity"@ {
            Some(Identification::Dexterity)
        } else if s == "rawThunderDamage"@ {
            Some(Identification::RawThunderDamage)
        } else if s == "baseThunderDamage"@ {
            Some(Identification::BaseThunderDamage)
        } else if s == "thunderDamage"@ {
            Some(Identification::ThunderDamagePercent)
        } else if s == "thunderDefence"@ {
            Some(Identification::ThunderDefence)
        } else if s == "baseThunderDefence"@ {
            Some(Identification::BaseThunderDefence)
        } else if s == "thunderSpellDamage"@ {
            Some(Identification::ThunderSpellDamagePercent)
        } else if s == "rawThunderSpellDamage"@ {
            Some(Identification::RawThunderSpellDamage)
        } else if s == "thunderMainAttackDamage"@ {
            Some(Identification::ThunderMainAttackDamagePercent)
        } else if s == "rawThunderMainAttackDamage"@ {
            Some(Identification::RawThunderMainAttackDamage)
        } else if s == "rawIntelligence"@ {
            Some(Identification::Intelligence)
        } else if s == "rawWaterDamage"@ {
            Some(Identification::RawWaterDamage)
        } else if s == "baseWaterDamage"@ {
            Some(Identification::BaseWaterDamage)
        } else if s == "waterDamage"@ {
            Some(Identification::WaterDamagePercent)
        } else if s == "waterDefence"@ {
            Some(Identification::WaterDefence)
        } else if s == "baseWaterDefence"@ {
            Some(Identification::BaseWaterDefence)
        } else if s == "waterSpellDamage"@ {
            Some(Identification::WaterSpellDamagePercent)
        } else if s == "rawWaterSpellDamage"@ {
            Some(Identification::RawWaterSpellDamage)
        } else if s == "waterMainAttackDamage"@ {
            Some(Identification::WaterMainAttackDamagePercent)
        } else if s == "rawWaterMainAttackDamage"@ {
            Some(Identification::RawWaterMainAttackDamage)
        } else if s == "rawDefence"@ {
            Some(Identification::Defence)
        } else if s == "rawFireDamage"@ {
            Some(Identification::RawFireDamage)
        } else if s == "baseFireDamage"@ {
            Some(Identification::BaseFireDamage)
        } else if s == "fireDamage"@ {
            Some(Identification::FireDamagePercent)
        } else if s == "fireDefence"@ {
            Some(Identification::FireDefence)
        } else if s == "baseFireDefence"@ {
            Some(Identification::BaseFireDefence)
        } else if s == "fireSpellDamage"@ {
            Some(Identification::FireSpellDamagePercent)
        } else if s == "rawFireSpellDamage"@ {
            Some(Identification::RawFireSpellDamage)
        } else if s == "fireMainAttackDamage"@ {
            Some(Identification::FireMainAttackDamagePercent)
        } else if s == "rawFireMainAttackDamage"@ {
            Some(Identification::RawFireMainAttackDamage)
        } else if s == "rawAgility"@ {
            Some(Identification::Agility)
        } else if s == "rawAirDamage"@ {
            Some(Identification::RawAirDamage)
        } else if s == "baseAirDamage"@ {
            Some(Identification::BaseAirDamage)
        } else if s == "airDamage"@ {
            Some(Identification::AirDamagePercent)
        } else if s == "airDefence"@ {
            Some(Identification::AirDefence)
        } else if s == "baseAirDefence"@ {
            Some(Identification::BaseAirDefence)
        } else if s == "airSpellDamage"@ {
            Some(Identification::AirSpellDamagePercent)
        } else if s == "rawAirSpellDamage"@ {
            Some(Identification::RawAirSpellDamage)
        } else if s == "airMainAttackDamage"@ {
            Some(Identification::AirMainAttackDamagePercent)
        } else if s == "rawAirMainAttackDamage"@ {
            Some(Identification::RawAirMainAttackDamage)
        } else if s == "neutralDamage"@ {
            Some(Identification::NeutralDamagePercent)
        } else if s == "rawNeutralDamage"@ {
            Some(Identification::RawNeutralDamage)
        } else if s == "neutralMainAttackDamage"@ {
            Some(Identification::NeutralMainAttackDamagePercent)
        } else if s == "rawNeutralMainAttackDamage"@ {
            Some(Identification::RawNeutralMainAttackDamage)
        } else if s == "rawNeutralSpellDamage"@ {
            Some(Identification::RawNeutralSpellDamage)
        } else if s == "rawElementalSpellDamage"@ {
            Some(Identification::RawElementalSpellDamage)
        } else if s == "ElementalDamageBonusRaw"@ || s == "elementalDamageBonusRaw"@ {
            Some(Identification::ElementalDamageBonusRaw)
        } else if s == "elementalDamage"@ {
            Some(Identification::ElementalDamagePercent)
        } else if s == "rawElementalDamage"@ {
            Some(Identification::RawElementalDamage)
        } else if s == "elementalMainAttackDamage"@ {
            Some(Identification::ElementalMainAttackDamagePercent)
        } else if s == "rawElementalMainAttackDamage"@ {
            Some(Identification::RawElementalMainAttackDamage)
        } else if s == "elementalSpellDamage"@ {
            Some(Identification::ElementalSpellDamagePercent)
        } else if s == "elementalDefence"@ {
            Some(Identification::ElementalDefence)
        } else if s == "mainAttackDamage"@ {
            Some(Identification::MainAttackDamagePercent)
        } else if s == "rawAttackSpeed"@ {
            Some(Identification::RawAttackSpeed)
        } else if s == "rawMainAttackDamage"@ {
            Some(Identification::RawMainAttackDamage)
        } else if s == "poison"@ {
            Some(Identification::Poison)
        } else if s == "exploding"@ {
            Some(Identification::Exploding)
        } else if s == "baseDamage"@ {
            Some(Identification::BaseDamage)
        } else if s == "damage"@ {
            Some(Identification::DamagePercent)
        } else if s == "damageFromMobs"@ {
            Some(Identification::DamageFromMobs)
        } else if s == "rawDamage"@ {
            Some(Identification::RawDamage)
        } else if s == "knockback"@ {
            Some(Identification::Knockback)
        } else if s == "spellDamage"@ {
            Some(Identification::SpellDamagePercent)
        } else if s == "manaSteal"@ {
            Some(Identification::ManaSteal)
        } else if s == "manaRegen"@ {
            Some(Identification::ManaRegen)
        } else if s == "rawSpellDamage"@ {
            Some(Identification::RawSpellDamage)
        } else if s == "raw1stSpellCost"@ {
            Some(Identification::RawFirstSpellCost)
        } else if s == "raw2ndSpellCost"@ {
            Some(Identification::RawSecondSpellCost)
        } else if s == "raw3rdSpellCost"@ {
            Some(Identification::RawThirdSpellCost)
        } else if s == "raw4thSpellCost"@ {
            Some(Identification::RawFourthSpellCost)
        } else if s == "1stSpellCost"@ {
            Some(Identification::FirstSpellCostPercent)
        } else if s == "2ndSpellCost"@ {
            Some(Identification::SecondSpellCostPercent)
        } else if s == "3rdSpellCost"@ {
            Some(Identification::ThirdSpellCostPercent)
        } else if s == "4thSpellCost"@ {
            Some(Identification::FourthSpellCostPercent)
        } else if s == "healthRegenRaw"@ {
            Some(Identification::HealthRegenRaw)
        } else if s == "rawHealth"@ {
            Some(Identification::Health)
        } else if s == "lifeSteal"@ {
            Some(Identification::LifeSteal)
        } else if s == "healthRegen"@ {
            Some(Identification::HealthRegenPercent)
        } else if s == "baseHealth"@ {
            Some(Identification::Basehealth)
        } else if s == "healingEfficiency"@ {
            Some(Identification::HealingEfficiency)
        } else if s == "reflection"@ {
            Some(Identification::Reflection)
        } else if s == "slowEnemy"@ {
            Some(Identification::SlowEnemy)
        } else if s == "thorns"@ {
            Some(Identification::Thorns)
        } else if s == "weakenEnemy"@ {
            Some(Identification::WeakenEnemy)
        } else if s == "walkSpeed"@ {
            Some(Identification::WalkSpeed)
        } else if s == "sprintRegen"@ {
            Some(Identification::SprintRegen)
        } else if s == "sprint"@ {
            Some(Identification::Sprint)
        } else if s == "jumpHeight"@ {
            Some(Identification::JumpHeight)
        } else if s == "lootBonus"@ {
            Some(Identification::LootBonus)
        } else if s == "xpBonus"@ {
            Some(Identification::XpBonus)
        } else if s == "leveledLootBonus"@ {
            Some(Identification::LeveledLootBonus)
        } else if s == "leveledXpBonus"@ {
            Some(Identification::LeveledXpBonus)
        } else if s == "stealing"@ {
            Some(Identification::Stealing)
        } else if s == "lootQuality"@ {
            Some(Identification::LootQuality)
        } else if s == "gatherXpBonus"@ {
            Some(Identification::GatherXpBonus)
        } else if s == "gatherSpeed"@ {
            Some(Identification::GatherSpeed)
        } else {
            None
        }
    }

    open spec fn token(self) -> Seq<char> {
        match self {
            Identification::Strength => "rawStrength"@,
            Identification::RawEarthDamage => "rawEarthDamage"@,
            Identification::BaseEarthDamage => "baseEarthDamage"@,
            Identification::EarthDamagePercent => "earthDamage"@,
            Identification::EarthDefence => "earthDefence"@,
            Identification::BaseEarthDefence => "baseEarthDefence"@,
            Identification::EarthSpellDamagePercent => "earthSpellDamage"@,
            Identification::RawEarthSpellDamage => "rawEarthSpellDamage"@,
            Identification::EarthMainAttackDamagePercent => "earthMainAttackDamage"@,
            Identification::RawEarthMainAttackDamage => "rawEarthMainAttackDamage"@,
            Identification::Dexterity => "rawDexterity"@,
            Identification::RawThunderDamage => "rawThunderDamage"@,
            Identification::BaseThunderDamage => "baseThunderDamage"@,
            Identification::ThunderDamagePercent => "thunderDamage"@,
            Identification::ThunderDefence => "thunderDefence"@,
            Identification::BaseThunderDefence => "baseThunderDefence"@,
            Identification::ThunderSpellDamagePercent => "thunderSpellDamage"@,
            Identification::RawThunderSpellDamage => "rawThunderSpellDamage"@,
            Identification::ThunderMainAttackDamagePercent => "thunderMainAttackDamage"@,
            Identification::RawThunderMainAttackDamage => "rawThunderMainAttackDamage"@,
            Identification::Intelligence => "rawIntelligence"@,
            Identification::RawWaterDamage => "rawWaterDamage"@,
            Identification::BaseWaterDamage => "baseWaterDamage"@,
            Identification::WaterDamagePercent => "waterDamage"@,
            Identification::WaterDefence => "waterDefence"@,
            Identification::BaseWaterDefence => "baseWaterDefence"@,
            Identification::WaterSpellDamagePercent => "waterSpellDamage"@,
            Identification::RawWaterSpellDamage => "rawWaterSpellDamage"@,
            Identification::WaterMainAttackDamagePercent => "waterMainAttackDamage"@,
            Identification::RawWaterMainAttackDamage => "rawWaterMainAttackDamage"@,
            Identification::Defence => "rawDefence"@,
            Identification::RawFireDamage => "rawFireDamage"@,
            Identification::BaseFireDamage => "baseFireDamage"@,
            Identification::FireDamagePercent => "fireDamage"@,
            Identification::FireDefence => "fireDefence"@,
            Identification::BaseFireDefence => "baseFireDefence"@,
            Identification::FireSpellDamagePercent => "fireSpellDamage"@,
            Identification::RawFireSpellDamage => "rawFireSpellDamage"@,
            Identification::FireMainAttackDamagePercent => "fireMainAttackDamage"@,
            Identification::RawFireMainAttackDamage => "rawFireMainAttackDamage"@,
            Identification::Agility => "rawAgility"@,
            Identification::RawAirDamage => "rawAirDamage"@,
            Identification::BaseAirDamage => "baseAirDamage"@,
            Identification::AirDamagePercent => "airDamage"@,
            Identification::AirDefence => "airDefence"@,
            Identification::BaseAirDefence => "baseAirDefence"@,
            Identification::AirSpellDamagePercent => "airSpellDamage"@,
            Identification::RawAirSpellDamage => "rawAirSpellDamage"@,
            Identification::AirMainAttackDamagePercent => "airMainAttackDamage"@,
            Identification::RawAirMainAttackDamage => "rawAirMainAttackDamage"@,
            Identification::NeutralDamagePercent => "neutralDamage"@,
            Identification::RawNeutralDamage => "rawNeutralDamage"@,
            Identification::NeutralMainAttackDamagePercent => "neutralMainAttackDamage"@,
            Identification::RawNeutralMainAttackDamage => "rawNeutralMainAttackDamage"@,
            Identification::RawNeutralSpellDamage => "rawNeutralSpellDamage"@,
            Identification::RawElementalSpellDamage => "rawElementalSpellDamage"@,
            Identification::ElementalDamageBonusRaw => "ElementalDamageBonusRaw"@,
            Identification::ElementalDamagePercent => "elementalDamage"@,
            Identification::RawElementalDamage => "rawElementalDamage"@,
            Identification::ElementalMainAttackDamagePercent => "elementalMainAttackDamage"@,
            Identification::RawElementalMainAttackDamage => "rawElementalMainAttackDamage"@,
            Identification::ElementalSpellDamagePercent => "elementalSpellDamage"@,
            Identification::ElementalDefence => "elementalDefence"@,
            Identification::MainAttackDamagePercent => "mainAttackDamage"@,
            Identification::RawAttackSpeed => "rawAttackSpeed"@,
            Identification::RawMainAttackDamage => "rawMainAttackDamage"@,
            Identification::Poison => "poison"@,
            Identification::Exploding => "exploding"@,
            Identification::BaseDamage => "baseDamage"@,
            Identification::DamagePercent => "damage"@,
            Identification::DamageFromMobs => "damageFromMobs"@,
            Identification::RawDamage => "rawDamage"@,
            Identification::Knockback => "knockback"@,
            Identification::SpellDamagePercent => "spellDamage"@,
            Identification::ManaSteal => "manaSteal"@,
            Identification::ManaRegen => "manaRegen"@,
            Identification::RawSpellDamage => "rawSpellDamage"@,
            Identification::RawFirstSpellCost => "raw1stSpellCost"@,
            Identification::RawSecondSpellCost => "raw2ndSpellCost"@,
            Identification::RawThirdSpellCost => "raw3rdSpellCost"@,
            Identification::RawFourthSpellCost => "raw4thSpellCost"@,
            Identification::FirstSpellCostPercent => "1stSpellCost"@,
            Identification::SecondSpellCostPercent => "2ndSpellCost"@,
            Identification::ThirdSpellCostPercent => "3rdSpellCost"@,
            Identification::FourthSpellCostPercent => "4thSpellCost"@,
            Identification::HealthRegenRaw => "healthRegenRaw"@,
            Identification::Health => "rawHealth"@,
            Identification::LifeSteal => "lifeSteal"@,
            Identification::HealthRegenPercent => "healthRegen"@,
            Identification::Basehealth => "baseHealth"@,
            Identification::HealingEfficiency => "healingEfficiency"@,
            Identification::Reflection => "reflection"@,
            Identification::SlowEnemy => "slowEnemy"@,
            Identification::Thorns => "thorns"@,
            Identification::WeakenEnemy => "weakenEnemy"@,
            Identification::WalkSpeed => "walkSpeed"@,
            Identification::SprintRegen => "sprintRegen"@,
            Identification::Sprint => "sprint"@,
            Identification::JumpHeight => "jumpHeight"@,
            Identification::LootBonus => "lootBonus"@,
            Identification::XpBonus => "xpBonus"@,
            Identification::LeveledLootBonus => "leveledLootBonus"@,
            Identification::LeveledXpBonus => "leveledXpBonus"@,
            Identification::Stealing => "stealing"@,
            Identification::LootQuality => "lootQuality"@,
            Identification::GatherXpBonus => "gatherXpBonus"@,
            Identification::GatherSpeed => "gatherSpeed"@,
        }
    }

    fn from_token(s: &str) -> (r: Option<Self>) {
        if same_text(s, "rawStrength") {
            Some(Identification::Strength)
        } else if same_text(s, "rawEarthDamage") {
            Some(Identification::RawEarthDamage)
        } else if same_text(s, "baseEarthDamage") {
            Some(Identification::BaseEarthDamage)
        } else if same_text(s, "earthDamage") {
            Some(Identification::EarthDamagePercent)
        } else if same_text(s, "earthDefence") {
            Some(Identification::EarthDefence)
        } else if same_text(s, "baseEarthDefence") {
            Some(Identification::BaseEarthDefence)
        } else if same_text(s, "earthSpellDamage") {
            Some(Identification::EarthSpellDamagePercent)
        } else if same_text(s, "rawEarthSpellDamage") {
            Some(Identification::RawEarthSpellDamage)
        } else if same_text(s, "earthMainAttackDamage") {
            Some(Identification::EarthMainAttackDamagePercent)
        } else if same_text(s, "rawEarthMainAttackDamage") {
            Some(Identification::RawEarthMainAttackDamage)
        } else if same_text(s, "rawDexterity") {
            Some(Identification::Dexterity)
        } else if same_text(s, "rawThunderDamage") {
            Some(Identification::RawThunderDamage)
        } else if same_text(s, "baseThunderDamage") {
            Some(Identification::BaseThunderDamage)
        } else if same_text(s, "thunderDamage") {
            Some(Identification::ThunderDamagePercent)
        } else if same_text(s, "thunderDefence") {
            Some(Identification::ThunderDefence)
        } else if same_text(s, "baseThunderDefence") {
            Some(Identification::BaseThunderDefence)
        } else if same_text(s, "thunderSpellDamage") {
            Some(Identification::ThunderSpellDamagePercent)
        } else if same_text(s, "rawThunderSpellDamage") {
            Some(Identification::RawThunderSpellDamage)
        } else if same_text(s, "thunderMainAttackDamage") {
            Some(Identification::ThunderMainAttackDamagePercent)
        } else if same_text(s, "rawThunderMainAttackDamage") {
            Some(Identification::RawThunderMainAttackDamage)
        } else if same_text(s, "rawIntelligence") {
            Some(Identification::Intelligence)
        } else if same_text(s, "rawWaterDamage") {
            Some(Identification::RawWaterDamage)
        } else if same_text(s, "baseWaterDamage") {
            Some(Identification::BaseWaterDamage)
        } else if same_text(s, "waterDamage") {
            Some(Identification::WaterDamagePercent)
        } else if same_text(s, "waterDefence") {
            Some(Identification::WaterDefence)
        } else if same_text(s, "baseWaterDefence") {
            Some(Identification::BaseWaterDefence)
        } else if same_text(s, "waterSpellDamage") {
            Some(Identification::WaterSpellDamagePercent)
        } else if same_text(s, "rawWaterSpellDamage") {
            Some(Identification::RawWaterSpellDamage)
        } else if same_text(s, "waterMainAttackDamage") {
            Some(Identification::WaterMainAttackDamagePercent)
        } else if same_text(s, "rawWaterMainAttackDamage") {
            Some(Identification::RawWaterMainAttackDamage)
        } else if same_text(s, "rawDefence") {
            Some(Identification::Defence)
        } else if same_text(s, "rawFireDamage") {
            Some(Identification::RawFireDamage)
        } else if same_text(s, "baseFireDamage") {
            Some(Identification::BaseFireDamage)
        } else if same_text(s, "fireDamage") {
            Some(Identification::FireDamagePercent)
        } else if same_text(s, "fireDefence") {
            Some(Identification::FireDefence)
        } else if same_text(s, "baseFireDefence") {
            Some(Identification::BaseFireDefence)
        } else if same_text(s, "fireSpellDamage") {
            Some(Identification::FireSpellDamagePercent)
        } else if same_text(s, "rawFireSpellDamage") {
            Some(Identification::RawFireSpellDamage)
        } else if same_text(s, "fireMainAttackDamage") {
            Some(Identification::FireMainAttackDamagePercent)
        } else if same_text(s, "rawFireMainAttackDamage") {
            Some(Identification::RawFireMainAttackDamage)
        } else if same_text(s, "rawAgility") {
            Some(Identification::Agility)
        } else if same_text(s, "rawAirDamage") {
            Some(Identification::RawAirDamage)
        } else if same_text(s, "baseAirDamage") {
            Some(Identification::BaseAirDamage)
        } else if same_text(s, "airDamage") {
            Some(Identification::AirDamagePercent)
        } else if same_text(s, "airDefence") {
            Some(Identification::AirDefence)
        } else if same_text(s, "baseAirDefence") {
            Some(Identification::BaseAirDefence)
        } else if same_text(s, "airSpellDamage") {
            Some(Identification::AirSpellDamagePercent)
        } else if same_text(s, "rawAirSpellDamage") {
            Some(Identification::RawAirSpellDamage)
        } else if same_text(s, "airMainAttackDamage") {
            Some(Identification::AirMainAttackDamagePercent)
        } else if same_text(s, "rawAirMainAttackDamage") {
            Some(Identification::RawAirMainAttackDamage)
        } else if same_text(s, "neutralDamage") {
            Some(Identification::NeutralDamagePercent)
        } else if same_text(s, "rawNeutralDamage") {
            Some(Identification::RawNeutralDamage)
        } else if same_text(s, "neutralMainAttackDamage") {
            Some(Identification::NeutralMainAttackDamagePercent)
        } else if same_text(s, "rawNeutralMainAttackDamage") {
            Some(Identification::RawNeutralMainAttackDamage)
        } else if same_text(s, "rawNeutralSpellDamage") {
            Some(Identification::RawNeutralSpellDamage)
        } else if same_text(s, "rawElementalSpellDamage") {
            Some(Identification::RawElementalSpellDamage)
        } else if same_text(s, "ElementalDamageBonusRaw") || same_text(s, "elementalDamageBonusRaw") {
            Some(Identification::ElementalDamageBonusRaw)
        } else if same_text(s, "elementalDamage") {
            Some(Identification::ElementalDamagePercent)
        } else if same_text(s, "rawElementalDamage") {
            Some(Identification::RawElementalDamage)
        } else if same_text(s, "elementalMainAttackDamage") {
            Some(Identification::ElementalMainAttackDamagePercent)
        } else if same_text(s, "rawElementalMainAttackDamage") {
            Some(Identification::RawElementalMainAttackDamage)
        } else if same_text(s, "elementalSpellDamage") {
            Some(Identification::ElementalSpellDamagePercent)
        } else if same_text(s, "elementalDefence") {
            Some(Identification::ElementalDefence)
        } else if same_text(s, "mainAttackDamage") {
            Some(Identification::MainAttackDamagePercent)
        } else if same_text(s, "rawAttackSpeed") {
            Some(Identification::RawAttackSpeed)
        } else if same_text(s, "rawMainAttackDamage") {
            Some(Identification::RawMainAttackDamage)
        } else if same_text(s, "poison") {
            Some(Identification::Poison)
        } else if same_text(s, "exploding") {
            Some(Identification::Exploding)
        } else if same_text(s, "baseDamage") {
            Some(Identification::BaseDamage)
        } else if same_text(s, "damage") {
            Some(Identification::DamagePercent)
        } else if same_text(s, "damageFromMobs") {
            Some(Identification::DamageFromMobs)
        } else if same_text(s, "rawDamage") {
            Some(Identification::RawDamage)
        } else if same_text(s, "knockback") {
            Some(Identification::Knockback)
        } else if same_text(s, "spellDamage") {
            Some(Identification::SpellDamagePercent)
        } else if same_text(s, "manaSteal") {
            Some(Identification::ManaSteal)
        } else if same_text(s, "manaRegen") {
            Some(Identification::ManaRegen)
        } else if same_text(s, "rawSpellDamage") {
            Some(Identification::RawSpellDamage)
        } else if same_text(s, "raw1stSpellCost") {
            Some(Identification::RawFirstSpellCost)
        } else if same_text(s, "raw2ndSpellCost") {
            Some(Identification::RawSecondSpellCost)
        } else if same_text(s, "raw3rdSpellCost") {
            Some(Identification::RawThirdSpellCost)
        } else if same_text(s, "raw4thSpellCost") {
            Some(Identification::RawFourthSpellCost)
        } else if same_text(s, "1stSpellCost") {
            Some(Identification::FirstSpellCostPercent)
        } else if same_text(s, "2ndSpellCost") {
            Some(Identification::SecondSpellCostPercent)
        } else if same_text(s, "3rdSpellCost") {
            Some(Identification::ThirdSpellCostPercent)
        } else if same_text(s, "4thSpellCost") {
            Some(Identification::FourthSpellCostPercent)
        } else if same_text(s, "healthRegenRaw") {
            Some(Identification::HealthRegenRaw)
        } else if same_text(s, "rawHealth") {
            Some(Identification::Health)
        } else if same_text(s, "lifeSteal") {
            Some(Identification::LifeSteal)
        } else if same_text(s, "healthRegen") {
            Some(Identification::HealthRegenPercent)
        } else if same_text(s, "baseHealth") {
            Some(Identification::Basehealth)
        } else if same_text(s, "healingEfficiency") {
            Some(Identification::HealingEfficiency)
        } else if same_text(s, "reflection") {
            Some(Identification::Reflection)
        } else if same_text(s, "slowEnemy") {
            Some(Identification::SlowEnemy)
        } else if same_text(s, "thorns") {
            Some(Identification::Thorns)
        } else if same_text(s, "weakenEnemy") {
            Some(Identification::WeakenEnemy)
        } else if same_text(s, "walkSpeed") {
            Some(Identification::WalkSpeed)
        } else if same_text(s, "sprintRegen") {
            Some(Identification::SprintRegen)
        } else if same_text(s, "sprint") {
            Some(Identification::Sprint)
        } else if same_text(s, "jumpHeight") {
            Some(Identification::JumpHeight)
        } else if same_text(s, "lootBonus") {
            Some(Identification::LootBonus)
        } else if same_text(s, "xpBonus") {
            Some(Identification::XpBonus)
        } else if same_text(s, "leveledLootBonus") {
            Some(Identification::LeveledLootBonus)
        } else if same_text(s, "leveledXpBonus") {
            Some(Identification::LeveledXpBonus)
        } else if same_text(s, "stealing") {
            Some(Identification::Stealing)
        } else if same_text(s, "lootQuality") {
            Some(Identification::LootQuality)
        } else if same_text(s, "gatherXpBonus") {
            Some(Identification::GatherXpBonus)
        } else if same_text(s, "gatherSpeed") {
            Some(Identification::GatherSpeed)
        } else {
            None
        }
    }

    fn as_token(self) -> (r: &'static str) {
        match self {
            Identification::Strength => "rawStrength",
            Identification::RawEarthDamage => "rawEarthDamage",
            Identification::BaseEarthDamage => "baseEarthDamage",
            Identification::EarthDamagePercent => "earthDamage",
            Identification::EarthDefence => "earthDefence",
            Identification::BaseEarthDefence => "baseEarthDefence",
            Identification::EarthSpellDamagePercent => "earthSpellDamage",
            Identification::RawEarthSpellDamage => "rawEarthSpellDamage",
            Identification::EarthMainAttackDamagePercent => "earthMainAttackDamage",
            Identification::RawEarthMainAttackDamage => "rawEarthMainAttackDamage",
            Identification::Dexterity => "rawDexterity",
            Identification::RawThunderDamage => "rawThunderDamage",
            Identification::BaseThunderDamage => "baseThunderDamage",
            Identification::ThunderDamagePercent => "thunderDamage",
            Identification::ThunderDefence => "thunderDefence",
            Identification::BaseThunderDefence => "baseThunderDefence",
            Identification::ThunderSpellDamagePercent => "thunderSpellDamage",
            Identification::RawThunderSpellDamage => "rawThunderSpellDamage",
            Identification::ThunderMainAttackDamagePercent => "thunderMainAttackDamage",
            Identification::RawThunderMainAttackDamage => "rawThunderMainAttackDamage",
            Identification::Intelligence => "rawIntelligence",
            Identification::RawWaterDamage => "rawWaterDamage",
            Identification::BaseWaterDamage => "baseWaterDamage",
            Identification::WaterDamagePercent => "waterDamage",
            Identification::WaterDefence => "waterDefence",
            Identification::BaseWaterDefence => "baseWaterDefence",
            Identification::WaterSpellDamagePercent => "waterSpellDamage",
            Identification::RawWaterSpellDamage => "rawWaterSpellDamage",
            Identification::WaterMainAttackDamagePercent => "waterMainAttackDamage",
            Identification::RawWaterMainAttackDamage => "rawWaterMainAttackDamage",
            Identification::Defence => "rawDefence",
            Identification::RawFireDamage => "rawFireDamage",
            Identification::BaseFireDamage => "baseFireDamage",
            Identification::FireDamagePercent => "fireDamage",
            Identification::FireDefence => "fireDefence",
            Identification::BaseFireDefence => "baseFireDefence",
            Identification::FireSpellDamagePercent => "fireSpellDamage",
            Identification::RawFireSpellDamage => "rawFireSpellDamage",
            Identification::FireMainAttackDamagePercent => "fireMainAttackDamage",
            Identification::RawFireMainAttackDamage => "rawFireMainAttackDamage",
            Identification::Agility => "rawAgility",
            Identification::RawAirDamage => "rawAirDamage",
            Identification::BaseAirDamage => "baseAirDamage",
            Identification::AirDamagePercent => "airDamage",
            Identification::AirDefence => "airDefence",
            Identification::BaseAirDefence => "baseAirDefence",
            Identification::AirSpellDamagePercent => "airSpellDamage",
            Identification::RawAirSpellDamage => "rawAirSpellDamage",
            Identification::AirMainAttackDamagePercent => "airMainAttackDamage",
            Identification::RawAirMainAttackDamage => "rawAirMainAttackDamage",
            Identification::NeutralDamagePercent => "neutralDamage",
            Identification::RawNeutralDamage => "rawNeutralDamage",
            Identification::NeutralMainAttackDamagePercent => "neutralMainAttackDamage",
            Identification::RawNeutralMainAttackDamage => "rawNeutralMainAttackDamage",
            Identification::RawNeutralSpellDamage => "rawNeutralSpellDamage",
            Identification::RawElementalSpellDamage => "rawElementalSpellDamage",
            Identification::ElementalDamageBonusRaw => "ElementalDamageBonusRaw",
            Identification::ElementalDamagePercent => "elementalDamage",
            Identification::RawElementalDamage => "rawElementalDamage",
            Identification::ElementalMainAttackDamagePercent => "elementalMainAttackDamage",
            Identification::RawElementalMainAttackDamage => "rawElementalMainAttackDamage",
            Identification::ElementalSpellDamagePercent => "elementalSpellDamage",
            Identification::ElementalDefence => "elementalDefence",
            Identification::MainAttackDamagePercent => "mainAttackDamage",
            Identification::RawAttackSpeed => "rawAttackSpeed",
            Identification::RawMainAttackDamage => "rawMainAttackDamage",
            Identification::Poison => "poison",
            Identification::Exploding => "exploding",
            Identification::BaseDamage => "baseDamage",
            Identification::DamagePercent => "damage",
            Identification::DamageFromMobs => "damageFromMobs",
            Identification::RawDamage => "rawDamage",
            Identification::Knockback => "knockback",
            Identification::SpellDamagePercent => "spellDamage",
            Identification::ManaSteal => "manaSteal",
            Identification::ManaRegen => "manaRegen",
            Identification::RawSpellDamage => "rawSpellDamage",
            Identification::RawFirstSpellCost => "raw1stSpellCost",
            Identification::RawSecondSpellCost => "raw2ndSpellCost",
            Identification::RawThirdSpellCost => "raw3rdSpellCost",
            Identification::RawFourthSpellCost => "raw4thSpellCost",
            Identification::FirstSpellCostPercent => "1stSpellCost",
            Identification::SecondSpellCostPercent => "2ndSpellCost",
            Identification::ThirdSpellCostPercent => "3rdSpellCost",
            Identification::FourthSpellCostPercent => "4thSpellCost",
            Identification::HealthRegenRaw => "healthRegenRaw",
            Identification::Health => "rawHealth",
            Identification::LifeSteal => "lifeSteal",
            Identification::HealthRegenPercent => "healthRegen",
            Identification::Basehealth => "baseHealth",
            Identification::HealingEfficiency => "healingEfficiency",
            Identification::Reflection => "reflection",
            Identification::SlowEnemy => "slowEnemy",
            Identification::Thorns => "thorns",
            Identification::WeakenEnemy => "weakenEnemy",
            Identification::WalkSpeed => "walkSpeed",
            Identification::SprintRegen => "sprintRegen",
            Identification::Sprint => "sprint",
            Identification::JumpHeight => "jumpHeight",
            Identification::LootBonus => "lootBonus",
            Identification::XpBonus => "xpBonus",
            Identification::LeveledLootBonus => "leveledLootBonus",
            Identification::LeveledXpBonus => "leveledXpBonus",
            Identification::Stealing => "stealing",
            Identification::LootQuality => "lootQuality",
            Identification::GatherXpBonus => "gatherXpBonus",
            Identification::GatherSpeed => "gatherSpeed",
        }
    }

    fn same_token(&self, other: &Self) -> (r: bool) {
        *self == *other
    }

    proof fn lemma_token_is_read(self) {
        reveal_strlit("rawStrength");
        assert("rawStrength"@.len() == 11 && "rawStrength"@[0] == 'r' && "rawStrength"@[3] == 'S');
        assert("rawStrength"@[4] == 't');
        reveal_strlit("rawEarthDamage");
        assert("rawEarthDamage"@.len() == 14 && "rawEarthDamage"@[0] == 'r' && "rawEarthDamage"@[3] == 'E');
        assert("rawEarthDamage"@[4] == 'a');
        reveal_strlit("baseEarthDamage");
        assert("baseEarthDamage"@.len() == 15 && "baseEarthDamage"@[0] == 'b' && "baseEarthDamage"@[3] == 'e');
        assert("baseEarthDamage"@[4] == 'E');
        reveal_strlit("earthDamage");
        assert("earthDamage"@.len() == 11 && "earthDamage"@[0] == 'e' && "earthDamage"@[3] == 't');
        assert("earthDamage"@[4] == 'h');
        reveal_strlit("earthDefence");
        assert("earthDefence"@.len() == 12 && "earthDefence"@[0] == 'e' && "earthDefence"@[3] == 't');
        assert("earthDefence"@[4] == 'h');
        reveal_strlit("baseEarthDefence");
        assert("baseEarthDefence"@.len() == 16 && "baseEarthDefence"@[0] == 'b' && "baseEarthDefence"@[3] == 'e');
        assert("baseEarthDefence"@[4] == 'E');
        reveal_strlit("earthSpellDamage");
        assert("earthSpellDamage"@.len() == 16 && "earthSpellDamage"@[0] == 'e' && "earthSpellDamage"@[3] == 't');
        assert("earthSpellDamage"@[4] == 'h');
        reveal_strlit("rawEarthSpellDamage");
        assert("rawEarthSpellDamage"@.len() == 19 && "rawEarthSpellDamage"@[0] == 'r');
        assert("rawEarthSpellDamage"@[3] == 'E' && "rawEarthSpellDamage"@[4] == 'a');
        reveal_strlit("earthMainAttackDamage");
        assert("earthMainAttackDamage"@.len() == 21 && "earthMainAttackDamage"@[0] == 'e');
        assert("earthMainAttackDamage"@[3] == 't' && "earthMainAttackDamage"@[4] == 'h');
        reveal_strlit("rawEarthMainAttackDamage");
        assert("rawEarthMainAttackDamage"@.len() == 24 && "rawEarthMainAttackDamage"@[0] == 'r');
        assert("rawEarthMainAttackDamage"@[3] == 'E' && "rawEarthMainAttackDamage"@[4] == 'a');
        reveal_strlit("rawDexterity");
        assert("rawDexterity"@.len() == 12 && "rawDexterity"@[0] == 'r' && "rawDexterity"@[3] == 'D');
        assert("rawDexterity"@[4] == 'e');
        reveal_strlit("rawThunderDamage");
        assert("rawThunderDamage"@.len() == 16 && "rawThunderDamage"@[0] == 'r' && "rawThunderDamage"@[3] == 'T');
        assert("rawThunderDamage"@[4] == 'h');
        reveal_strlit("baseThunderDamage");
        assert("baseThunderDamage"@.len() == 17 && "baseThunderDamage"@[0] == 'b' && "baseThunderDamage"@[3] == 'e');
        assert("baseThunderDamage"@[4] == 'T');
        reveal_strlit("thunderDamage");
        assert("thunderDamage"@.len() == 13 && "thunderDamage"@[0] == 't' && "thunderDamage"@[3] == 'n');
        assert("thunderDamage"@[4] == 'd');
        reveal_strlit("thunderDefence");
        assert("thunderDefence"@.len() == 14 && "thunderDefence"@[0] == 't' && "thunderDefence"@[3] == 'n');
        assert("thunderDefence"@[4] == 'd');
        reveal_strlit("baseThunderDefence");
        assert("baseThunderDefence"@.len() == 18 && "baseThunderDefence"@[0] == 'b');
        assert("baseThunderDefence"@[3] == 'e' && "baseThunderDefence"@[4] == 'T');
        reveal_strlit("thunderSpellDamage");
        assert("thunderSpellDamage"@.len() == 18 && "thunderSpellDamage"@[0] == 't');
        assert("thunderSpellDamage"@[3] == 'n' && "thunderSpellDamage"@[4] == 'd');
        reveal_strlit("rawThunderSpellDamage");
        assert("rawThunderSpellDamage"@.len() == 21 && "rawThunderSpellDamage"@[0] == 'r');
        assert("rawThunderSpellDamage"@[3] == 'T' && "rawThunderSpellDamage"@[4] == 'h');
        reveal_strlit("thunderMainAttackDamage");
        assert("thunderMainAttackDamage"@.len() == 23 && "thunderMainAttackDamage"@[0] == 't');
        assert("thunderMainAttackDamage"@[3] == 'n' && "thunderMainAttackDamage"@[4] == 'd');
        reveal_strlit("rawThunderMainAttackDamage");
        assert("rawThunderMainAttackDamage"@.len() == 26 && "rawThunderMainAttackDamage"@[0] == 'r');
        assert("rawThunderMainAttackDamage"@[3] == 'T' && "rawThunderMainAttackDamage"@[4] == 'h');
        reveal_strlit("rawIntelligence");
        assert("rawIntelligence"@.len() == 15 && "rawIntelligence"@[0] == 'r' && "rawIntelligence"@[3] == 'I');
        assert("rawIntelligence"@[4] == 'n');
        reveal_strlit("rawWaterDamage");
        assert("rawWaterDamage"@.len() == 14 && "rawWaterDamage"@[0] == 'r' && "rawWaterDamage"@[3] == 'W');
        assert("rawWaterDamage"@[4] == 'a');
        reveal_strlit("baseWaterDamage");
        assert("baseWaterDamage"@.len() == 15 && "baseWaterDamage"@[0] == 'b' && "baseWaterDamage"@[3] == 'e');
        assert("baseWaterDamage"@[4] == 'W');
        reveal_strlit("waterDamage");
        assert("waterDamage"@.len() == 11 && "waterDamage"@[0] == 'w' && "waterDamage"@[3] == 'e');
        assert("waterDamage"@[4] == 'r');
        reveal_strlit("waterDefence");
        assert("waterDefence"@.len() == 12 && "waterDefence"@[0] == 'w' && "waterDefence"@[3] == 'e');
        assert("waterDefence"@[4] == 'r');
        reveal_strlit("baseWaterDefence");
        assert("baseWaterDefence"@.len() == 16 && "baseWaterDefence"@[0] == 'b' && "baseWaterDefence"@[3] == 'e');
        assert("baseWaterDefence"@[4] == 'W');
        reveal_strlit("waterSpellDamage");
        assert("waterSpellDamage"@.len() == 16 && "waterSpellDamage"@[0] == 'w' && "waterSpellDamage"@[3] == 'e');
        assert("waterSpellDamage"@[4] == 'r');
        reveal_strlit("rawWaterSpellDamage");
        assert("rawWaterSpellDamage"@.len() == 19 && "rawWaterSpellDamage"@[0] == 'r');
        assert("rawWaterSpellDamage"@[3] == 'W' && "rawWaterSpellDamage"@[4] == 'a');
        reveal_strlit("waterMainAttackDamage");
        assert("waterMainAttackDamage"@.len() == 21 && "waterMainAttackDamage"@[0] == 'w');
        assert("waterMainAttackDamage"@[3] == 'e' && "waterMainAttackDamage"@[4] == 'r');
        reveal_strlit("rawWaterMainAttackDamage");
        assert("rawWaterMainAttackDamage"@.len() == 24 && "rawWaterMainAttackDamage"@[0] == 'r');
        assert("rawWaterMainAttackDamage"@[3] == 'W' && "rawWaterMainAttackDamage"@[4] == 'a');
        reveal_strlit("rawDefence");
        assert("rawDefence"@.len() == 10 && "rawDefence"@[0] == 'r' && "rawDefence"@[3] == 'D');
        assert("rawDefence"@[4] == 'e');
        reveal_strlit("rawFireDamage");
        assert("rawFireDamage"@.len() == 13 && "rawFireDamage"@[0] == 'r' && "rawFireDamage"@[3] == 'F');
        assert("rawFireDamage"@[4] == 'i');
        reveal_strlit("baseFireDamage");
        assert("baseFireDamage"@.len() == 14 && "baseFireDamage"@[0] == 'b' && "baseFireDamage"@[3] == 'e');
        assert("baseFireDamage"@[4] == 'F');
        reveal_strlit("fireDamage");
        assert("fireDamage"@.len() == 10 && "fireDamage"@[0] == 'f' && "fireDamage"@[3] == 'e');
        assert("fireDamage"@[4] == 'D');
        reveal_strlit("fireDefence");
        assert("fireDefence"@.len() == 11 && "fireDefence"@[0] == 'f' && "fireDefence"@[3] == 'e');
        assert("fireDefence"@[4] == 'D');
        reveal_strlit("baseFireDefence");
        assert("baseFireDefence"@.len() == 15 && "baseFireDefence"@[0] == 'b' && "baseFireDefence"@[3] == 'e');
        assert("baseFireDefence"@[4] == 'F');
        reveal_strlit("fireSpellDamage");
        assert("fireSpellDamage"@.len() == 15 && "fireSpellDamage"@[0] == 'f' && "fireSpellDamage"@[3] == 'e');
        assert("fireSpellDamage"@[4] == 'S');
        reveal_strlit("rawFireSpellDamage");
        assert("rawFireSpellDamage"@.len() == 18 && "rawFireSpellDamage"@[0] == 'r');
        assert("rawFireSpellDamage"@[3] == 'F' && "rawFireSpellDamage"@[4] == 'i');
        reveal_strlit("fireMainAttackDamage");
        assert("fireMainAttackDamage"@.len() == 20 && "fireMainAttackDamage"@[0] == 'f');
        assert("fireMainAttackDamage"@[3] == 'e' && "fireMainAttackDamage"@[4] == 'M');
        reveal_strlit("rawFireMainAttackDamage");
        assert("rawFireMainAttackDamage"@.len() == 23 && "rawFireMainAttackDamage"@[0] == 'r');
        assert("rawFireMainAttackDamage"@[3] == 'F' && "rawFireMainAttackDamage"@[4] == 'i');
        reveal_strlit("rawAgility");
        assert("rawAgility"@.len() == 10 && "rawAgility"@[0] == 'r' && "rawAgility"@[3] == 'A');
        assert("rawAgility"@[4] == 'g');
        reveal_strlit("rawAirDamage");
        assert("rawAirDamage"@.len() == 12 && "rawAirDamage"@[0] == 'r' && "rawAirDamage"@[3] == 'A');
        assert("rawAirDamage"@[4] == 'i');
        reveal_strlit("baseAirDamage");
        assert("baseAirDamage"@.len() == 13 && "baseAirDamage"@[0] == 'b' && "baseAirDamage"@[3] == 'e');
        assert("baseAirDamage"@[4] == 'A');
        reveal_strlit("airDamage");
        assert("airDamage"@.len() == 9 && "airDamage"@[0] == 'a' && "airDamage"@[3] == 'D' && "airDamage"@[4] == 'a');
        reveal_strlit("airDefence");
        assert("airDefence"@.len() == 10 && "airDefence"@[0] == 'a' && "airDefence"@[3] == 'D');
        assert("airDefence"@[4] == 'e');
        reveal_strlit("baseAirDefence");
        assert("baseAirDefence"@.len() == 14 && "baseAirDefence"@[0] == 'b' && "baseAirDefence"@[3] == 'e');
        assert("baseAirDefence"@[4] == 'A');
        reveal_strlit("airSpellDamage");
        assert("airSpellDamage"@.len() == 14 && "airSpellDamage"@[0] == 'a' && "airSpellDamage"@[3] == 'S');
        assert("airSpellDamage"@[4] == 'p');
        reveal_strlit("rawAirSpellDamage");
        assert("rawAirSpellDamage"@.len() == 17 && "rawAirSpellDamage"@[0] == 'r' && "rawAirSpellDamage"@[3] == 'A');
        assert("rawAirSpellDamage"@[4] == 'i');
        reveal_strlit("airMainAttackDamage");
        assert("airMainAttackDamage"@.len() == 19 && "airMainAttackDamage"@[0] == 'a');
        assert("airMainAttackDamage"@[3] == 'M' && "airMainAttackDamage"@[4] == 'a');
        reveal_strlit("rawAirMainAttackDamage");
        assert("rawAirMainAttackDamage"@.len() == 22 && "rawAirMainAttackDamage"@[0] == 'r');
        assert("rawAirMainAttackDamage"@[3] == 'A' && "rawAirMainAttackDamage"@[4] == 'i');
        reveal_strlit("neutralDamage");
        assert("neutralDamage"@.len() == 13 && "neutralDamage"@[0] == 'n' && "neutralDamage"@[3] == 't');
        assert("neutralDamage"@[4] == 'r');
        reveal_strlit("rawNeutralDamage");
        assert("rawNeutralDamage"@.len() == 16 && "rawNeutralDamage"@[0] == 'r' && "rawNeutralDamage"@[3] == 'N');
        assert("rawNeutralDamage"@[4] == 'e');
        reveal_strlit("neutralMainAttackDamage");
        assert("neutralMainAttackDamage"@.len() == 23 && "neutralMainAttackDamage"@[0] == 'n');
        assert("neutralMainAttackDamage"@[3] == 't' && "neutralMainAttackDamage"@[4] == 'r');
        reveal_strlit("rawNeutralMainAttackDamage");
        assert("rawNeutralMainAttackDamage"@.len() == 26 && "rawNeutralMainAttackDamage"@[0] == 'r');
        assert("rawNeutralMainAttackDamage"@[3] == 'N' && "rawNeutralMainAttackDamage"@[4] == 'e');
        reveal_strlit("rawNeutralSpellDamage");
        assert("rawNeutralSpellDamage"@.len() == 21 && "rawNeutralSpellDamage"@[0] == 'r');
        assert("rawNeutralSpellDamage"@[3] == 'N' && "rawNeutralSpellDamage"@[4] == 'e');
        reveal_strlit("rawElementalSpellDamage");
        assert("rawElementalSpellDamage"@.len() == 23 && "rawElementalSpellDamage"@[0] == 'r');
        assert("rawElementalSpellDamage"@[3] == 'E' && "rawElementalSpellDamage"@[4] == 'l');
        reveal_strlit("ElementalDamageBonusRaw");
        assert("ElementalDamageBonusRaw"@.len() == 23 && "ElementalDamageBonusRaw"@[0] == 'E');
        assert("ElementalDamageBonusRaw"@[3] == 'm' && "ElementalDamageBonusRaw"@[4] == 'e');
        reveal_strlit("elementalDamageBonusRaw");
        assert("elementalDamageBonusRaw"@.len() == 23 && "elementalDamageBonusRaw"@[0] == 'e');
        assert("elementalDamageBonusRaw"@[3] == 'm' && "elementalDamageBonusRaw"@[4] == 'e');
        reveal_strlit("elementalDamage");
        assert("elementalDamage"@.len() == 15 && "elementalDamage"@[0] == 'e' && "elementalDamage"@[3] == 'm');
        assert("elementalDamage"@[4] == 'e');
        reveal_strlit("rawElementalDamage");
        assert("rawElementalDamage"@.len() == 18 && "rawElementalDamage"@[0] == 'r');
        assert("rawElementalDamage"@[3] == 'E' && "rawElementalDamage"@[4] == 'l');
        reveal_strlit("elementalMainAttackDamage");
        assert("elementalMainAttackDamage"@.len() == 25 && "elementalMainAttackDamage"@[0] == 'e');
        assert("elementalMainAttackDamage"@[3] == 'm' && "elementalMainAttackDamage"@[4] == 'e');
        reveal_strlit("rawElementalMainAttackDamage");
        assert("rawElementalMainAttackDamage"@.len() == 28 && "rawElementalMainAttackDamage"@[0] == 'r');
        assert("rawElementalMainAttackDamage"@[3] == 'E' && "rawElementalMainAttackDamage"@[4] == 'l');
        reveal_strlit("elementalSpellDamage");
        assert("elementalSpellDamage"@.len() == 20 && "elementalSpellDamage"@[0] == 'e');
        assert("elementalSpellDamage"@[3] == 'm' && "elementalSpellDamage"@[4] == 'e');
        reveal_strlit("elementalDefence");
        assert("elementalDefence"@.len() == 16 && "elementalDefence"@[0] == 'e' && "elementalDefence"@[3] == 'm');
        assert("elementalDefence"@[4] == 'e');
        reveal_strlit("mainAttackDamage");
        assert("mainAttackDamage"@.len() == 16 && "mainAttackDamage"@[0] == 'm' && "mainAttackDamage"@[3] == 'n');
        assert("mainAttackDamage"@[4] == 'A');
        reveal_strlit("rawAttackSpeed");
        assert("rawAttackSpeed"@.len() == 14 && "rawAttackSpeed"@[0] == 'r' && "rawAttackSpeed"@[3] == 'A');
        assert("rawAttackSpeed"@[4] == 't');
        reveal_strlit("rawMainAttackDamage");
        assert("rawMainAttackDamage"@.len() == 19 && "rawMainAttackDamage"@[0] == 'r');
        assert("rawMainAttackDamage"@[3] == 'M' && "rawMainAttackDamage"@[4] == 'a');
        reveal_strlit("poison");
        assert("poison"@.len() == 6 && "poison"@[0] == 'p' && "poison"@[3] == 's' && "poison"@[4] == 'o');
        reveal_strlit("exploding");
        assert("exploding"@.len() == 9 && "exploding"@[0] == 'e' && "exploding"@[3] == 'l' && "exploding"@[4] == 'o');
        reveal_strlit("baseDamage");
        assert("baseDamage"@.len() == 10 && "baseDamage"@[0] == 'b' && "baseDamage"@[3] == 'e');
        assert("baseDamage"@[4] == 'D');
        reveal_strlit("damage");
        assert("damage"@.len() == 6 && "damage"@[0] == 'd' && "damage"@[3] == 'a' && "damage"@[4] == 'g');
        reveal_strlit("damageFromMobs");
        assert("damageFromMobs"@.len() == 14 && "damageFromMobs"@[0] == 'd' && "damageFromMobs"@[3] == 'a');
        assert("damageFromMobs"@[4] == 'g');
        reveal_strlit("rawDamage");
        assert("rawDamage"@.len() == 9 && "rawDamage"@[0] == 'r' && "rawDamage"@[3] == 'D' && "rawDamage"@[4] == 'a');
        reveal_strlit("knockback");
        assert("knockback"@.len() == 9 && "knockback"@[0] == 'k' && "knockback"@[3] == 'c' && "knockback"@[4] == 'k');
        reveal_strlit("spellDamage");
        assert("spellDamage"@.len() == 11 && "spellDamage"@[0] == 's' && "spellDamage"@[3] == 'l');
        assert("spellDamage"@[4] == 'l');
        reveal_strlit("manaSteal");
        assert("manaSteal"@.len() == 9 && "manaSteal"@[0] == 'm' && "manaSteal"@[3] == 'a' && "manaSteal"@[4] == 'S');
        reveal_strlit("manaRegen");
        assert("manaRegen"@.len() == 9 && "manaRegen"@[0] == 'm' && "manaRegen"@[3] == 'a' && "manaRegen"@[4] == 'R');
        reveal_strlit("rawSpellDamage");
        assert("rawSpellDamage"@.len() == 14 && "rawSpellDamage"@[0] == 'r' && "rawSpellDamage"@[3] == 'S');
        assert("rawSpellDamage"@[4] == 'p');
        reveal_strlit("raw1stSpellCost");
        assert("raw1stSpellCost"@.len() == 15 && "raw1stSpellCost"@[0] == 'r' && "raw1stSpellCost"@[3] == '1');
        assert("raw1stSpellCost"@[4] == 's');
        reveal_strlit("raw2ndSpellCost");
        assert("raw2ndSpellCost"@.len() == 15 && "raw2ndSpellCost"@[0] == 'r' && "raw2ndSpellCost"@[3] == '2');
        assert("raw2ndSpellCost"@[4] == 'n');
        reveal_strlit("raw3rdSpellCost");
        assert("raw3rdSpellCost"@.len() == 15 && "raw3rdSpellCost"@[0] == 'r' && "raw3rdSpellCost"@[3] == '3');
        assert("raw3rdSpellCost"@[4] == 'r');
        reveal_strlit("raw4thSpellCost");
        assert("raw4thSpellCost"@.len() == 15 && "raw4thSpellCost"@[0] == 'r' && "raw4thSpellCost"@[3] == '4');
        assert("raw4thSpellCost"@[4] == 't');
        reveal_strlit("1stSpellCost");
        assert("1stSpellCost"@.len() == 12 && "1stSpellCost"@[0] == '1' && "1stSpellCost"@[3] == 'S');
        assert("1stSpellCost"@[4] == 'p');
        reveal_strlit("2ndSpellCost");
        assert("2ndSpellCost"@.len() == 12 && "2ndSpellCost"@[0] == '2' && "2ndSpellCost"@[3] == 'S');
        assert("2ndSpellCost"@[4] == 'p');
        reveal_strlit("3rdSpellCost");
        assert("3rdSpellCost"@.len() == 12 && "3rdSpellCost"@[0] == '3' && "3rdSpellCost"@[3] == 'S');
        assert("3rdSpellCost"@[4] == 'p');
        reveal_strlit("4thSpellCost");
        assert("4thSpellCost"@.len() == 12 && "4thSpellCost"@[0] == '4' && "4thSpellCost"@[3] == 'S');
        assert("4thSpellCost"@[4] == 'p');
        reveal_strlit("healthRegenRaw");
        assert("healthRegenRaw"@.len() == 14 && "healthRegenRaw"@[0] == 'h' && "healthRegenRaw"@[3] == 'l');
        assert("healthRegenRaw"@[4] == 't');
        reveal_strlit("rawHealth");
        assert("rawHealth"@.len() == 9 && "rawHealth"@[0] == 'r' && "rawHealth"@[3] == 'H' && "rawHealth"@[4] == 'e');
        reveal_strlit("lifeSteal");
        assert("lifeSteal"@.len() == 9 && "lifeSteal"@[0] == 'l' && "lifeSteal"@[3] == 'e' && "lifeSteal"@[4] == 'S');
        reveal_strlit("healthRegen");
        assert("healthRegen"@.len() == 11 && "healthRegen"@[0] == 'h' && "healthRegen"@[3] == 'l');
        assert("healthRegen"@[4] == 't');
        reveal_strlit("baseHealth");
        assert("baseHealth"@.len() == 10 && "baseHealth"@[0] == 'b' && "baseHealth"@[3] == 'e');
        assert("baseHealth"@[4] == 'H');
        reveal_strlit("healingEfficiency");
        assert("healingEfficiency"@.len() == 17 && "healingEfficiency"@[0] == 'h' && "healingEfficiency"@[3] == 'l');
        assert("healingEfficiency"@[4] == 'i');
        reveal_strlit("reflection");
        assert("reflection"@.len() == 10 && "reflection"@[0] == 'r' && "reflection"@[3] == 'l');
        assert("reflection"@[4] == 'e');
        reveal_strlit("slowEnemy");
        assert("slowEnemy"@.len() == 9 && "slowEnemy"@[0] == 's' && "slowEnemy"@[3] == 'w' && "slowEnemy"@[4] == 'E');
        reveal_strlit("thorns");
        assert("thorns"@.len() == 6 && "thorns"@[0] == 't' && "thorns"@[3] == 'r' && "thorns"@[4] == 'n');
        reveal_strlit("weakenEnemy");
        assert("weakenEnemy"@.len() == 11 && "weakenEnemy"@[0] == 'w' && "weakenEnemy"@[3] == 'k');
        assert("weakenEnemy"@[4] == 'e');
        reveal_strlit("walkSpeed");
        assert("walkSpeed"@.len() == 9 && "walkSpeed"@[0] == 'w' && "walkSpeed"@[3] == 'k' && "walkSpeed"@[4] == 'S');
        reveal_strlit("sprintRegen");
        assert("sprintRegen"@.len() == 11 && "sprintRegen"@[0] == 's' && "sprintRegen"@[3] == 'i');
        assert("sprintRegen"@[4] == 'n');
        reveal_strlit("sprint");
        assert("sprint"@.len() == 6 && "sprint"@[0] == 's' && "sprint"@[3] == 'i' && "sprint"@[4] == 'n');
        reveal_strlit("jumpHeight");
        assert("jumpHeight"@.len() == 10 && "jumpHeight"@[0] == 'j' && "jumpHeight"@[3] == 'p');
        assert("jumpHeight"@[4] == 'H');
        reveal_strlit("lootBonus");
        assert("lootBonus"@.len() == 9 && "lootBonus"@[0] == 'l' && "lootBonus"@[3] == 't' && "lootBonus"@[4] == 'B');
        reveal_strlit("xpBonus");
        assert("xpBonus"@.len() == 7 && "xpBonus"@[0] == 'x' && "xpBonus"@[3] == 'o' && "xpBonus"@[4] == 'n');
        reveal_strlit("leveledLootBonus");
        assert("leveledLootBonus"@.len() == 16 && "leveledLootBonus"@[0] == 'l' && "leveledLootBonus"@[3] == 'e');
        assert("leveledLootBonus"@[4] == 'l');
        reveal_strlit("leveledXpBonus");
        assert("leveledXpBonus"@.len() == 14 && "leveledXpBonus"@[0] == 'l' && "leveledXpBonus"@[3] == 'e');
        assert("leveledXpBonus"@[4] == 'l');
        reveal_strlit("stealing");
        assert("stealing"@.len() == 8 && "stealing"@[0] == 's' && "stealing"@[3] == 'a' && "stealing"@[4] == 'l');
        reveal_strlit("lootQuality");
        assert("lootQuality"@.len() == 11 && "lootQuality"@[0] == 'l' && "lootQuality"@[3] == 't');
        assert("lootQuality"@[4] == 'Q');
        reveal_strlit("gatherXpBonus");
        assert("gatherXpBonus"@.len() == 13 && "gatherXpBonus"@[0] == 'g' && "gatherXpBonus"@[3] == 'h');
        assert("gatherXpBonus"@[4] == 'e');
        reveal_strlit("gatherSpeed");
        assert("gatherSpeed"@.len() == 11 && "gatherSpeed"@[0] == 'g' && "gatherSpeed"@[3] == 'h');
        assert("gatherSpeed"@[4] == 'e');
    }
}

/// A major identification, by its name in the game.
#[derive(Clone, Copy, Debug, PartialEq, Eq, PartialOrd, Ord, Hash, Structural)]
pub enum MajorId {
    AlterEgo,
    BetterCowardChant,
    BetterLacerate,
    BlindingLights,
    BloodFlow,
    BombBlast,
    BreezeWeaver,
    Cavalryman,
    CherryBombs,
    Coagulate,
    CorporealShot,
    CryonicCascade,
    DeadWeight,
    DisabledAerodynamics,
    DisabledLeap,
    DisabledMaskSpeed,
    DisabledHop,
    DisabledRightingReflex,
    DisabledTimeDilation,
    Displace,
    DivineHonor,
    Efflorescence,
    Entropy,
    EpilepticMotion,
    EscapeRoute,
    Evershot,
    ExplosiveImpact,
    Expunge,
    Fallout,
    FestiveSpirit,
    FindThyself,
    Fission,
    Fixate,
    Flashfreeze,
    FlurryOfBlows,
    ForestsBlessing,
    Freerunner,
    FreneticSpirit,
    FuriousEffigy,
    FuriousSlices,
    GentleGlow,
    Geocentrism,
    GravityWell,
    Greed,
    GruesomeKnots,
    Guardian,
    Hawkeye,
    HeartOfThePack,
    Hellfire,
    HurricanesEye,
    InfernalVisage,
    Insoluble,
    Juggle,
    LastResort,
    Lifestream,
    Lightweight,
    Lockdown,
    Lunge,
    Lustrate,
    Madness,
    Magnet,
    Mangle,
    MeteorCrash,
    MobilityReduction,
    Napalm,
    Overwhelm,
    Paragon,
    PeacefulEffigy,
    PerfectRecall,
    PerilousFlare,
    Plague,
    Pounce,
    PowerFist,
    Rally,
    RecklessAbandon,
    RovingAssassin,
    RockShield,
    RustedIchor,
    SeekersVolley,
    SavioursSacrifice,
    SeekingModule,
    ShamanicInfluence,
    SnowySteps,
    Sorcery,
    SoulEater,
    StringsOfFate,
    Sublimation,
    TacticalBrilliance,
    Tackle,
    Taunt,
    TectonicWrath,
    Temblor,
    Tempest,
    TotemicFuse,
    Transcendence,
    TwistingThreads,
    Windsurf,
}

impl Token for MajorId {
    open spec fn of_token(s: Seq<char>) -> Option<Self> {
        if s == "Alter Ego"@ {
            Some(MajorId::AlterEgo)
        } else if s == "Better Coward Chant"@ {
            Some(MajorId::BetterCowardChant)
        } else if s == "Better Lacerate"@ {
            Some(MajorId::BetterLacerate)
        } else if s == "Blinding Lights"@ {
            Some(MajorId::BlindingLights)
        } else if s == "Blood Flow"@ {
            Some(MajorId::BloodFlow)
        } else if s == "Bomb Blast"@ {
            Some(MajorId::BombBlast)
        } else if s == "Breeze Weaver"@ {
            Some(MajorId::BreezeWeaver)
        } else if s == "Cavalryman"@ {
            Some(MajorId::Cavalryman)
        } else if s == "Cherry Bombs"@ {
            Some(MajorId::CherryBombs)
        } else if s == "Coagulate"@ {
            Some(MajorId::Coagulate)
        } else if s == "Corporeal Shot"@ {
            Some(MajorId::CorporealShot)
        } else if s == "Cryonic Cascade"@ {
            Some(MajorId::CryonicCascade)
        } else if s == "Dead Weight"@ {
            Some(MajorId::DeadWeight)
        } else if s == "Disabled Aerodynamics"@ {
            Some(MajorId::DisabledAerodynamics)
        } else if s == "Disabled Leap"@ {
            Some(MajorId::DisabledLeap)
        } else if s == "Disabled Mask Speed"@ {
            Some(MajorId::DisabledMaskSpeed)
        } else if s == "Disabled Hop"@ {
            Some(MajorId::DisabledHop)
        } else if s == "Disabled Righting Reflex"@ {
            Some(MajorId::DisabledRightingReflex)
        } else if s == "Disabled Time Dilation"@ {
            Some(MajorId::DisabledTimeDilation)
        } else if s == "Displace"@ {
            Some(MajorId::Displace)
        } else if s == "Divine Honor"@ {
            Some(MajorId::DivineHonor)
        } else if s == "Efflorescence"@ {
            Some(MajorId::Efflorescence)
        } else if s == "Entropy"@ {
            Some(MajorId::Entropy)
        } else if s == "Epileptic Motion"@ {
            Some(MajorId::EpilepticMotion)
        } else if s == "Escape Route"@ {
            Some(MajorId::EscapeRoute)
        } else if s == "Evershot"@ {
            Some(MajorId::Evershot)
        } else if s == "Explosive Impact"@ {
            Some(MajorId::ExplosiveImpact)
        } else if s == "Expunge"@ {
            Some(MajorId::Expunge)
        } else if s == "Fallout"@ {
            Some(MajorId::Fallout)
        } else if s == "Festive Spirit"@ {
            Some(MajorId::FestiveSpirit)
        } else if s == "Find Thyself"@ {
            Some(MajorId::FindThyself)
        } else if s == "Fission"@ {
            Some(MajorId::Fission)
        } else if s == "Fixate"@ {
            Some(MajorId::Fixate)
        } else if s == "Flashfreeze"@ {
            Some(MajorId::Flashfreeze)
        } else if s == "Flurry of Blows"@ {
            Some(MajorId::FlurryOfBlows)
        } else if s == "Forest's Blessing"@ {
            Some(MajorId::ForestsBlessing)
        } else if s == "Freerunner"@ {
            Some(MajorId::Freerunner)
        } else if s == "Frenetic Spirit"@ {
            Some(MajorId::FreneticSpirit)
        } else if s == "Furious Effigy"@ {
            Some(MajorId::FuriousEffigy)
        } else if s == "Furious Slices"@ {
            Some(MajorId::FuriousSlices)
        } else if s == "Gentle Glow"@ {
            Some(MajorId::GentleGlow)
        } else if s == "Geocentrism"@ {
            Some(MajorId::Geocentrism)
        } else if s == "Gravity Well"@ {
            Some(MajorId::GravityWell)
        } else if s == "Greed"@ {
            Some(MajorId::Greed)
        } else if s == "Gruesome Knots"@ {
            Some(MajorId::GruesomeKnots)
        } else if s == "Guardian"@ {
            Some(MajorId::Guardian)
        } else if s == "Hawkeye"@ {
            Some(MajorId::Hawkeye)
        } else if s == "Heart of the Pack"@ {
            Some(MajorId::HeartOfThePack)
        } else if s == "Hellfire"@ {
            Some(MajorId::Hellfire)
        } else if s == "Hurricane's Eye"@ {
            Some(MajorId::HurricanesEye)
        } else if s == "Infernal Visage"@ {
            Some(MajorId::InfernalVisage)
        } else if s == "Insoluble"@ {
            Some(MajorId::Insoluble)
        } else if s == "Juggle"@ {
            Some(MajorId::Juggle)
        } else if s == "Last Resort"@ {
            Some(MajorId::LastResort)
        } else if s == "Lifestream"@ {
            Some(MajorId::Lifestream)
        } else if s == "Lightweight"@ {
            Some(MajorId::Lightweight)
        } else if s == "Lockdown"@ {
            Some(MajorId::Lockdown)
        } else if s == "Lunge"@ {
            Some(MajorId::Lunge)
        } else if s == "Lustrate"@ {
            Some(MajorId::Lustrate)
        } else if s == "Madness"@ {
            Some(MajorId::Madness)
        } else if s == "Magnet"@ {
            Some(MajorId::Magnet)
        } else if s == "Mangle"@ {
            Some(MajorId::Mangle)
        } else if s == "Meteor Crash"@ {
            Some(MajorId::MeteorCrash)
        } else if s == "Mobility Reduction"@ {
            Some(MajorId::MobilityReduction)
        } else if s == "Napalm"@ {
            Some(MajorId::Napalm)
        } else if s == "Overwhelm"@ {
            Some(MajorId::Overwhelm)
        } else if s == "Paragon"@ {
            Some(MajorId::Paragon)
        } else if s == "Peaceful Effigy"@ {
            Some(MajorId::PeacefulEffigy)
        } else if s == "Perfect Recall"@ {
            Some(MajorId::PerfectRecall)
        } else if s == "Perilous Flare"@ {
            Some(MajorId::PerilousFlare)
        } else if s == "Plague"@ {
            Some(MajorId::Plague)
        } else if s == "Pounce"@ {
            Some(MajorId::Pounce)
        } else if s == "Power Fist"@ {
            Some(MajorId::PowerFist)
        } else if s == "Rally"@ {
            Some(MajorId::Rally)
        } else if s == "Reckless Abandon"@ {
            Some(MajorId::RecklessAbandon)
        } else if s == "Roving Assassin"@ {
            Some(MajorId::RovingAssassin)
        } else if s == "Rock Shield"@ {
            Some(MajorId::RockShield)
        } else if s == "Rusted Ichor"@ {
            Some(MajorId::RustedIchor)
        } else if s == "Seekers' Volley"@ {
            Some(MajorId::SeekersVolley)
        } else if s == "Saviour’s Sacrifice"@ {
            Some(MajorId::SavioursSacrifice)
        } else if s == "Seeking Module"@ {
            Some(MajorId::SeekingModule)
        } else if s == "Shamanic Influence"@ {
            Some(MajorId::ShamanicInfluence)
        } else if s == "Snowy Steps"@ {
            Some(MajorId::SnowySteps)
        } else if s == "Sorcery"@ {
            Some(MajorId::Sorcery)
        } else if s == "Soul Eater"@ {
            Some(MajorId::SoulEater)
        } else if s == "Strings of Fate"@ {
            Some(MajorId::StringsOfFate)
        } else if s == "Sublimation"@ {
            Some(MajorId::Sublimation)
        } else if s == "Tactical Brilliance"@ {
            Some(MajorId::TacticalBrilliance)
        } else if s == "Tackle"@ {
            Some(MajorId::Tackle)
        } else if s == "Taunt"@ {
            Some(MajorId::Taunt)
        } else if s == "Tectonic Wrath"@ {
            Some(MajorId::TectonicWrath)
        } else if s == "Temblor"@ {
            Some(MajorId::Temblor)
        } else if s == "Tempest"@ {
            Some(MajorId::Tempest)
        } else if s == "Totemic Fuse"@ {
            Some(MajorId::TotemicFuse)
        } else if s == "Transcendence"@ {
            Some(MajorId::Transcendence)
        } else if s == "Twisting Threads"@ {
            Some(MajorId::TwistingThreads)
        } else if s == "Windsurf"@ {
            Some(MajorId::Windsurf)
        } else {
            None
        }
    }

    open spec fn token(self) -> Seq<char> {
        match self {
            MajorId::AlterEgo => "Alter Ego"@,
            MajorId::BetterCowardChant => "Better Coward Chant"@,
            MajorId::BetterLacerate => "Better Lacerate"@,
            MajorId::BlindingLights => "Blinding Lights"@,
            MajorId::BloodFlow => "Blood Flow"@,
            MajorId::BombBlast => "Bomb Blast"@,
            MajorId::BreezeWeaver => "Breeze Weaver"@,
            MajorId::Cavalryman => "Cavalryman"@,
            MajorId::CherryBombs => "Cherry Bombs"@,
            MajorId::Coagulate => "Coagulate"@,
            MajorId::CorporealShot => "Corporeal Shot"@,
            MajorId::CryonicCascade => "Cryonic Cascade"@,
            MajorId::DeadWeight => "Dead Weight"@,
            MajorId::DisabledAerodynamics => "Disabled Aerodynamics"@,
            MajorId::DisabledLeap => "Disabled Leap"@,
            MajorId::DisabledMaskSpeed => "Disabled Mask Speed"@,
            MajorId::DisabledHop => "Disabled Hop"@,
            MajorId::DisabledRightingReflex => "Disabled Righting Reflex"@,
            MajorId::DisabledTimeDilation => "Disabled Time Dilation"@,
            MajorId::Displace => "Displace"@,
            MajorId::DivineHonor => "Divine Honor"@,
            MajorId::Efflorescence => "Efflorescence"@,
            MajorId::Entropy => "Entropy"@,
            MajorId::EpilepticMotion => "Epileptic Motion"@,
            MajorId::EscapeRoute => "Escape Route"@,
            MajorId::Evershot => "Evershot"@,
            MajorId::ExplosiveImpact => "Explosive Impact"@,
            MajorId::Expunge => "Expunge"@,
            MajorId::Fallout => "Fallout"@,
            MajorId::FestiveSpirit => "Festive Spirit"@,
            MajorId::FindThyself => "Find Thyself"@,
            MajorId::Fission => "Fission"@,
            MajorId::Fixate => "Fixate"@,
            MajorId::Flashfreeze => "Flashfreeze"@,
            MajorId::FlurryOfBlows => "Flurry of Blows"@,
            MajorId::ForestsBlessing => "Forest's Blessing"@,
            MajorId::Freerunner => "Freerunner"@,
            MajorId::FreneticSpirit => "Frenetic Spirit"@,
            MajorId::FuriousEffigy => "Furious Effigy"@,
            MajorId::FuriousSlices => "Furious Slices"@,
            MajorId::GentleGlow => "Gentle Glow"@,
            MajorId::Geocentrism => "Geocentrism"@,
            MajorId::GravityWell => "Gravity Well"@,
            MajorId::Greed => "Greed"@,
            MajorId::GruesomeKnots => "Gruesome Knots"@,
            MajorId::Guardian => "Guardian"@,
            MajorId::Hawkeye => "Hawkeye"@,
            MajorId::HeartOfThePack => "Heart of the Pack"@,
            MajorId::Hellfire => "Hellfire"@,
            MajorId::HurricanesEye => "Hurricane's Eye"@,
            MajorId::InfernalVisage => "Infernal Visage"@,
            MajorId::Insoluble => "Insoluble"@,
            MajorId::Juggle => "Juggle"@,
            MajorId::LastResort => "Last Resort"@,
            MajorId::Lifestream => "Lifestream"@,
            MajorId::Lightweight => "Lightweight"@,
            MajorId::Lockdown => "Lockdown"@,
            MajorId::Lunge => "Lunge"@,
            MajorId::Lustrate => "Lustrate"@,
            MajorId::Madness => "Madness"@,
            MajorId::Magnet => "Magnet"@,
            MajorId::Mangle => "Mangle"@,
            MajorId::MeteorCrash => "Meteor Crash"@,
            MajorId::MobilityReduction => "Mobility Reduction"@,
            MajorId::Napalm => "Napalm"@,
            MajorId::Overwhelm => "Overwhelm"@,
            MajorId::Paragon => "Paragon"@,
            MajorId::PeacefulEffigy => "Peaceful Effigy"@,
            MajorId::PerfectRecall => "Perfect Recall"@,
            MajorId::PerilousFlare => "Perilous Flare"@,
            MajorId::Plague => "Plague"@,
            MajorId::Pounce => "Pounce"@,
            MajorId::PowerFist => "Power Fist"@,
            MajorId::Rally => "Rally"@,
            MajorId::RecklessAbandon => "Reckless Abandon"@,
            MajorId::RovingAssassin => "Roving Assassin"@,
            MajorId::RockShield => "Rock Shield"@,
            MajorId::RustedIchor => "Rusted Ichor"@,
            MajorId::SeekersVolley => "Seekers' Volley"@,
            MajorId::SavioursSacrifice => "Saviour’s Sacrifice"@,
            MajorId::SeekingModule => "Seeking Module"@,
            MajorId::ShamanicInfluence => "Shamanic Influence"@,
            MajorId::SnowySteps => "Snowy Steps"@,
            MajorId::Sorcery => "Sorcery"@,
            MajorId::SoulEater => "Soul Eater"@,
            MajorId::StringsOfFate => "Strings of Fate"@,
            MajorId::Sublimation => "Sublimation"@,
            MajorId::TacticalBrilliance => "Tactical Brilliance"@,
            MajorId::Tackle => "Tackle"@,
            MajorId::Taunt => "Taunt"@,
            MajorId::TectonicWrath => "Tectonic Wrath"@,
            MajorId::Temblor => "Temblor"@,
            MajorId::Tempest => "Tempest"@,
            MajorId::TotemicFuse => "Totemic Fuse"@,
            MajorId::Transcendence => "Transcendence"@,
            MajorId::TwistingThreads => "Twisting Threads"@,
            MajorId::Windsurf => "Windsurf"@,
        }
    }

    fn from_token(s: &str) -> (r: Option<Self>) {
        if same_text(s, "Alter Ego") {
            Some(MajorId::AlterEgo)
        } else if same_text(s, "Better Coward Chant") {
            Some(MajorId::BetterCowardChant)
        } else if same_text(s, "Better Lacerate") {
            Some(MajorId::BetterLacerate)
        } else if same_text(s, "Blinding Lights") {
            Some(MajorId::BlindingLights)
        } else if same_text(s, "Blood Flow") {
            Some(MajorId::BloodFlow)
        } else if same_text(s, "Bomb Blast") {
            Some(MajorId::BombBlast)
        } else if same_text(s, "Breeze Weaver") {
            Some(MajorId::BreezeWeaver)
        } else if same_text(s, "Cavalryman") {
            Some(MajorId::Cavalryman)
        } else if same_text(s, "Cherry Bombs") {
            Some(MajorId::CherryBombs)
        } else if same_text(s, "Coagulate") {
            Some(MajorId::Coagulate)
        } else if same_text(s, "Corporeal Shot") {
            Some(MajorId::CorporealShot)
        } else if same_text(s, "Cryonic Cascade") {
            Some(MajorId::CryonicCascade)
        } else if same_text(s, "Dead Weight") {
            Some(MajorId::DeadWeight)
        } else if same_text(s, "Disabled Aerodynamics") {
            Some(MajorId::DisabledAerodynamics)
        } else if same_text(s, "Disabled Leap") {
            Some(MajorId::DisabledLeap)
        } else if same_text(s, "Disabled Mask Speed") {
            Some(MajorId::DisabledMaskSpeed)
        } else if same_text(s, "Disabled Hop") {
            Some(MajorId::DisabledHop)
        } else if same_text(s, "Disabled Righting Reflex") {
            Some(MajorId::DisabledRightingReflex)
        } else if same_text(s, "Disabled Time Dilation") {
            Some(MajorId::DisabledTimeDilation)
        } else if same_text(s, "Displace") {
            Some(MajorId::Displace)
        } else if same_text(s, "Divine Honor") {
            Some(MajorId::DivineHonor)
        } else if same_text(s, "Efflorescence") {
            Some(MajorId::Efflorescence)
        } else if same_text(s, "Entropy") {
            Some(MajorId::Entropy)
        } else if same_text(s, "Epileptic Motion") {
            Some(MajorId::EpilepticMotion)
        } else if same_text(s, "Escape Route") {
            Some(MajorId::EscapeRoute)
        } else if same_text(s, "Evershot") {
            Some(MajorId::Evershot)
        } else if same_text(s, "Explosive Impact") {
            Some(MajorId::ExplosiveImpact)
        } else if same_text(s, "Expunge") {
            Some(MajorId::Expunge)
        } else if same_text(s, "Fallout") {
            Some(MajorId::Fallout)
        } else if same_text(s, "Festive Spirit") {
            Some(MajorId::FestiveSpirit)
        } else if same_text(s, "Find Thyself") {
            Some(MajorId::FindThyself)
        } else if same_text(s, "Fission") {
            Some(MajorId::Fission)
        } else if same_text(s, "Fixate") {
            Some(MajorId::Fixate)
        } else if same_text(s, "Flashfreeze") {
            Some(MajorId::Flashfreeze)
        } else if same_text(s, "Flurry of Blows") {
            Some(MajorId::FlurryOfBlows)
        } else if same_text(s, "Forest's Blessing") {
            Some(MajorId::ForestsBlessing)
        } else if same_text(s, "Freerunner") {
            Some(MajorId::Freerunner)
        } else if same_text(s, "Frenetic Spirit") {
            Some(MajorId::FreneticSpirit)
        } else if same_text(s, "Furious Effigy") {
            Some(MajorId::FuriousEffigy)
        } else if same_text(s, "Furious Slices") {
            Some(MajorId::FuriousSlices)
        } else if same_text(s, "Gentle Glow") {
            Some(MajorId::GentleGlow)
        } else if same_text(s, "Geocentrism") {
            Some(MajorId::Geocentrism)
        } else if same_text(s, "Gravity Well") {
            Some(MajorId::GravityWell)
        } else if same_text(s, "Greed") {
            Some(MajorId::Greed)
        } else if same_text(s, "Gruesome Knots") {
            Some(MajorId::GruesomeKnots)
        } else if same_text(s, "Guardian") {
            Some(MajorId::Guardian)
        } else if same_text(s, "Hawkeye") {
            Some(MajorId::Hawkeye)
        } else if same_text(s, "Heart of the Pack") {
            Some(MajorId::HeartOfThePack)
        } else if same_text(s, "Hellfire") {
            Some(MajorId::Hellfire)
        } else if same_text(s, "Hurricane's Eye") {
            Some(MajorId::HurricanesEye)
        } else if same_text(s, "Infernal Visage") {
            Some(MajorId::InfernalVisage)
        } else if same_text(s, "Insoluble") {
            Some(MajorId::Insoluble)
        } else if same_text(s, "Juggle") {
            Some(MajorId::Juggle)
        } else if same_text(s, "Last Resort") {
            Some(MajorId::LastResort)
        } else if same_text(s, "Lifestream") {
            Some(MajorId::Lifestream)
        } else if same_text(s, "Lightweight") {
            Some(MajorId::Lightweight)
        } else if same_text(s, "Lockdown") {
            Some(MajorId::Lockdown)
        } else if same_text(s, "Lunge") {
            Some(MajorId::Lunge)
        } else if same_text(s, "Lustrate") {
            Some(MajorId::Lustrate)
        } else if same_text(s, "Madness") {
            Some(MajorId::Madness)
        } else if same_text(s, "Magnet") {
            Some(MajorId::Magnet)
        } else if same_text(s, "Mangle") {
            Some(MajorId::Mangle)
        } else if same_text(s, "Meteor Crash") {
            Some(MajorId::MeteorCrash)
        } else if same_text(s, "Mobility Reduction") {
            Some(MajorId::MobilityReduction)
        } else if same_text(s, "Napalm") {
            Some(MajorId::Napalm)
        } else if same_text(s, "Overwhelm") {
            Some(MajorId::Overwhelm)
        } else if same_text(s, "Paragon") {
            Some(MajorId::Paragon)
        } else if same_text(s, "Peaceful Effigy") {
            Some(MajorId::PeacefulEffigy)
        } else if same_text(s, "Perfect Recall") {
            Some(MajorId::PerfectRecall)
        } else if same_text(s, "Perilous Flare") {
            Some(MajorId::PerilousFlare)
        } else if same_text(s, "Plague") {
            Some(MajorId::Plague)
        } else if same_text(s, "Pounce") {
            Some(MajorId::Pounce)
        } else if same_text(s, "Power Fist") {
            Some(MajorId::PowerFist)
        } else if same_text(s, "Rally") {
            Some(MajorId::Rally)
        } else if same_text(s, "Reckless Abandon") {
            Some(MajorId::RecklessAbandon)
        } else if same_text(s, "Roving Assassin") {
            Some(MajorId::RovingAssassin)
        } else if same_text(s, "Rock Shield") {
            Some(MajorId::RockShield)
        } else if same_text(s, "Rusted Ichor") {
            Some(MajorId::RustedIchor)
        } else if same_text(s, "Seekers' Volley") {
            Some(MajorId::SeekersVolley)
        } else if same_text(s, "Saviour’s Sacrifice") {
            Some(MajorId::SavioursSacrifice)
        } else if same_text(s, "Seeking Module") {
            Some(MajorId::SeekingModule)
        } else if same_text(s, "Shamanic Influence") {
            Some(MajorId::ShamanicInfluence)
        } else if same_text(s, "Snowy Steps") {
            Some(MajorId::SnowySteps)
        } else if same_text(s, "Sorcery") {
            Some(MajorId::Sorcery)
        } else if same_text(s, "Soul Eater") {
            Some(MajorId::SoulEater)
        } else if same_text(s, "Strings of Fate") {
            Some(MajorId::StringsOfFate)
        } else if same_text(s, "Sublimation") {
            Some(MajorId::Sublimation)
        } else if same_text(s, "Tactical Brilliance") {
            Some(MajorId::TacticalBrilliance)
        } else if same_text(s, "Tackle") {
            Some(MajorId::Tackle)
        } else if same_text(s, "Taunt") {
            Some(MajorId::Taunt)
        } else if same_text(s, "Tectonic Wrath") {
            Some(MajorId::TectonicWrath)
        } else if same_text(s, "Temblor") {
            Some(MajorId::Temblor)
        } else if same_text(s, "Tempest") {
            Some(MajorId::Tempest)
        } else if same_text(s, "Totemic Fuse") {
            Some(MajorId::TotemicFuse)
        } else if same_text(s, "Transcendence") {
            Some(MajorId::Transcendence)
        } else if same_text(s, "Twisting Threads") {
            Some(MajorId::TwistingThreads)
        } else if same_text(s, "Windsurf") {
            Some(MajorId::Windsurf)
        } else {
            None
        }
    }

    fn as_token(self) -> (r: &'static str) {
        match self {
            MajorId::AlterEgo => "Alter Ego",
            MajorId::BetterCowardChant => "Better Coward Chant",
            MajorId::BetterLacerate => "Better Lacerate",
            MajorId::BlindingLights => "Blinding Lights",
            MajorId::BloodFlow => "Blood Flow",
            MajorId::BombBlast => "Bomb Blast",
            MajorId::BreezeWeaver => "Breeze Weaver",
            MajorId::Cavalryman => "Cavalryman",
            MajorId::CherryBombs => "Cherry Bombs",
            MajorId::Coagulate => "Coagulate",
            MajorId::CorporealShot => "Corporeal Shot",
            MajorId::CryonicCascade => "Cryonic Cascade",
            MajorId::DeadWeight => "Dead Weight",
            MajorId::DisabledAerodynamics => "Disabled Aerodynamics",
            MajorId::DisabledLeap => "Disabled Leap",
            MajorId::DisabledMaskSpeed => "Disabled Mask Speed",
            MajorId::DisabledHop => "Disabled Hop",
            MajorId::DisabledRightingReflex => "Disabled Righting Reflex",
            MajorId::DisabledTimeDilation => "Disabled Time Dilation",
            MajorId::Displace => "Displace",
            MajorId::DivineHonor => "Divine Honor",
            MajorId::Efflorescence => "Efflorescence",
            MajorId::Entropy => "Entropy",
            MajorId::EpilepticMotion => "Epileptic Motion",
            MajorId::EscapeRoute => "Escape Route",
            MajorId::Evershot => "Evershot",
            MajorId::ExplosiveImpact => "Explosive Impact",
            MajorId::Expunge => "Expunge",
            MajorId::Fallout => "Fallout",
            MajorId::FestiveSpirit => "Festive Spirit",
            MajorId::FindThyself => "Find Thyself",
            MajorId::Fission => "Fission",
            MajorId::Fixate => "Fixate",
            MajorId::Flashfreeze => "Flashfreeze",
            MajorId::FlurryOfBlows => "Flurry of Blows",
            MajorId::ForestsBlessing => "Forest's Blessing",
            MajorId::Freerunner => "Freerunner",
            MajorId::FreneticSpirit => "Frenetic Spirit",
            MajorId::FuriousEffigy => "Furious Effigy",
            MajorId::FuriousSlices => "Furious Slices",
            MajorId::GentleGlow => "Gentle Glow",
            MajorId::Geocentrism => "Geocentrism",
            MajorId::GravityWell => "Gravity Well",
            MajorId::Greed => "Greed",
            MajorId::GruesomeKnots => "Gruesome Knots",
            MajorId::Guardian => "Guardian",
            MajorId::Hawkeye => "Hawkeye",
            MajorId::HeartOfThePack => "Heart of the Pack",
            MajorId::Hellfire => "Hellfire",
            MajorId::HurricanesEye => "Hurricane's Eye",
            MajorId::InfernalVisage => "Infernal Visage",
            MajorId::Insoluble => "Insoluble",
            MajorId::Juggle => "Juggle",
            MajorId::LastResort => "Last Resort",
            MajorId::Lifestream => "Lifestream",
            MajorId::Lightweight => "Lightweight",
            MajorId::Lockdown => "Lockdown",
            MajorId::Lunge => "Lunge",
            MajorId::Lustrate => "Lustrate",
            MajorId::Madness => "Madness",
            MajorId::Magnet => "Magnet",
            MajorId::Mangle => "Mangle",
            MajorId::MeteorCrash => "Meteor Crash",
            MajorId::MobilityReduction => "Mobility Reduction",
            MajorId::Napalm => "Napalm",
            MajorId::Overwhelm => "Overwhelm",
            MajorId::Paragon => "Paragon",
            MajorId::PeacefulEffigy => "Peaceful Effigy",
            MajorId::PerfectRecall => "Perfect Recall",
            MajorId::PerilousFlare => "Perilous Flare",
            MajorId::Plague => "Plague",
            MajorId::Pounce => "Pounce",
            MajorId::PowerFist => "Power Fist",
            MajorId::Rally => "Rally",
            MajorId::RecklessAbandon => "Reckless Abandon",
            MajorId::RovingAssassin => "Roving Assassin",
            MajorId::RockShield => "Rock Shield",
            MajorId::RustedIchor => "Rusted Ichor",
            MajorId::SeekersVolley => "Seekers' Volley",
            MajorId::SavioursSacrifice => "Saviour’s Sacrifice",
            MajorId::SeekingModule => "Seeking Module",
            MajorId::ShamanicInfluence => "Shamanic Influence",
            MajorId::SnowySteps => "Snowy Steps",
            MajorId::Sorcery => "Sorcery",
            MajorId::SoulEater => "Soul Eater",
            MajorId::StringsOfFate => "Strings of Fate",
            MajorId::Sublimation => "Sublimation",
            MajorId::TacticalBrilliance => "Tactical Brilliance",
            MajorId::Tackle => "Tackle",
            MajorId::Taunt => "Taunt",
            MajorId::TectonicWrath => "Tectonic Wrath",
            MajorId::Temblor => "Temblor",
            MajorId::Tempest => "Tempest",
            MajorId::TotemicFuse => "Totemic Fuse",
            MajorId::Transcendence => "Transcendence",
            MajorId::TwistingThreads => "Twisting Threads",
            MajorId::Windsurf => "Windsurf",
        }
    }

    fn same_token(&self, other: &Self) -> (r: bool) {
        *self == *other
    }

    proof fn lemma_token_is_read(self) {
        reveal_strlit("Alter Ego");
        assert("Alter Ego"@.len() == 9 && "Alter Ego"@[0] == 'A' && "Alter Ego"@[4] == 'r' && "Alter Ego"@[8] == 'o');
        reveal_strlit("Better Coward Chant");
        assert("Better Coward Chant"@.len() == 19 && "Better Coward Chant"@[0] == 'B');
        assert("Better Coward Chant"@[4] == 'e' && "Better Coward Chant"@[8] == 'o');
        reveal_strlit("Better Lacerate");
        assert("Better Lacerate"@.len() == 15 && "Better Lacerate"@[0] == 'B' && "Better Lacerate"@[4] == 'e');
        assert("Better Lacerate"@[8] == 'a');
        reveal_strlit("Blinding Lights");
        assert("Blinding Lights"@.len() == 15 && "Blinding Lights"@[0] == 'B' && "Blinding Lights"@[4] == 'd');
        assert("Blinding Lights"@[8] == ' ');
        reveal_strlit("Blood Flow");
        assert("Blood Flow"@.len() == 10 && "Blood Flow"@[0] == 'B' && "Blood Flow"@[4] == 'd');
        assert("Blood Flow"@[8] == 'o');
        reveal_strlit("Bomb Blast");
        assert("Bomb Blast"@.len() == 10 && "Bomb Blast"@[0] == 'B' && "Bomb Blast"@[4] == ' ');
        assert("Bomb Blast"@[8] == 's');
        reveal_strlit("Breeze Weaver");
        assert("Breeze Weaver"@.len() == 13 && "Breeze Weaver"@[0] == 'B' && "Breeze Weaver"@[4] == 'z');
        assert("Breeze Weaver"@[8] == 'e');
        reveal_strlit("Cavalryman");
        assert("Cavalryman"@.len() == 10 && "Cavalryman"@[0] == 'C' && "Cavalryman"@[4] == 'l');
        assert("Cavalryman"@[8] == 'a');
        reveal_strlit("Cherry Bombs");
        assert("Cherry Bombs"@.len() == 12 && "Cherry Bombs"@[0] == 'C' && "Cherry Bombs"@[4] == 'r');
        assert("Cherry Bombs"@[8] == 'o');
        reveal_strlit("Coagulate");
        assert("Coagulate"@.len() == 9 && "Coagulate"@[0] == 'C' && "Coagulate"@[4] == 'u' && "Coagulate"@[8] == 'e');
        reveal_strlit("Corporeal Shot");
        assert("Corporeal Shot"@.len() == 14 && "Corporeal Shot"@[0] == 'C' && "Corporeal Shot"@[4] == 'o');
        assert("Corporeal Shot"@[8] == 'l');
        reveal_strlit("Cryonic Cascade");
        assert("Cryonic Cascade"@.len() == 15 && "Cryonic Cascade"@[0] == 'C' && "Cryonic Cascade"@[4] == 'n');
        assert("Cryonic Cascade"@[8] == 'C');
        reveal_strlit("Dead Weight");
        assert("Dead Weight"@.len() == 11 && "Dead Weight"@[0] == 'D' && "Dead Weight"@[4] == ' ');
        assert("Dead Weight"@[8] == 'g');
        reveal_strlit("Disabled Aerodynamics");
        assert("Disabled Aerodynamics"@.len() == 21 && "Disabled Aerodynamics"@[0] == 'D');
        assert("Disabled Aerodynamics"@[4] == 'b' && "Disabled Aerodynamics"@[8] == ' ');
        reveal_strlit("Disabled Leap");
        assert("Disabled Leap"@.len() == 13 && "Disabled Leap"@[0] == 'D' && "Disabled Leap"@[4] == 'b');
        assert("Disabled Leap"@[8] == ' ');
        reveal_strlit("Disabled Mask Speed");
        assert("Disabled Mask Speed"@.len() == 19 && "Disabled Mask Speed"@[0] == 'D');
        assert("Disabled Mask Speed"@[4] == 'b' && "Disabled Mask Speed"@[8] == ' ');
        reveal_strlit("Disabled Hop");
        assert("Disabled Hop"@.len() == 12 && "Disabled Hop"@[0] == 'D' && "Disabled Hop"@[4] == 'b');
        assert("Disabled Hop"@[8] == ' ');
        reveal_strlit("Disabled Righting Reflex");
        assert("Disabled Righting Reflex"@.len() == 24 && "Disabled Righting Reflex"@[0] == 'D');
        assert("Disabled Righting Reflex"@[4] == 'b' && "Disabled Righting Reflex"@[8] == ' ');
        reveal_strlit("Disabled Time Dilation");
        assert("Disabled Time Dilation"@.len() == 22 && "Disabled Time Dilation"@[0] == 'D');
        assert("Disabled Time Dilation"@[4] == 'b' && "Disabled Time Dilation"@[8] == ' ');
        reveal_strlit("Displace");
        assert("Displace"@.len() == 8 && "Displace"@[0] == 'D' && "Displace"@[4] == 'l');
        reveal_strlit("Divine Honor");
        assert("Divine Honor"@.len() == 12 && "Divine Honor"@[0] == 'D' && "Divine Honor"@[4] == 'n');
        assert("Divine Honor"@[8] == 'o');
        reveal_strlit("Efflorescence");
        assert("Efflorescence"@.len() == 13 && "Efflorescence"@[0] == 'E' && "Efflorescence"@[4] == 'o');
        assert("Efflorescence"@[8] == 'c');
        reveal_strlit("Entropy");
        assert("Entropy"@.len() == 7 && "Entropy"@[0] == 'E' && "Entropy"@[4] == 'o');
        reveal_strlit("Epileptic Motion");
        assert("Epileptic Motion"@.len() == 16 && "Epileptic Motion"@[0] == 'E' && "Epileptic Motion"@[4] == 'e');
        assert("Epileptic Motion"@[8] == 'c');
        reveal_strlit("Escape Route");
        assert("Escape Route"@.len() == 12 && "Escape Route"@[0] == 'E' && "Escape Route"@[4] == 'p');
        assert("Escape Route"@[8] == 'o');
        reveal_strlit("Evershot");
        assert("Evershot"@.len() == 8 && "Evershot"@[0] == 'E' && "Evershot"@[4] == 's');
        reveal_strlit("Explosive Impact");
        assert("Explosive Impact"@.len() == 16 && "Explosive Impact"@[0] == 'E' && "Explosive Impact"@[4] == 'o');
        assert("Explosive Impact"@[8] == 'e');
        reveal_strlit("Expunge");
        assert("Expunge"@.len() == 7 && "Expunge"@[0] == 'E' && "Expunge"@[4] == 'n');
        reveal_strlit("Fallout");
        assert("Fallout"@.len() == 7 && "Fallout"@[0] == 'F' && "Fallout"@[4] == 'o');
        reveal_strlit("Festive Spirit");
        assert("Festive Spirit"@.len() == 14 && "Festive Spirit"@[0] == 'F' && "Festive Spirit"@[4] == 'i');
        assert("Festive Spirit"@[8] == 'S');
        reveal_strlit("Find Thyself");
        assert("Find Thyself"@.len() == 12 && "Find Thyself"@[0] == 'F' && "Find Thyself"@[4] == ' ');
        assert("Find Thyself"@[8] == 's');
        reveal_strlit("Fission");
        assert("Fission"@.len() == 7 && "Fission"@[0] == 'F' && "Fission"@[4] == 'i');
        reveal_strlit("Fixate");
        assert("Fixate"@.len() == 6 && "Fixate"@[0] == 'F' && "Fixate"@[4] == 't');
        reveal_strlit("Flashfreeze");
        assert("Flashfreeze"@.len() == 11 && "Flashfreeze"@[0] == 'F' && "Flashfreeze"@[4] == 'h');
        assert("Flashfreeze"@[8] == 'e');
        reveal_strlit("Flurry of Blows");
        assert("Flurry of Blows"@.len() == 15 && "Flurry of Blows"@[0] == 'F' && "Flurry of Blows"@[4] == 'r');
        assert("Flurry of Blows"@[8] == 'f');
        reveal_strlit("Forest's Blessing");
        assert("Forest's Blessing"@.len() == 17 && "Forest's Blessing"@[0] == 'F' && "Forest's Blessing"@[4] == 's');
        assert("Forest's Blessing"@[8] == ' ');
        reveal_strlit("Freerunner");
        assert("Freerunner"@.len() == 10 && "Freerunner"@[0] == 'F' && "Freerunner"@[4] == 'r');
        assert("Freerunner"@[8] == 'e');
        reveal_strlit("Frenetic Spirit");
        assert("Frenetic Spirit"@.len() == 15 && "Frenetic Spirit"@[0] == 'F' && "Frenetic Spirit"@[4] == 'e');
        assert("Frenetic Spirit"@[8] == ' ');
        reveal_strlit("Furious Effigy");
        assert("Furious Effigy"@.len() == 14 && "Furious Effigy"@[0] == 'F' && "Furious Effigy"@[4] == 'o');
        assert("Furious Effigy"@[8] == 'E');
        reveal_strlit("Furious Slices");
        assert("Furious Slices"@.len() == 14 && "Furious Slices"@[0] == 'F' && "Furious Slices"@[4] == 'o');
        assert("Furious Slices"@[8] == 'S');
        reveal_strlit("Gentle Glow");
        assert("Gentle Glow"@.len() == 11 && "Gentle Glow"@[0] == 'G' && "Gentle Glow"@[4] == 'l');
        assert("Gentle Glow"@[8] == 'l');
        reveal_strlit("Geocentrism");
        assert("Geocentrism"@.len() == 11 && "Geocentrism"@[0] == 'G' && "Geocentrism"@[4] == 'e');
        assert("Geocentrism"@[8] == 'i');
        reveal_strlit("Gravity Well");
        assert("Gravity Well"@.len() == 12 && "Gravity Well"@[0] == 'G' && "Gravity Well"@[4] == 'i');
        assert("Gravity Well"@[8] == 'W');
        reveal_strlit("Greed");
        assert("Greed"@.len() == 5 && "Greed"@[0] == 'G' && "Greed"@[4] == 'd');
        reveal_strlit("Gruesome Knots");
        assert("Gruesome Knots"@.len() == 14 && "Gruesome Knots"@[0] == 'G' && "Gruesome Knots"@[4] == 's');
        assert("Gruesome Knots"@[8] == ' ');
        reveal_strlit("Guardian");
        assert("Guardian"@.len() == 8 && "Guardian"@[0] == 'G' && "Guardian"@[4] == 'd');
        reveal_strlit("Hawkeye");
        assert("Hawkeye"@.len() == 7 && "Hawkeye"@[0] == 'H' && "Hawkeye"@[4] == 'e');
        reveal_strlit("Heart of the Pack");
        assert("Heart of the Pack"@.len() == 17 && "Heart of the Pack"@[0] == 'H' && "Heart of the Pack"@[4] == 't');
        assert("Heart of the Pack"@[8] == ' ');
        reveal_strlit("Hellfire");
        assert("Hellfire"@.len() == 8 && "Hellfire"@[0] == 'H' && "Hellfire"@[4] == 'f');
        reveal_strlit("Hurricane's Eye");
        assert("Hurricane's Eye"@.len() == 15 && "Hurricane's Eye"@[0] == 'H' && "Hurricane's Eye"@[4] == 'i');
        assert("Hurricane's Eye"@[8] == 'e');
        reveal_strlit("Infernal Visage");
        assert("Infernal Visage"@.len() == 15 && "Infernal Visage"@[0] == 'I' && "Infernal Visage"@[4] == 'r');
        assert("Infernal Visage"@[8] == ' ');
        reveal_strlit("Insoluble");
        assert("Insoluble"@.len() == 9 && "Insoluble"@[0] == 'I' && "Insoluble"@[4] == 'l' && "Insoluble"@[8] == 'e');
        reveal_strlit("Juggle");
        assert("Juggle"@.len() == 6 && "Juggle"@[0] == 'J' && "Juggle"@[4] == 'l');
        reveal_strlit("Last Resort");
        assert("Last Resort"@.len() == 11 && "Last Resort"@[0] == 'L' && "Last Resort"@[4] == ' ');
        assert("Last Resort"@[8] == 'o');
        reveal_strlit("Lifestream");
        assert("Lifestream"@.len() == 10 && "Lifestream"@[0] == 'L' && "Lifestream"@[4] == 's');
        assert("Lifestream"@[8] == 'a');
        reveal_strlit("Lightweight");
        assert("Lightweight"@.len() == 11 && "Lightweight"@[0] == 'L' && "Lightweight"@[4] == 't');
        assert("Lightweight"@[8] == 'g');
        reveal_strlit("Lockdown");
        assert("Lockdown"@.len() == 8 && "Lockdown"@[0] == 'L' && "Lockdown"@[4] == 'd');
        reveal_strlit("Lunge");
        assert("Lunge"@.len() == 5 && "Lunge"@[0] == 'L' && "Lunge"@[4] == 'e');
        reveal_strlit("Lustrate");
        assert("Lustrate"@.len() == 8 && "Lustrate"@[0] == 'L' && "Lustrate"@[4] == 'r');
        reveal_strlit("Madness");
        assert("Madness"@.len() == 7 && "Madness"@[0] == 'M' && "Madness"@[4] == 'e');
        reveal_strlit("Magnet");
        assert("Magnet"@.len() == 6 && "Magnet"@[0] == 'M' && "Magnet"@[4] == 'e');
        reveal_strlit("Mangle");
        assert("Mangle"@.len() == 6 && "Mangle"@[0] == 'M' && "Mangle"@[4] == 'l');
        reveal_strlit("Meteor Crash");
        assert("Meteor Crash"@.len() == 12 && "Meteor Crash"@[0] == 'M' && "Meteor Crash"@[4] == 'o');
        assert("Meteor Crash"@[8] == 'r');
        reveal_strlit("Mobility Reduction");
        assert("Mobility Reduction"@.len() == 18 && "Mobility Reduction"@[0] == 'M');
        assert("Mobility Reduction"@[4] == 'l' && "Mobility Reduction"@[8] == ' ');
        reveal_strlit("Napalm");
        assert("Napalm"@.len() == 6 && "Napalm"@[0] == 'N' && "Napalm"@[4] == 'l');
        reveal_strlit("Overwhelm");
        assert("Overwhelm"@.len() == 9 && "Overwhelm"@[0] == 'O' && "Overwhelm"@[4] == 'w' && "Overwhelm"@[8] == 'm');
        reveal_strlit("Paragon");
        assert("Paragon"@.len() == 7 && "Paragon"@[0] == 'P' && "Paragon"@[4] == 'g');
        reveal_strlit("Peaceful Effigy");
        assert("Peaceful Effigy"@.len() == 15 && "Peaceful Effigy"@[0] == 'P' && "Peaceful Effigy"@[4] == 'e');
        assert("Peaceful Effigy"@[8] == ' ');
        reveal_strlit("Perfect Recall");
        assert("Perfect Recall"@.len() == 14 && "Perfect Recall"@[0] == 'P' && "Perfect Recall"@[4] == 'e');
        assert("Perfect Recall"@[8] == 'R');
        reveal_strlit("Perilous Flare");
        assert("Perilous Flare"@.len() == 14 && "Perilous Flare"@[0] == 'P' && "Perilous Flare"@[4] == 'l');
        assert("Perilous Flare"@[8] == ' ');
        reveal_strlit("Plague");
        assert("Plague"@.len() == 6 && "Plague"@[0] == 'P' && "Plague"@[4] == 'u');
        reveal_strlit("Pounce");
        assert("Pounce"@.len() == 6 && "Pounce"@[0] == 'P' && "Pounce"@[4] == 'c');
        reveal_strlit("Power Fist");
        assert("Power Fist"@.len() == 10 && "Power Fist"@[0] == 'P' && "Power Fist"@[4] == 'r');
        assert("Power Fist"@[8] == 's');
        reveal_strlit("Rally");
        assert("Rally"@.len() == 5 && "Rally"@[0] == 'R' && "Rally"@[4] == 'y');
        reveal_strlit("Reckless Abandon");
        assert("Reckless Abandon"@.len() == 16 && "Reckless Abandon"@[0] == 'R' && "Reckless Abandon"@[4] == 'l');
        assert("Reckless Abandon"@[8] == ' ');
        reveal_strlit("Roving Assassin");
        assert("Roving Assassin"@.len() == 15 && "Roving Assassin"@[0] == 'R' && "Roving Assassin"@[4] == 'n');
        assert("Roving Assassin"@[8] == 's');
        reveal_strlit("Rock Shield");
        assert("Rock Shield"@.len() == 11 && "Rock Shield"@[0] == 'R' && "Rock Shield"@[4] == ' ');
        assert("Rock Shield"@[8] == 'e');
        reveal_strlit("Rusted Ichor");
        assert("Rusted Ichor"@.len() == 12 && "Rusted Ichor"@[0] == 'R' && "Rusted Ichor"@[4] == 'e');
        assert("Rusted Ichor"@[8] == 'c');
        reveal_strlit("Seekers' Volley");
        assert("Seekers' Volley"@.len() == 15 && "Seekers' Volley"@[0] == 'S' && "Seekers' Volley"@[4] == 'e');
        assert("Seekers' Volley"@[8] == ' ');
        reveal_strlit("Saviour’s Sacrifice");
        assert("Saviour’s Sacrifice"@.len() == 19 && "Saviour’s Sacrifice"@[0] == 'S');
        assert("Saviour’s Sacrifice"@[4] == 'o' && "Saviour’s Sacrifice"@[8] == 's');
        reveal_strlit("Seeking Module");
        assert("Seeking Module"@.len() == 14 && "Seeking Module"@[0] == 'S' && "Seeking Module"@[4] == 'i');
        assert("Seeking Module"@[8] == 'M');
        reveal_strlit("Shamanic Influence");
        assert("Shamanic Influence"@.len() == 18 && "Shamanic Influence"@[0] == 'S');
        assert("Shamanic Influence"@[4] == 'a' && "Shamanic Influence"@[8] == ' ');
        reveal_strlit("Snowy Steps");
        assert("Snowy Steps"@.len() == 11 && "Snowy Steps"@[0] == 'S' && "Snowy Steps"@[4] == 'y');
        assert("Snowy Steps"@[8] == 'e');
        reveal_strlit("Sorcery");
        assert("Sorcery"@.len() == 7 && "Sorcery"@[0] == 'S' && "Sorcery"@[4] == 'e');
        reveal_strlit("Soul Eater");
        assert("Soul Eater"@.len() == 10 && "Soul Eater"@[0] == 'S' && "Soul Eater"@[4] == ' ');
        assert("Soul Eater"@[8] == 'e');
        reveal_strlit("Strings of Fate");
        assert("Strings of Fate"@.len() == 15 && "Strings of Fate"@[0] == 'S' && "Strings of Fate"@[4] == 'n');
        assert("Strings of Fate"@[8] == 'o');
        reveal_strlit("Sublimation");
        assert("Sublimation"@.len() == 11 && "Sublimation"@[0] == 'S' && "Sublimation"@[4] == 'i');
        assert("Sublimation"@[8] == 'i');
        reveal_strlit("Tactical Brilliance");
        assert("Tactical Brilliance"@.len() == 19 && "Tactical Brilliance"@[0] == 'T');
        assert("Tactical Brilliance"@[4] == 'i' && "Tactical Brilliance"@[8] == ' ');
        reveal_strlit("Tackle");
        assert("Tackle"@.len() == 6 && "Tackle"@[0] == 'T' && "Tackle"@[4] == 'l');
        reveal_strlit("Taunt");
        assert("Taunt"@.len() == 5 && "Taunt"@[0] == 'T' && "Taunt"@[4] == 't');
        reveal_strlit("Tectonic Wrath");
        assert("Tectonic Wrath"@.len() == 14 && "Tectonic Wrath"@[0] == 'T' && "Tectonic Wrath"@[4] == 'o');
        assert("Tectonic Wrath"@[8] == ' ');
        reveal_strlit("Temblor");
        assert("Temblor"@.len() == 7 && "Temblor"@[0] == 'T' && "Temblor"@[4] == 'l');
        reveal_strlit("Tempest");
        assert("Tempest"@.len() == 7 && "Tempest"@[0] == 'T' && "Tempest"@[4] == 'e');
        reveal_strlit("Totemic Fuse");
        assert("Totemic Fuse"@.len() == 12 && "Totemic Fuse"@[0] == 'T' && "Totemic Fuse"@[4] == 'm');
        assert("Totemic Fuse"@[8] == 'F');
        reveal_strlit("Transcendence");
        assert("Transcendence"@.len() == 13 && "Transcendence"@[0] == 'T' && "Transcendence"@[4] == 's');
        assert("Transcendence"@[8] == 'd');
        reveal_strlit("Twisting Threads");
        assert("Twisting Threads"@.len() == 16 && "Twisting Threads"@[0] == 'T' && "Twisting Threads"@[4] == 't');
        assert("Twisting Threads"@[8] == ' ');
        reveal_strlit("Windsurf");
        assert("Windsurf"@.len() == 8 && "Windsurf"@[0] == 'W' && "Windsurf"@[4] == 's');
    }
}

} // verus!
