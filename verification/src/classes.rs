//! Classes: the ten that a character can have, and what the API tells of them.

use crate::decode::{Decode, DecodeError, DecodeFault, Otherwise};
use crate::encode::{Encode, lemma_required_is_valid, lemma_required_one_reading, lemma_required_read_back};
use crate::fields::{required, required_failure, required_reads};
use crate::item::WeaponType;
use crate::json::{Json, JsonValue, lemma_member_at, ObjectWriter};
use crate::text::same_text;
use crate::tokens::Token;
use vstd::prelude::*;
use vstd::string::StringExecFns;

verus! {

/// A class that a character can have: one of the five main classes, or the variant of one that donors can pick.
#[derive(Clone, Copy, Debug, PartialEq, Eq, Structural)]
pub enum Class {
    Archer,
    Hunter,
    Warrior,
    Knight,
    Mage,
    DarkWizard,
    Assassin,
    Ninja,
    Shaman,
    Skyseer,
}

impl Token for Class {
    open spec fn of_token(s: Seq<char>) -> Option<Self> {
        if s == "archer"@ || s == "ARCHER"@ {
            Some(Class::Archer)
        } else if s == "hunter"@ || s == "HUNTER"@ {
            Some(Class::Hunter)
        } else if s == "warrior"@ || s == "WARRIOR"@ {
            Some(Class::Warrior)
        } else if s == "knight"@ || s == "KNIGHT"@ {
            Some(Class::Knight)
        } else if s == "mage"@ || s == "MAGE"@ {
            Some(Class::Mage)
        } else if s == "darkwizard"@ || s == "DARKWIZARD"@ {
            Some(Class::DarkWizard)
        } else if s == "assassin"@ || s == "ASSASSIN"@ {
            Some(Class::Assassin)
        } else if s == "ninja"@ || s == "NINJA"@ {
            Some(Class::Ninja)
        } else if s == "shaman"@ || s == "SHAMAN"@ {
            Some(Class::Shaman)
        } else if s == "skyseer"@ || s == "SKYSEER"@ {
            Some(Class::Skyseer)
        } else {
            None
        }
    }

    open spec fn token(self) -> Seq<char> {
        match self {
            Class::Archer => "archer"@,
            Class::Hunter => "hunter"@,
            Class::Warrior => "warrior"@,
            Class::Knight => "knight"@,
            Class::Mage => "mage"@,
            Class::DarkWizard => "darkwizard"@,
            Class::Assassin => "assassin"@,
            Class::Ninja => "ninja"@,
            Class::Shaman => "shaman"@,
            Class::Skyseer => "skyseer"@,
        }
    }

    fn from_token(s: &str) -> (r: Option<Self>) {
        if same_text(s, "archer") || same_text(s, "ARCHER") {
            Some(Class::Archer)
        } else if same_text(s, "hunter") || same_text(s, "HUNTER") {
            Some(Class::Hunter)
        } else if same_text(s, "warrior") || same_text(s, "WARRIOR") {
            Some(Class::Warrior)
        } else if same_text(s, "knight") || same_text(s, "KNIGHT") {
            Some(Class::Knight)
        } else if same_text(s, "mage") || same_text(s, "MAGE") {
            Some(Class::Mage)
        } else if same_text(s, "darkwizard") || same_text(s, "DARKWIZARD") {
            Some(Class::DarkWizard)
        } else if same_text(s, "assassin") || same_text(s, "ASSASSIN") {
            Some(Class::Assassin)
        } else if same_text(s, "ninja") || same_text(s, "NINJA") {
            Some(Class::Ninja)
        } else if same_text(s, "shaman") || same_text(s, "SHAMAN") {
            Some(Class::Shaman)
        } else if same_text(s, "skyseer") || same_text(s, "SKYSEER") {
            Some(Class::Skyseer)
        } else {
            None
        }
    }

    fn as_token(self) -> (r: &'static str) {
        match self {
            Class::Archer => "archer",
            Class::Hunter => "hunter",
            Class::Warrior => "warrior",
            Class::Knight => "knight",
            Class::Mage => "mage",
            Class::DarkWizard => "darkwizard",
            Class::Assassin => "assassin",
            Class::Ninja => "ninja",
            Class::Shaman => "shaman",
            Class::Skyseer => "skyseer",
        }
    }

    fn same_token(&self, other: &Self) -> (r: bool) {
        *self == *other
    }

    proof fn lemma_token_is_read(self) {
        reveal_strlit("archer");
        assert("archer"@.len() == 6 && "archer"@[0] == 'a');
        reveal_strlit("ARCHER");
        assert("ARCHER"@.len() == 6 && "ARCHER"@[0] == 'A');
        reveal_strlit("hunter");
        assert("hunter"@.len() == 6 && "hunter"@[0] == 'h');
        reveal_strlit("HUNTER");
        assert("HUNTER"@.len() == 6 && "HUNTER"@[0] == 'H');
        reveal_strlit("warrior");
        assert("warrior"@.len() == 7 && "warrior"@[0] == 'w');
        reveal_strlit("WARRIOR");
        assert("WARRIOR"@.len() == 7 && "WARRIOR"@[0] == 'W');
        reveal_strlit("knight");
        assert("knight"@.len() == 6 && "knight"@[0] == 'k');
        reveal_strlit("KNIGHT");
        assert("KNIGHT"@.len() == 6 && "KNIGHT"@[0] == 'K');
        reveal_strlit("mage");
        assert("mage"@.len() == 4 && "mage"@[0] == 'm');
        reveal_strlit("MAGE");
        assert("MAGE"@.len() == 4 && "MAGE"@[0] == 'M');
        reveal_strlit("darkwizard");
        assert("darkwizard"@.len() == 10 && "darkwizard"@[0] == 'd');
        reveal_strlit("DARKWIZARD");
        assert("DARKWIZARD"@.len() == 10 && "DARKWIZARD"@[0] == 'D');
        reveal_strlit("assassin");
        assert("assassin"@.len() == 8 && "assassin"@[0] == 'a');
        reveal_strlit("ASSASSIN");
        assert("ASSASSIN"@.len() == 8 && "ASSASSIN"@[0] == 'A');
        reveal_strlit("ninja");
        assert("ninja"@.len() == 5 && "ninja"@[0] == 'n');
        reveal_strlit("NINJA");
        assert("NINJA"@.len() == 5 && "NINJA"@[0] == 'N');
        reveal_strlit("shaman");
        assert("shaman"@.len() == 6 && "shaman"@[0] == 's');
        reveal_strlit("SHAMAN");
        assert("SHAMAN"@.len() == 6 && "SHAMAN"@[0] == 'S');
        reveal_strlit("skyseer");
        assert("skyseer"@.len() == 7 && "skyseer"@[0] == 's');
        reveal_strlit("SKYSEER");
        assert("SKYSEER"@.len() == 7 && "SKYSEER"@[0] == 'S');
    }
}

impl Class {
    /// Whether this is one of the five main classes.
    pub open spec fn is_main(self) -> bool {
        self == Class::Archer || self == Class::Warrior || self == Class::Mage || self == Class::Assassin || self
            == Class::Shaman
    }

    /// The main class that this class is, or is a variant of.
    pub open spec fn main_of(self) -> Class {
        match self {
            Class::Archer | Class::Hunter => Class::Archer,
            Class::Warrior | Class::Knight => Class::Warrior,
            Class::Mage | Class::DarkWizard => Class::Mage,
            Class::Assassin | Class::Ninja => Class::Assassin,
            Class::Shaman | Class::Skyseer => Class::Shaman,
        }
    }

    /// The donor variant of this class's main class.
    pub open spec fn donor_of(self) -> Class {
        match self {
            Class::Archer | Class::Hunter => Class::Hunter,
            Class::Warrior | Class::Knight => Class::Knight,
            Class::Mage | Class::DarkWizard => Class::DarkWizard,
            Class::Assassin | Class::Ninja => Class::Ninja,
            Class::Shaman | Class::Skyseer => Class::Skyseer,
        }
    }

    /// The kind of weapon that this class wields.
    pub open spec fn weapon_of(self) -> WeaponType {
        match self.main_of() {
            Class::Archer => WeaponType::Bow,
            Class::Warrior => WeaponType::Spear,
            Class::Assassin => WeaponType::Dagger,
            _ => WeaponType::Wand,
        }
    }

    /// The main class that this class is, or is a variant of.
    pub fn main_class(self) -> (r: Class)
        ensures
            r == self.main_of(),
            r.is_main(),
            self.is_main() ==> r == self,
    {
        match self {
            Class::Hunter => Class::Archer,
            Class::Knight => Class::Warrior,
            Class::DarkWizard => Class::Mage,
            Class::Ninja => Class::Assassin,
            Class::Skyseer => Class::Shaman,
            rest => rest,
        }
    }

    /// The donor variant of this class's main class.
    pub fn donor_class(self) -> (r: Class)
        ensures
            r == self.donor_of(),
            !r.is_main(),
            !self.is_main() ==> r == self,
    {
        match self {
            Class::Archer => Class::Hunter,
            Class::Warrior => Class::Knight,
            Class::Mage => Class::DarkWizard,
            Class::Assassin => Class::Ninja,
            Class::Shaman => Class::Skyseer,
            rest => rest,
        }
    }

    /// The kind of weapon that this class wields.
    pub fn weapon_type(self) -> (r: WeaponType)
        ensures
            r == self.weapon_of(),
    {
        match self {
            Class::Archer | Class::Hunter => WeaponType::Bow,
            Class::Warrior | Class::Knight => WeaponType::Spear,
            Class::Mage | Class::DarkWizard => WeaponType::Wand,
            Class::Assassin | Class::Ninja => WeaponType::Dagger,
            Class::Shaman | Class::Skyseer => WeaponType::Wand,
        }
    }

    /// The class as the API writes it.
    pub fn to_string(&self) -> (r: String)
        ensures
            r@ == self.token(),
    {
        String::from_str(self.as_token())
    }
}

/// A class and its donor variant name the same main class and the same donor
/// variant, each is left as it is by its own conversion, and the two wield
/// the same weapon.
pub proof fn lemma_class_variants(c: Class)
    ensures
        c.main_of().main_of() == c.main_of(),
        c.donor_of().donor_of() == c.donor_of(),
        c.donor_of().main_of() == c.main_of(),
        c.main_of().donor_of() == c.donor_of(),
        c.main_of().weapon_of() == c.weapon_of(),
        c.donor_of().weapon_of() == c.weapon_of(),
{
}

/// The five main classes, each with how hard it is to play.
#[derive(Clone, Debug, PartialEq)]
pub struct ClassList {
    pub archer: ClassDifficulty,
    pub warrior: ClassDifficulty,
    pub assassin: ClassDifficulty,
    pub mage: ClassDifficulty,
    pub shaman: ClassDifficulty,
}

impl Decode for ClassList {
    open spec fn failure(j: JsonValue) -> Option<DecodeFault> {
        required_failure::<ClassDifficulty>(j, "archer"@)
            .otherwise(required_failure::<ClassDifficulty>(j, "warrior"@))
            .otherwise(required_failure::<ClassDifficulty>(j, "assassin"@))
            .otherwise(required_failure::<ClassDifficulty>(j, "mage"@))
            .otherwise(required_failure::<ClassDifficulty>(j, "shaman"@))
    }

    open spec fn reads(&self, j: JsonValue) -> bool {
        &&& required_reads(self.archer, j, "archer"@)
        &&& required_reads(self.warrior, j, "warrior"@)
        &&& required_reads(self.assassin, j, "assassin"@)
        &&& required_reads(self.mage, j, "mage"@)
        &&& required_reads(self.shaman, j, "shaman"@)
    }

    fn decode(j: &Json) -> (r: Result<Self, DecodeError>) {
        let archer = required::<ClassDifficulty>(j, "archer")?;
        let warrior = required::<ClassDifficulty>(j, "warrior")?;
        let assassin = required::<ClassDifficulty>(j, "assassin")?;
        let mage = required::<ClassDifficulty>(j, "mage")?;
        let shaman = required::<ClassDifficulty>(j, "shaman")?;
        Ok(ClassList { archer, warrior, assassin, mage, shaman })
    }
}

impl Encode for ClassList {
    open spec fn valid(&self) -> bool {
        &&& self.archer.valid()
        &&& self.warrior.valid()
        &&& self.assassin.valid()
        &&& self.mage.valid()
        &&& self.shaman.valid()
    }

    open spec fn encoded(&self) -> JsonValue {
        JsonValue::Object(
            seq![
                ("archer"@, self.archer.encoded()),
                ("warrior"@, self.warrior.encoded()),
                ("assassin"@, self.assassin.encoded()),
                ("mage"@, self.mage.encoded()),
                ("shaman"@, self.shaman.encoded()),
            ],
        )
    }

    fn encode(&self) -> (j: Json) {
        let j = ObjectWriter::new()
            .with("archer", self.archer.encode())
            .with("warrior", self.warrior.encode())
            .with("assassin", self.assassin.encode())
            .with("mage", self.mage.encode())
            .with("shaman", self.shaman.encode())
            .done();
        assert(j@->Object_0 =~= self.encoded()->Object_0);
        j
    }

    proof fn lemma_read_back(&self) {
        let j = self.encoded();
        let members = j->Object_0;
        reveal_strlit("archer");
        assert("archer"@.len() == 6 && "archer"@[0] == 'a');
        reveal_strlit("warrior");
        assert("warrior"@.len() == 7 && "warrior"@[0] == 'w');
        reveal_strlit("assassin");
        assert("assassin"@.len() == 8 && "assassin"@[0] == 'a');
        reveal_strlit("mage");
        assert("mage"@.len() == 4 && "mage"@[0] == 'm');
        reveal_strlit("shaman");
        assert("shaman"@.len() == 6 && "shaman"@[0] == 's');
        lemma_member_at(members, "archer"@, 0);
        lemma_required_read_back(&self.archer, j, "archer"@);
        lemma_member_at(members, "warrior"@, 1);
        lemma_required_read_back(&self.warrior, j, "warrior"@);
        lemma_member_at(members, "assassin"@, 2);
        lemma_required_read_back(&self.assassin, j, "assassin"@);
        lemma_member_at(members, "mage"@, 3);
        lemma_required_read_back(&self.mage, j, "mage"@);
        lemma_member_at(members, "shaman"@, 4);
        lemma_required_read_back(&self.shaman, j, "shaman"@);
    }

    proof fn lemma_one_reading(&self, other: &Self, j: JsonValue) {
        lemma_required_one_reading(&self.archer, &other.archer, j, "archer"@);
        lemma_required_one_reading(&self.warrior, &other.warrior, j, "warrior"@);
        lemma_required_one_reading(&self.assassin, &other.assassin, j, "assassin"@);
        lemma_required_one_reading(&self.mage, &other.mage, j, "mage"@);
        lemma_required_one_reading(&self.shaman, &other.shaman, j, "shaman"@);
    }

    proof fn lemma_read_is_valid(&self, j: JsonValue) {
        lemma_required_is_valid(&self.archer, j, "archer"@);
        lemma_required_is_valid(&self.warrior, j, "warrior"@);
        lemma_required_is_valid(&self.assassin, j, "assassin"@);
        lemma_required_is_valid(&self.mage, j, "mage"@);
        lemma_required_is_valid(&self.shaman, j, "shaman"@);
    }
}

/// How hard a class is to play.
#[derive(Clone, Debug, PartialEq)]
pub struct ClassDifficulty {
    pub name: String,
    pub overall_difficulty: u64,
}

impl Decode for ClassDifficulty {
    open spec fn failure(j: JsonValue) -> Option<DecodeFault> {
        required_failure::<String>(j, "name"@)
            .otherwise(required_failure::<u64>(j, "overallDifficulty"@))
    }

    open spec fn reads(&self, j: JsonValue) -> bool {
        &&& required_reads(self.name, j, "name"@)
        &&& required_reads(self.overall_difficulty, j, "overallDifficulty"@)
    }

    fn decode(j: &Json) -> (r: Result<Self, DecodeError>) {
        let name = required::<String>(j, "name")?;
        let overall_difficulty = required::<u64>(j, "overallDifficulty")?;
        Ok(ClassDifficulty { name, overall_difficulty })
    }
}

impl Encode for ClassDifficulty {
    open spec fn valid(&self) -> bool {
        &&& self.name.valid()
        &&& self.overall_difficulty.valid()
    }

    open spec fn encoded(&self) -> JsonValue {
        JsonValue::Object(
            seq![
                ("name"@, self.name.encoded()),
                ("overallDifficulty"@, self.overall_difficulty.encoded()),
            ],
        )
    }

    fn encode(&self) -> (j: Json) {
        let j = ObjectWriter::new()
            .with("name", self.name.encode())
            .with("overallDifficulty", self.overall_difficulty.encode())
            .done();
        assert(j@->Object_0 =~= self.encoded()->Object_0);
        j
    }

    proof fn lemma_read_back(&self) {
        let j = self.encoded();
        let members = j->Object_0;
        reveal_strlit("name");
        assert("name"@.len() == 4);
        reveal_strlit("overallDifficulty");
        assert("overallDifficulty"@.len() == 17);
        lemma_member_at(members, "name"@, 0);
        lemma_required_read_back(&self.name, j, "name"@);
        lemma_member_at(members, "overallDifficulty"@, 1);
        lemma_required_read_back(&self.overall_difficulty, j, "overallDifficulty"@);
    }

    proof fn lemma_one_reading(&self, other: &Self, j: JsonValue) {
        lemma_required_one_reading(&self.name, &other.name, j, "name"@);
        lemma_required_one_reading(&self.overall_difficulty, &other.overall_difficulty, j, "overallDifficulty"@);
    }

    proof fn lemma_read_is_valid(&self, j: JsonValue) {
        lemma_required_is_valid(&self.name, j, "name"@);
        lemma_required_is_valid(&self.overall_difficulty, j, "overallDifficulty"@);
    }
}

/// What the API tells of one class.
#[derive(Clone, Debug, PartialEq)]
pub struct ClassInfo {
    pub id: String,
    pub name: String,
    pub lore: String,
    pub archetypes: Vec<(String, Archetype)>,
}

impl Decode for ClassInfo {
    open spec fn failure(j: JsonValue) -> Option<DecodeFault> {
        required_failure::<String>(j, "id"@)
            .otherwise(required_failure::<String>(j, "name"@))
            .otherwise(required_failure::<String>(j, "lore"@))
            .otherwise(required_failure::<Vec<(String, Archetype)>>(j, "archetypes"@))
    }

    open spec fn reads(&self, j: JsonValue) -> bool {
        &&& required_reads(self.id, j, "id"@)
        &&& required_reads(self.name, j, "name"@)
        &&& required_reads(self.lore, j, "lore"@)
        &&& required_reads(self.archetypes, j, "archetypes"@)
    }

    fn decode(j: &Json) -> (r: Result<Self, DecodeError>) {
        let id = required::<String>(j, "id")?;
        let name = required::<String>(j, "name")?;
        let lore = required::<String>(j, "lore")?;
        let archetypes = required::<Vec<(String, Archetype)>>(j, "archetypes")?;
        Ok(ClassInfo { id, name, lore, archetypes })
    }
}

impl Encode for ClassInfo {
    open spec fn valid(&self) -> bool {
        &&& self.id.valid()
        &&& self.name.valid()
        &&& self.lore.valid()
        &&& self.archetypes.valid()
    }

    open spec fn encoded(&self) -> JsonValue {
        JsonValue::Object(
            seq![
                ("id"@, self.id.encoded()),
                ("name"@, self.name.encoded()),
                ("lore"@, self.lore.encoded()),
                ("archetypes"@, self.archetypes.encoded()),
            ],
        )
    }

    fn encode(&self) -> (j: Json) {
        let j = ObjectWriter::new()
            .with("id", self.id.encode())
            .with("name", self.name.encode())
            .with("lore", self.lore.encode())
            .with("archetypes", self.archetypes.encode())
            .done();
        assert(j@->Object_0 =~= self.encoded()->Object_0);
        j
    }

    proof fn lemma_read_back(&self) {
        let j = self.encoded();
        let members = j->Object_0;
        reveal_strlit("id");
        assert("id"@.len() == 2 && "id"@[0] == 'i');
        reveal_strlit("name");
        assert("name"@.len() == 4 && "name"@[0] == 'n');
        reveal_strlit("lore");
        assert("lore"@.len() == 4 && "lore"@[0] == 'l');
        reveal_strlit("archetypes");
        assert("archetypes"@.len() == 10 && "archetypes"@[0] == 'a');
        lemma_member_at(members, "id"@, 0);
        lemma_required_read_back(&self.id, j, "id"@);
        lemma_member_at(members, "name"@, 1);
        lemma_required_read_back(&self.name, j, "name"@);
        lemma_member_at(members, "lore"@, 2);
        lemma_required_read_back(&self.lore, j, "lore"@);
        lemma_member_at(members, "archetypes"@, 3);
        lemma_required_read_back(&self.archetypes, j, "archetypes"@);
    }

    proof fn lemma_one_reading(&self, other: &Self, j: JsonValue) {
        lemma_required_one_reading(&self.id, &other.id, j, "id"@);
        lemma_required_one_reading(&self.name, &other.name, j, "name"@);
        lemma_required_one_reading(&self.lore, &other.lore, j, "lore"@);
        lemma_required_one_reading(&self.archetypes, &other.archetypes, j, "archetypes"@);
    }

    proof fn lemma_read_is_valid(&self, j: JsonValue) {
        lemma_required_is_valid(&self.id, j, "id"@);
        lemma_required_is_valid(&self.name, j, "name"@);
        lemma_required_is_valid(&self.lore, j, "lore"@);
        lemma_required_is_valid(&self.archetypes, j, "archetypes"@);
    }
}

/// One archetype of a class, with its ratings.
#[derive(Clone, Debug, PartialEq)]
pub struct Archetype {
    pub name: String,
    pub difficulty: u64,
    pub damage: u64,
    pub defence: u64,
    pub range: u64,
    pub speed: u64,
}

impl Decode for Archetype {
    open spec fn failure(j: JsonValue) -> Option<DecodeFault> {
        required_failure::<String>(j, "name"@)
            .otherwise(required_failure::<u64>(j, "difficulty"@))
            .otherwise(required_failure::<u64>(j, "damage"@))
            .otherwise(required_failure::<u64>(j, "defence"@))
            .otherwise(required_failure::<u64>(j, "range"@))
            .otherwise(required_failure::<u64>(j, "speed"@))
    }

    open spec fn reads(&self, j: JsonValue) -> bool {
        &&& required_reads(self.name, j, "name"@)
        &&& required_reads(self.difficulty, j, "difficulty"@)
        &&& required_reads(self.damage, j, "damage"@)
        &&& required_reads(self.defence, j, "defence"@)
        &&& required_reads(self.range, j, "range"@)
        &&& required_reads(self.speed, j, "speed"@)
    }

    fn decode(j: &Json) -> (r: Result<Self, DecodeError>) {
        let name = required::<String>(j, "name")?;
        let difficulty = required::<u64>(j, "difficulty")?;
        let damage = required::<u64>(j, "damage")?;
        let defence = required::<u64>(j, "defence")?;
        let range = required::<u64>(j, "range")?;
        let speed = required::<u64>(j, "speed")?;
        Ok(Archetype { name, difficulty, damage, defence, range, speed })
    }
}

impl Encode for Archetype {
    open spec fn valid(&self) -> bool {
        &&& self.name.valid()
        &&& self.difficulty.valid()
        &&& self.damage.valid()
        &&& self.defence.valid()
        &&& self.range.valid()
        &&& self.speed.valid()
    }

    open spec fn encoded(&self) -> JsonValue {
        JsonValue::Object(
            seq![
                ("name"@, self.name.encoded()),
                ("difficulty"@, self.difficulty.encoded()),
                ("damage"@, self.damage.encoded()),
                ("defence"@, self.defence.encoded()),
                ("range"@, self.range.encoded()),
                ("speed"@, self.speed.encoded()),
            ],
        )
    }

    fn encode(&self) -> (j: Json) {
        let j = ObjectWriter::new()
            .with("name", self.name.encode())
            .with("difficulty", self.difficulty.encode())
            .with("damage", self.damage.encode())
            .with("defence", self.defence.encode())
            .with("range", self.range.encode())
            .with("speed", self.speed.encode())
            .done();
        assert(j@->Object_0 =~= self.encoded()->Object_0);
        j
    }

    proof fn lemma_read_back(&self) {
        let j = self.encoded();
        let members = j->Object_0;
        reveal_strlit("name");
        assert("name"@.len() == 4 && "name"@[0] == 'n');
        reveal_strlit("difficulty");
        assert("difficulty"@.len() == 10 && "difficulty"@[0] == 'd');
        reveal_strlit("damage");
        assert("damage"@.len() == 6 && "damage"@[0] == 'd');
        reveal_strlit("defence");
        assert("defence"@.len() == 7 && "defence"@[0] == 'd');
        reveal_strlit("range");
        assert("range"@.len() == 5 && "range"@[0] == 'r');
        reveal_strlit("speed");
        assert("speed"@.len() == 5 && "speed"@[0] == 's');
        lemma_member_at(members, "name"@, 0);
        lemma_required_read_back(&self.name, j, "name"@);
        lemma_member_at(members, "difficulty"@, 1);
        lemma_required_read_back(&self.difficulty, j, "difficulty"@);
        lemma_member_at(members, "damage"@, 2);
        lemma_required_read_back(&self.damage, j, "damage"@);
        lemma_member_at(members, "defence"@, 3);
        lemma_required_read_back(&self.defence, j, "defence"@);
        lemma_member_at(members, "range"@, 4);
        lemma_required_read_back(&self.range, j, "range"@);
        lemma_member_at(members, "speed"@, 5);
        lemma_required_read_back(&self.speed, j, "speed"@);
    }

    proof fn lemma_one_reading(&self, other: &Self, j: JsonValue) {
        lemma_required_one_reading(&self.name, &other.name, j, "name"@);
        lemma_required_one_reading(&self.difficulty, &other.difficulty, j, "difficulty"@);
        lemma_required_one_reading(&self.damage, &other.damage, j, "damage"@);
        lemma_required_one_reading(&self.defence, &other.defence, j, "defence"@);
        lemma_required_one_reading(&self.range, &other.range, j, "range"@);
        lemma_required_one_reading(&self.speed, &other.speed, j, "speed"@);
    }

    proof fn lemma_read_is_valid(&self, j: JsonValue) {
        lemma_required_is_valid(&self.name, j, "name"@);
        lemma_required_is_valid(&self.difficulty, j, "difficulty"@);
        lemma_required_is_valid(&self.damage, j, "damage"@);
        lemma_required_is_valid(&self.defence, j, "defence"@);
        lemma_required_is_valid(&self.range, j, "range"@);
        lemma_required_is_valid(&self.speed, j, "speed"@);
    }
}

} // verus!
