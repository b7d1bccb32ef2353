use wynn_api::classes::{Archetype, Class, ClassInfo};
use wynn_api::decode::{Decode, Distinct, Fallback};
use wynn_api::encode::{encode_option, encode_quoted, Encode};
use wynn_api::fields::{deserialize_from_string, deserialize_with_default};
use wynn_api::guild::{Banner, BannerLayer, TerritoryLocation};
use wynn_api::item::{
    ArmourType, CraftedItemType, DropLocation, Identification, ItemRarity, ItemType, MajorId, OtherItemType, Profession,
    Rarity, TomeType, WeaponType,
};
use wynn_api::json::{Json, JsonNumber, ObjectWriter};
use wynn_api::leaderboard::{Leaderboard, PlayerProfileLbType, RaidMetaData};
use wynn_api::map::MarkerLocation;
use wynn_api::player::{AttributeIcon, DungeonInfo, GuildInfo, Icon, Pvp, SkillPoints, SupportRank};
use wynn_api::reader::parse;
use wynn_api::tokens::Token;
use wynn_api::World;

fn back<T: Encode + PartialEq + std::fmt::Debug>(value: T) {
    let written = value.encode();
    assert_ne!(written, Json::Null);
    assert_eq!(T::decode(&written), Ok(value));
}

fn back_with_default<T: Encode + Fallback + PartialEq + std::fmt::Debug>(value: T) {
    let written = value.encode();
    assert_eq!(deserialize_with_default::<T>(Some(&written)), Ok(value));
}

#[test]
fn scalars_are_read_back() {
    back(true);
    back(false);
    back(0u8);
    back(255u8);
    back(0u64);
    back(u64::MAX);
    back(0i64);
    back(i64::MIN);
    back(i64::MAX);
    back(String::new());
    back("Saviour’s Sacrifice \"quoted\"\n".to_string());
    back(JsonNumber::Real(0.25f64.to_bits()));
    back(JsonNumber::Signed(-3));
    back(World(0));
    back(World(255));
}

#[test]
fn lists_and_mappings_are_read_back() {
    back(Vec::<u64>::new());
    back(vec![1u64, 2, 3]);
    back(vec![vec!["a".to_string()], vec![]]);
    back(vec![("a".to_string(), 1i64), ("b".to_string(), -2)]);
    back(vec![(MajorId::Rally, "r".to_string()), (MajorId::Taunt, "t".to_string())]);
    back(vec![(Identification::ManaRegen, 3u64)]);
}

#[test]
fn sets_are_read_back() {
    let set = Distinct(vec!["a".to_string(), "b".to_string()]);
    let written = set.encode();
    assert_eq!(written, vec!["a".to_string(), "b".to_string()].encode());
    assert_eq!(Distinct::<String>::decode(&written).map(|set| set.0), Ok(set.0));
    let twice = Distinct(vec!["a".to_string(), "a".to_string()]);
    assert!(Distinct::<String>::decode(&twice.encode()).is_err());
    let twice = vec![("a".to_string(), 1u64), ("a".to_string(), 2)];
    assert!(Vec::<(String, u64)>::decode(&twice.encode()).is_err());
}

#[test]
fn tokens_are_read_back() {
    back(Class::DarkWizard);
    back(SupportRank::VipPlus);
    back(ItemRarity::SetPiece);
    back(Profession::Woodcutting);
    back(PlayerProfileLbType::UltimateIronmanContent);
    back(Identification::FourthSpellCostPercent);
    back(MajorId::SavioursSacrifice);
    back(ItemType::Tome(TomeType::LootrunTome));
    back(ItemType::Other(OtherItemType::Material));
    back(ItemType::Weapon(WeaponType::Relik));
    back(CraftedItemType::Armour(ArmourType::Leggings));
    back(Rarity::Item(ItemRarity::Fabled));
    assert_eq!(Class::Knight.encode(), Json::String("knight".to_string()));
    assert_eq!(Identification::from_token(Identification::Basehealth.as_token()), Some(Identification::Basehealth));
}

#[test]
fn records_are_read_back() {
    back(Pvp { kills: 3, deaths: 4 });
    back(GuildInfo { name: "Avicia".into(), prefix: "AVO".into(), rank: "OWNER".into(), rank_stars: "*****".into() });
    back(GuildInfo { name: "Avicia".into(), prefix: String::new(), rank: "OWNER".into(), rank_stars: String::new() });
    back(SkillPoints { strength: 1, dexterity: 2, intelligence: 3, defence: 4, agility: 5 });
    back(DungeonInfo { total: 3, list: vec![("Decrepit Sewers".to_string(), 3)] });
    back(DungeonInfo { total: 0, list: vec![] });
    back(RaidMetaData { completions: 10, gambits: JsonNumber::Real(2.5f64.to_bits()) });
    back(TerritoryLocation { start: (-1, 2), end: (3, -4) });
    back(DropLocation { name: "Zombie".into(), location: Some((1, -2, 3, 40)) });
    back(DropLocation { name: "Zombie".into(), location: None });
    back(MarkerLocation { name: "Ragni".into(), icon: "town.png".into(), x: -880, y: 67, z: -1580 });
    back(Banner {
        base: "RED".into(),
        tier: 3,
        structure: "tier3".into(),
        layers: vec![BannerLayer { colour: "WHITE".into(), pattern: "FLOWER".into() }],
    });
    back(ClassInfo {
        id: "warrior".into(),
        name: "Warrior".into(),
        lore: "l".into(),
        archetypes: vec![(
            "fallen".to_string(),
            Archetype { name: "Fallen".into(), difficulty: 1, damage: 2, defence: 3, range: 4, speed: 5 },
        )],
    });
    back(Icon::Skin("s".into()));
    back(Icon::Legacy("l".into()));
    back(Icon::Attribute(AttributeIcon { id: "i".into(), name: "n".into(), custom_model_data: "7".into() }));
    back(Leaderboard { leaderboard: vec![Pvp { kills: 1, deaths: 2 }, Pvp { kills: 3, deaths: 4 }] });
    back(Leaderboard::<Pvp> { leaderboard: vec![] });
}

#[test]
fn what_is_written_is_what_the_api_writes() {
    let written = GuildInfo { name: "Avicia".into(), prefix: "AVO".into(), rank: "OWNER".into(), rank_stars: "**".into() }
        .encode();
    let text = parse(br#"{"name":"Avicia","prefix":"AVO","rank":"OWNER","rankStars":"**"}"#).unwrap();
    assert_eq!(written, text);
    let written = MarkerLocation { name: "a".into(), icon: "b".into(), x: -1, y: 0, z: 12 }.encode();
    let expected = ObjectWriter::new()
        .with("name", Json::String("a".into()))
        .with("icon", Json::String("b".into()))
        .with("x", Json::String("-1".into()))
        .with("y", Json::String("0".into()))
        .with("z", Json::String("12".into()))
        .done();
    assert_eq!(written, expected);
    assert_eq!(encode_option::<u64>(&None), Json::Null);
    assert_eq!(encode_option(&Some(5u64)), Json::Number(JsonNumber::Unsigned(5)));
    assert_eq!(encode_quoted(&-5i64), Json::String("-5".into()));
    assert_eq!(deserialize_from_string::<i64>(&encode_quoted(&-5i64), "x"), Ok(-5));
    assert_eq!(7i64.encode(), Json::Number(JsonNumber::Unsigned(7)));
    assert_eq!((-7i64).encode(), Json::Number(JsonNumber::Signed(-7)));
}

#[test]
fn values_are_read_back_through_the_default_filling_decoder() {
    back_with_default(0u64);
    back_with_default(17u64);
    back_with_default(String::new());
    back_with_default("AVO".to_string());
    back_with_default(false);
    back_with_default(true);
    back_with_default(Vec::<String>::new());
    back_with_default(vec!["a".to_string()]);
    back_with_default(vec![("a".to_string(), 1u64)]);
    back_with_default(DungeonInfo { total: 1, list: vec![] });
}

#[test]
fn an_object_is_written_member_by_member() {
    let inner = ObjectWriter::new().with("b", Json::Null).with("c", Json::Bool(true)).done();
    let outer = ObjectWriter::new().with("a", Json::Bool(false)).with_all(inner).done();
    assert_eq!(
        outer,
        Json::Object(vec![
            ("a".to_string(), Json::Bool(false)),
            ("b".to_string(), Json::Null),
            ("c".to_string(), Json::Bool(true)),
        ])
    );
    assert_eq!(ObjectWriter::new().with("a", Json::Null).with_all(Json::Bool(true)).done().get("a"), Some(&Json::Null));
    assert_eq!(ObjectWriter::new().with_all(Json::Array(vec![Json::Null])).done(), Json::Object(vec![]));
    assert!(outer.is_object() && !outer.is_null());
    assert_eq!(outer.get("c"), Some(&Json::Bool(true)));
    assert_eq!(outer.get("d"), None);
    assert_eq!(Json::Null.get("a"), None);
    assert_eq!(outer.clone(), outer);
}
