use wynn_api::ability::{AbilityMap, AbilityTree, Aspect};
use wynn_api::classes::{Class, ClassInfo};
use wynn_api::decode::{Decode, DecodeError, Distinct, ErrorKind};
use wynn_api::guild::{Territory, TerritoryLocation};
use wynn_api::item::{CraftedItemType, 
    AttackSpeed, DropType, Identification, IdentificationStats, IngredientTier, Item, ItemRarity, ItemTypeInfo, MajorId,
    Profession, Restrictions, WeaponType,
};
use wynn_api::json::JsonNumber;
use wynn_api::leaderboard::{LbGuild, LbPlayerGlobal, Leaderboard};
use wynn_api::map::MarkerLocation;
use wynn_api::news::NewsArticle;
use wynn_api::player::{Ability, AbilityMeta, GuildInfo, Icon, OnlinePlayerList, Professions, SkillPoints, SupportRank};
use wynn_api::reader::parse;
use wynn_api::search::SearchResult;
use wynn_api::World;

fn read<T: Decode>(text: &str) -> Result<T, DecodeError> {
    T::decode(&parse(text.as_bytes()).unwrap())
}

fn error(kind: ErrorKind, subject: &str) -> DecodeError {
    error_at(kind, subject, &[])
}

fn error_at(kind: ErrorKind, subject: &str, path: &[usize]) -> DecodeError {
    DecodeError { kind, subject: subject.to_string(), path: path.to_vec() }
}

const WEAPON: &str = r#"{
    "internalName": "Idol",
    "type": "weapon",
    "weaponType": "spear",
    "attackSpeed": "very_slow",
    "averageDps": 502,
    "dropRestriction": "normal",
    "requirements": {"level": 95, "classRequirement": "warrior", "intelligence": 120},
    "majorIds": {"Rally": "Charge heals you and your allies"},
    "powderSlots": 2,
    "lore": "To see the world in a grain of sand",
    "dropMeta": {"coordinates": [-1751, 81, -5519], "name": "Corkus", "type": "merchant"},
    "icon": {"format": "attribute", "value": {"id": "minecraft:iron_shovel", "name": "spear.water3", "customModelData": "474"}},
    "identifications": {"rawIntelligence": 26, "manaRegen": {"min": 2, "raw": 6, "max": 8}},
    "base": {"baseWaterDamage": {"min": 230, "raw": 230, "max": 370}},
    "restrictions": "untradable",
    "rarity": "mythic",
    "somethingNew": [1, 2, 3]
}"#;

#[test]
fn a_weapon_is_read() {
    let item: Item = read(WEAPON).unwrap();
    assert_eq!(item.internal_name, "Idol");
    assert_eq!(item.required_level(), 95);
    assert_eq!(item.lore.as_deref(), Some("To see the world in a grain of sand"));
    assert_eq!(item.indentified, None);
    match &item.icon {
        Some(Icon::Attribute(icon)) => {
            assert_eq!(icon.id, "minecraft:iron_shovel");
            assert_eq!(icon.custom_model_data, "474");
        }
        other => panic!("{:?}", other),
    }
    let info = match &item.item_type {
        ItemTypeInfo::Weapon(info) => info,
        other => panic!("{:?}", other),
    };
    assert_eq!(info.weapon_type, WeaponType::Spear);
    assert_eq!(info.attack_speed, AttackSpeed::VerySlow);
    assert_eq!(info.rarity, ItemRarity::Mythic);
    assert_eq!(info.average_dps, Some(502));
    assert_eq!(info.powder_slots, 2);
    assert!(!info.allow_craftsman);
    assert_eq!(info.requirements.class_requirement, Some(Class::Warrior));
    assert_eq!(info.requirements.intelligence, Some(120));
    assert_eq!(info.requirements.strength, None);
    assert_eq!(info.restrictions, Some(Restrictions::Untradable));
    assert_eq!(info.major_ids, vec![(MajorId::Rally, "Charge heals you and your allies".to_string())]);
    assert_eq!(
        info.identifications,
        vec![
            (Identification::Intelligence, IdentificationStats::Static(26)),
            (
                Identification::ManaRegen,
                IdentificationStats::Dynamic(wynn_api::item::DynamicIdentificationStats { min: 2, raw: 6, max: 8 })
            ),
        ]
    );
    let meta = info.drop_meta.as_ref().unwrap();
    assert_eq!(meta.coordinates, vec![-1751, 81, -5519]);
    assert_eq!(meta.drop_type, DropType::Merchant);
    assert_eq!(meta.event, None);
}

#[test]
fn the_discriminator_picks_the_kind() {
    let tool: Item = read(
        r#"{"internalName":"Gathering Axe T1","type":"tool","toolType":"axe","gatheringSpeed":25,"identified":true,
            "requirements":{"level":1},"rarity":"common","icon":{"format":"legacy","value":"270:0"}}"#,
    )
    .unwrap();
    assert!(matches!(tool.item_type, ItemTypeInfo::Tool(_)));
    assert_eq!(tool.icon, Some(Icon::Legacy("270:0".to_string())));
    let material: Item = read(
        r#"{"internalName":"Refined Oak Wood","type":"material","identified":true,"tier":"2",
            "requirements":{"level":1},"craftable":["bows","helmets","potions"],"icon":{"format":"skin","value":"abc"}}"#,
    )
    .unwrap();
    match &material.item_type {
        ItemTypeInfo::Material(info) => {
            assert_eq!(info.tier, IngredientTier::Ingredient2Star);
            assert_eq!(info.craftable.len(), 3);
        }
        other => panic!("{:?}", other),
    }
    assert_eq!(material.required_level(), 1);
}

#[test]
fn an_unknown_discriminator_is_named() {
    let text = r#"{"internalName":"x","type":"vehicle","requirements":{"level":1}}"#;
    assert_eq!(read::<Item>(text), Err(error(ErrorKind::UnknownTag, "vehicle")));
    let text = r#"{"internalName":"x","requirements":{"level":1}}"#;
    assert_eq!(read::<Item>(text), Err(error(ErrorKind::MissingField, "type")));
    let text = r#"{"internalName":"x","type":7}"#;
    assert_eq!(read::<Item>(text), Err(error_at(ErrorKind::WrongType, "", &[1])));
    assert_eq!(read::<Icon>(r#"{"format":"sprite","value":"x"}"#), Err(error(ErrorKind::UnknownTag, "sprite")));
    assert_eq!(read::<Icon>(r#"{"format":"skin"}"#), Err(error(ErrorKind::MissingField, "value")));
    assert_eq!(
        read::<AbilityMeta>(r#"{"type":"shortcut","meta":{}}"#),
        Err(error(ErrorKind::UnknownTag, "shortcut"))
    );
    assert_eq!(read::<AbilityMeta>(r#"{"type":"ability"}"#), Err(error(ErrorKind::MissingField, "meta")));
}

#[test]
fn a_tag_with_its_content_beside_it_is_read() {
    let ability: Ability = read(
        r#"{"type":"ability","coordinates":{"x":4,"y":1},"family":["bash"],
            "meta":{"icon":{"format":"legacy","value":"abilityTree.nodeWarrior"},"page":1,"id":"bash"}}"#,
    )
    .unwrap();
    assert_eq!(ability.coordinates.x, 4);
    assert_eq!(ability.family, vec!["bash".to_string()]);
    assert_eq!(
        ability.meta,
        AbilityMeta::Ability { icon: Icon::Legacy("abilityTree.nodeWarrior".to_string()), page: 1, id: "bash".to_string() }
    );
    let connector: Ability = read(
        r#"{"type":"connector","coordinates":{"x":4,"y":2},"family":[],"meta":{"icon":"connector_up_down","page":1}}"#,
    )
    .unwrap();
    assert_eq!(connector.meta, AbilityMeta::Connector { icon: "connector_up_down".to_string(), page: 1 });
}

#[test]
fn an_unknown_token_is_named() {
    assert_eq!(read::<Class>(r#""bard""#), Err(error(ErrorKind::UnknownToken, "bard")));
    assert_eq!(read::<Class>("3"), Err(error(ErrorKind::WrongType, "")));
    assert_eq!(read::<Class>(r#""SHAMAN""#), Ok(Class::Shaman));
    assert_eq!(read::<Class>(r#""darkwizard""#), Ok(Class::DarkWizard));
    assert_eq!(read::<MajorId>(r#""Saviour’s Sacrifice""#), Ok(MajorId::SavioursSacrifice));
    assert_eq!(read::<Identification>(r#""elementalDamageBonusRaw""#), Ok(Identification::ElementalDamageBonusRaw));
    assert_eq!(read::<Identification>(r#""ElementalDamageBonusRaw""#), Ok(Identification::ElementalDamageBonusRaw));
    assert_eq!(read::<Identification>(r#""1stSpellCost""#), Ok(Identification::FirstSpellCostPercent));
    assert_eq!(read::<SupportRank>(r#""vipplus""#), Ok(SupportRank::VipPlus));
    assert_eq!(
        read::<Vec<(Identification, i64)>>(r#"{"rawStrength":1,"strength":2}"#),
        Err(error_at(ErrorKind::UnknownToken, "strength", &[1]))
    );
}

#[test]
fn fields_that_fall_back_on_a_default() {
    let guild: GuildInfo = read(r#"{"name":"Avicia","rank":"OWNER","rankStars":"*****","prefix":null}"#).unwrap();
    assert_eq!(guild.prefix, "");
    let guild: GuildInfo = read(r#"{"name":"Avicia","rank":"OWNER","rankStars":"*****"}"#).unwrap();
    assert_eq!(guild.prefix, "");
    let guild: GuildInfo = read(r#"{"name":"Avicia","rank":"OWNER","rankStars":"*****","prefix":"AVO"}"#).unwrap();
    assert_eq!(guild.prefix, "AVO");
    assert_eq!(
        read::<GuildInfo>(r#"{"name":"Avicia","rank":"OWNER","rankStars":"*****","prefix":7}"#),
        Err(error_at(ErrorKind::WrongType, "", &[3]))
    );
    let found: SearchResult = read(r#"{"query":"bob","players":{"uuid-1":"bob"},"guilds":null}"#).unwrap();
    assert_eq!(found.query, "bob");
    assert_eq!(found.players, vec![("uuid-1".to_string(), "bob".to_string())]);
    assert!(found.guilds.is_empty() && found.items.is_empty() && found.territories.is_empty());
}

#[test]
fn a_field_that_goes_by_two_names() {
    let points: SkillPoints = read(r#"{"strength":1,"dexterity":2,"intelligence":3,"defense":4,"agility":5}"#).unwrap();
    assert_eq!(points.defence, 4);
    let points: SkillPoints = read(r#"{"strength":1,"dexterity":2,"intelligence":3,"defence":6,"agility":5}"#).unwrap();
    assert_eq!(points.defence, 6);
    assert_eq!(
        read::<SkillPoints>(r#"{"strength":1,"dexterity":2,"intelligence":3,"agility":5}"#),
        Err(error(ErrorKind::MissingField, "defence"))
    );
}

#[test]
fn coordinates_sent_as_text() {
    let marker: MarkerLocation = read(r#"{"name":"Ragni","icon":"town.png","x":"-880","y":"67","z":"-1580"}"#).unwrap();
    assert_eq!((marker.x, marker.y, marker.z), (-880, 67, -1580));
    assert_eq!(
        read::<MarkerLocation>(r#"{"name":"Ragni","icon":"town.png","x":"-880","y":"up","z":"-1580"}"#),
        Err(error_at(ErrorKind::InvalidScalar, "y", &[3]))
    );
    assert_eq!(
        read::<MarkerLocation>(r#"{"name":"Ragni","icon":"town.png","x":-880,"y":"67","z":"-1580"}"#),
        Err(error_at(ErrorKind::WrongType, "", &[2]))
    );
    let news: NewsArticle = read(
        r#"{"title":"t","date":"d","forumThread":"f","author":"a","content":"c","comments":"12"}"#,
    )
    .unwrap();
    assert_eq!(news.comments, 12);
}

#[test]
fn corners_are_pairs() {
    let territory: Territory = read(
        r#"{"guild":{"uuid":"u","name":"Avicia","prefix":"AVO"},"acquired":"2024-01-01",
            "location":{"start":[-10,20],"end":[30,-40]}}"#,
    )
    .unwrap();
    assert_eq!(territory.location, TerritoryLocation { start: (-10, 20), end: (30, -40) });
    assert_eq!(
        read::<TerritoryLocation>(r#"{"start":[1,2,3],"end":[3,4]}"#),
        Err(error_at(ErrorKind::WrongType, "", &[0]))
    );
    assert_eq!(
        read::<TerritoryLocation>(r#"{"start":[1,"2"],"end":[3,4]}"#),
        Err(error_at(ErrorKind::WrongType, "", &[1, 0]))
    );
}

#[test]
fn worlds_are_named_by_their_number() {
    assert_eq!(read::<World>(r#""WC12""#), Ok(World(12)));
    assert_eq!(read::<World>(r#""WC255""#), Ok(World(255)));
    assert_eq!(read::<World>(r#""WC256""#), Err(error(ErrorKind::NotAWorld, "")));
    assert_eq!(read::<World>(r#""EU12""#), Err(error(ErrorKind::NotAWorld, "")));
    assert_eq!(read::<World>(r#""WC""#), Err(error(ErrorKind::NotAWorld, "")));
    assert_eq!(read::<World>(r#""W""#), Err(error(ErrorKind::NotAWorld, "")));
    assert_eq!(read::<World>("12"), Err(error(ErrorKind::WrongType, "")));
    let list: OnlinePlayerList = read(r#"{"total":2,"players":{"a":"WC1","b":"WC30"}}"#).unwrap();
    assert_eq!(list.players, vec![("a".to_string(), World(1)), ("b".to_string(), World(30))]);
    assert_eq!(World::new(7).to_string(), "WC7");
    assert_eq!(World::new(0).to_string(), "WC0");
    assert_eq!(World::new(255).to_string(), "WC255");
    assert_eq!(World::new(41).world_number(), 41);
    assert_eq!(World::from_name("WC+5"), Some(World(5)));
    for n in 0..=255u8 {
        assert_eq!(World::from_name(&World(n).to_string()), Some(World(n)));
    }
}

#[test]
fn a_leaderboard_is_read_by_rank() {
    let text = r#"{
        "2": {"uuid":"b","name":"Second","level":90,"xp":5,"members":10,"territories":0,"created":"c","banner":null},
        "1": {"uuid":"a","name":"First","prefix":"ONE","level":100,"xp":7,"members":80,"territories":12,"wars":400,
              "created":"c","banner":{"base":"RED","tier":3,"structure":"tier3","layers":[{"colour":"WHITE","pattern":"FLOWER"}]}}
    }"#;
    let board: Leaderboard<LbGuild> = read(text).unwrap();
    assert_eq!(board.leaderboard.len(), 2);
    assert_eq!(board.get_ranking(1).unwrap().name, "First");
    assert_eq!(board.get_ranking(1).unwrap().wars, 400);
    assert_eq!(board.get_ranking(1).unwrap().banner.as_ref().unwrap().layers.len(), 1);
    assert_eq!(board.get_ranking(2).unwrap().name, "Second");
    assert_eq!(board.get_ranking(2).unwrap().prefix, "");
    assert_eq!(board.get_ranking(2).unwrap().wars, 0);
    let gap = r#"{"1": {"uuid":"a","name":"First","level":1,"xp":7,"members":8,"territories":1,"created":"c"},
                  "3": {"uuid":"b","name":"Third","level":1,"xp":7,"members":8,"territories":1,"created":"c"}}"#;
    assert_eq!(read::<Leaderboard<LbGuild>>(gap), Err(error(ErrorKind::IncompleteIndexRange, "")));
}

#[test]
fn a_playtime_is_kept_as_the_number_it_was() {
    let text = r##"{"1": {"name":"n","uuid":"u","score":5,"previousRanking":2,"metadata":{"xp":9,"playtime":1234.56},
        "rank":"Player","rankBadge":null,"supportRank":"champion","legacyRankColour":{"main":"#fff","sub":"#000"}}}"##;
    let board: Leaderboard<LbPlayerGlobal> = read(text).unwrap();
    let entry = board.get_ranking(1).unwrap();
    assert_eq!(entry.metadata.playtime, JsonNumber::Real(1234.56f64.to_bits()));
    assert_eq!(entry.metadata.xp, Some(9));
    assert_eq!(entry.support_rank, SupportRank::Champion);
}

#[test]
fn pages_are_read_in_order() {
    let text = r#"{"2": [], "1": [{"type":"connector","coordinates":{"x":1,"y":1},"family":[],"meta":{"icon":"c","page":1}}]}"#;
    let map: AbilityMap = read(text).unwrap();
    assert_eq!(map.pages.len(), 2);
    assert_eq!(map.pages[0].len(), 1);
    assert_eq!(map.pages[1].len(), 0);
    let tree: AbilityTree = read(r#"{"archetypes":{},"pages":{"1":{},"2":{}}}"#).unwrap();
    assert_eq!(tree.pages.len(), 2);
    assert_eq!(
        read::<AbilityTree>(r#"{"archetypes":{},"pages":{"1":{},"3":{}}}"#),
        Err(error_at(ErrorKind::IncompleteIndexRange, "", &[1]))
    );
    let aspect: Aspect = read(
        r#"{"name":"Aspect of x","icon":{"format":"skin","value":"s"},"rarity":"legendary","requiredClass":"mage",
            "tiers":{"1":{"threshold":1,"description":["a"]},"2":{"threshold":5,"description":["b","c"]}}}"#,
    )
    .unwrap();
    assert_eq!(aspect.tiers.len(), 2);
    assert_eq!(aspect.tiers[1].threshold, 5);
    assert_eq!(aspect.required_class, Class::Mage);
}

#[test]
fn a_record_of_what_is_no_object_is_refused() {
    assert_eq!(read::<GuildInfo>("[]"), Err(error(ErrorKind::WrongType, "")));
    assert_eq!(read::<ClassInfo>("null"), Err(error(ErrorKind::WrongType, "")));
    assert_eq!(read::<wynn_api::player::Meta>("7"), Err(error(ErrorKind::WrongType, "")));
    assert_eq!(read::<wynn_api::player::Meta>("{}"), Ok(wynn_api::player::Meta { died: None }));
}

#[test]
fn a_profession_is_looked_up_by_its_name() {
    let text = r#"{"fishing":{"level":1,"xpPercent":0},"woodcutting":{"level":2,"xpPercent":0},
        "mining":{"level":3,"xpPercent":0},"farming":{"level":4,"xpPercent":0},"scribing":{"level":5,"xpPercent":0},
        "jeweling":{"level":6,"xpPercent":0},"alchemism":{"level":7,"xpPercent":0},"cooking":{"level":8,"xpPercent":0},
        "weaponsmithing":{"level":9,"xpPercent":0},"tailoring":{"level":10,"xpPercent":0},
        "woodworking":{"level":11,"xpPercent":0},"armouring":{"level":12,"xpPercent":99}}"#;
    let professions: Professions = read(text).unwrap();
    assert_eq!(professions.get_profession(Profession::Fishing).level, 1);
    assert_eq!(professions.get_profession(Profession::Woodcutting).level, 2);
    assert_eq!(professions.get_profession(Profession::Mining).level, 3);
    assert_eq!(professions.get_profession(Profession::Farming).level, 4);
    assert_eq!(professions.get_profession(Profession::Scribing).level, 5);
    assert_eq!(professions.get_profession(Profession::Jeweling).level, 6);
    assert_eq!(professions.get_profession(Profession::Alchemism).level, 7);
    assert_eq!(professions.get_profession(Profession::Cooking).level, 8);
    assert_eq!(professions.get_profession(Profession::Weaponsmithing).level, 9);
    assert_eq!(professions.get_profession(Profession::Tailoring).level, 10);
    assert_eq!(professions.get_profession(Profession::Woodworking).level, 11);
    assert_eq!(professions.get_profession(Profession::Armouring).level, 12);
    assert_eq!(professions.get_profession(Profession::Armouring).xp_percent, 99);
}

#[test]
fn a_mapping_that_gives_a_key_twice_is_refused() {
    assert_eq!(
        read::<Vec<(String, u64)>>(r#"{"a":1,"b":2,"a":3}"#),
        Err(error_at(ErrorKind::Repeated, "a", &[2]))
    );
    assert_eq!(
        read::<Vec<(Identification, i64)>>(r#"{"elementalDamageBonusRaw":1,"ElementalDamageBonusRaw":2}"#),
        Err(error_at(ErrorKind::Repeated, "ElementalDamageBonusRaw", &[1]))
    );
    assert_eq!(
        read::<Vec<(String, u64)>>(r#"{"a":1,"b":true,"a":3}"#),
        Err(error_at(ErrorKind::WrongType, "", &[1]))
    );
    assert_eq!(
        read::<Vec<(String, u64)>>(r#"{"a":1,"A":2}"#),
        Ok(vec![("a".to_string(), 1), ("A".to_string(), 2)])
    );
    let list = r#"{"total":2,"players":{"a":"WC1","a":"WC30"}}"#;
    assert_eq!(read::<OnlinePlayerList>(list), Err(error_at(ErrorKind::Repeated, "a", &[1, 1])));
}

#[test]
fn a_set_that_gives_an_item_twice_is_refused() {
    let read_set = |text: &str| read::<Distinct<String>>(text).map(|set| set.0);
    assert_eq!(read_set(r#"["a","b","c"]"#), Ok(vec!["a".to_string(), "b".to_string(), "c".to_string()]));
    assert_eq!(read_set("[]"), Ok(vec![]));
    assert_eq!(read_set(r#"["a","b","a"]"#), Err(error_at(ErrorKind::Repeated, "", &[2])));
    assert_eq!(read_set(r#"["a","a","a"]"#), Err(error_at(ErrorKind::Repeated, "", &[1])));
    assert_eq!(read_set(r#"["a",1,"a"]"#), Err(error_at(ErrorKind::WrongType, "", &[1])));
    assert_eq!(read_set(r#"{"a":1}"#), Err(error(ErrorKind::WrongType, "")));
    assert_eq!(
        read::<Distinct<CraftedItemType>>(r#"["bow","helmet","bows"]"#).map(|set| set.0),
        Err(error_at(ErrorKind::Repeated, "", &[2]))
    );
    let info = r#"{"type":"mage","nickname":null,"level":1,"xp":0,"xpPercent":0,"totalLevel":1,
        "gamemode":["hardcore","ironman","hardcore"],"meta":{"died":null}}"#;
    assert_eq!(
        read::<wynn_api::player::CharacterInfo>(info),
        Err(error_at(ErrorKind::Repeated, "", &[2, 6]))
    );
}
