use wynn_api::classes::Class;
use wynn_api::decode::{Decode, DecodeError, ErrorKind};
use wynn_api::encode::Encode;
use wynn_api::envelope::{DecodeOutcome, RawEnvelope, StatusClass};
use wynn_api::item::{
    AttackSpeed, Identification, IngredientTier, Item, ItemQuery, ItemRarity, ItemResult, MajorId, Profession, ToolType,
    WeaponType,
};
use wynn_api::json::{Json, JsonNumber};
use wynn_api::leaderboard::{GuildLbType, PlayerProfileLbType};
use wynn_api::player::{Ability, AbilityMeta, AbilityNodeCoordinate, FullPlayerStats, Icon};
use wynn_api::reader::parse;
use wynn_api::request;
use wynn_api::search::SearchResult;
use wynn_api::writer::render;
use wynn_api::{Identifier, World};

fn num(n: u64) -> Json {
    Json::Number(JsonNumber::Unsigned(n))
}

fn text(s: &str) -> Json {
    Json::String(s.to_string())
}

#[test]
fn a_document_is_written_as_compact_text() {
    let j = Json::Object(vec![
        ("b".to_string(), Json::Array(vec![num(1), Json::Number(JsonNumber::Signed(-2)), Json::Null])),
        ("a".to_string(), Json::Bool(true)),
        ("c".to_string(), Json::Object(vec![])),
        ("d".to_string(), Json::Array(vec![])),
        ("e".to_string(), Json::Bool(false)),
        ("f".to_string(), num(u64::MAX)),
    ]);
    assert_eq!(
        render(&j).as_deref(),
        Some(r#"{"b":[1,-2,null],"a":true,"c":{},"d":[],"e":false,"f":18446744073709551615}"#)
    );
    assert_eq!(render(&Json::Null).as_deref(), Some("null"));
    assert_eq!(render(&num(0)).as_deref(), Some("0"));
    assert_eq!(render(&Json::Array(vec![num(7)])).as_deref(), Some("[7]"));
}

#[test]
fn strings_are_quoted_and_escaped() {
    assert_eq!(render(&text("plain")).as_deref(), Some(r#""plain""#));
    assert_eq!(render(&text("")).as_deref(), Some(r#""""#));
    assert_eq!(render(&text("a\"b\\c\nd\te")).as_deref(), Some(r#""a\"b\\c\nd\te""#));
    assert_eq!(render(&text("Saviour’s")).as_deref(), Some("\"Saviour’s\""));
    assert_eq!(
        render(&text("\u{1}\u{8}\u{c}\r\u{1f}\u{7f}/")).as_deref(),
        Some("\"\\u0001\\b\\f\\r\\u001f\u{7f}/\"")
    );
    let j = Json::Object(vec![("a \"name\"".to_string(), Json::Null)]);
    assert_eq!(render(&j).as_deref(), Some(r#"{"a \"name\"":null}"#));
}

#[test]
fn a_number_with_a_fraction_cannot_be_written() {
    let real = Json::Number(JsonNumber::Real(1.5f64.to_bits()));
    assert_eq!(render(&real), None);
    assert_eq!(render(&Json::Array(vec![num(1), real.clone()])), None);
    assert_eq!(render(&Json::Object(vec![("a".to_string(), Json::Array(vec![real]))])), None);
}

#[test]
fn what_is_written_is_read_back_by_the_parser() {
    let j = Json::Object(vec![
        ("a".to_string(), Json::Array(vec![num(1), Json::Number(JsonNumber::Signed(-2)), Json::Null])),
        ("b \\ \" \u{7f} \u{1}".to_string(), text("x\ny")),
        ("c".to_string(), Json::Object(vec![("d".to_string(), Json::Bool(false))])),
    ]);
    let written = render(&j).unwrap();
    assert_eq!(parse(written.as_bytes()), Ok(j));
}

#[test]
fn a_query_is_sent_as_json() {
    let mut query = ItemQuery::with_query("photon");
    query.add_tier(ItemRarity::Unique);
    query.add_tier(IngredientTier::Ingredient3Star);
    query.add_item_type(WeaponType::Bow);
    query.add_item_type(ToolType::Axe);
    query.add_attack_speed(AttackSpeed::VeryFast);
    query.add_identification(Identification::ManaRegen);
    query.add_major_id(MajorId::Rally);
    query.add_profession(Profession::Cooking);
    query.set_min_level(10);
    query.set_max_level(90);
    assert_eq!(
        query.request_body(),
        concat_all(&[
            r#"{"attackSpeed":["very_fast"],"identifications":["manaRegen"],"levelRange":[10,90],"#,
            r#""majorIds":["Rally"],"professions":["cooking"],"query":"photon","tier":["unique",3],"#,
            r#""type":["bow","axe"]}"#,
        ])
    );
    assert_eq!(
        ItemQuery::new().request_body(),
        concat_all(&[
            r#"{"attackSpeed":[],"identifications":[],"levelRange":[0,110],"majorIds":[],"professions":[],"#,
            r#""query":null,"tier":[],"type":[]}"#,
        ])
    );
    assert_eq!(ItemQuery::decode(&query.encode()), Ok(query.clone()));
    assert_eq!(ItemQuery::decode(&parse(query.request_body().as_bytes()).unwrap()), Ok(query));
    assert_eq!(
        ItemQuery::decode(&parse(br#"{"attackSpeed":[]}"#).unwrap()),
        Err(DecodeError { kind: ErrorKind::MissingField, subject: "identifications".to_string(), path: vec![] })
    );
}

fn concat_all(parts: &[&str]) -> String {
    parts.concat()
}

const ITEMS: &str = r#"{
    "controller": {"count": 2, "pages": 1, "previous": null, "current": 1, "next": null,
                   "links": {"previous": null, "next": null}},
    "results": {
        "Idol": {"internalName": "Idol", "type": "weapon", "weaponType": "spear", "attackSpeed": "very_slow",
                 "requirements": {"level": 95, "classRequirement": "warrior"}, "rarity": "mythic",
                 "identifications": {"manaRegen": {"min": 2, "raw": 6, "max": 8}}, "powderSlots": 3,
                 "icon": {"format": "attribute", "value": {"id": "i", "name": "n", "customModelData": "4"}}},
        "Oak": {"internalName": "Refined Oak Wood", "type": "material", "identified": true, "tier": 1,
                "requirements": {"level": 1}, "craftable": ["bows"]},
        "Pearl": {"internalName": "Pearl", "type": "ingredient", "tier": "0",
                  "requirements": {"level": 5, "skills": ["jeweling"]},
                  "consumableOnlyIDs": {"duration": -60}, "itemOnlyIDs": {"durabilityModifier": -35000},
                  "ingredientPositionModifiers": {"left": 10}, "droppedBy": [{"name": "Crab", "coords": null}]},
        "Boots": {"internalName": "Boots", "type": "armour", "armourType": "boots", "armourMaterial": "leather",
                  "requirements": {"level": 3}, "rarity": "set", "dropRestriction": "never", "allowCraftsman": true},
        "Ring": {"internalName": "Ring", "type": "accessory", "accessoryType": "rings",
                 "requirements": {"level": 3, "quest": "A Quest"}, "rarity": "rare", "restrictions": "quest item"},
        "Tome": {"internalName": "Tome", "type": "tome", "tomeType": "guild_tome", "raidReward": false,
                 "requirements": {"level": 60}, "rarity": "fabled", "dropMeta": {"name": "n", "coordinates": [1, 2, 3],
                 "type": ["event"], "event": "e"}},
        "Charm": {"internalName": "Charm", "type": "charm", "raidReward": true, "rarity": "legendary",
                  "requirements": {"level": 105, "levelRange": {"min": 100, "max": 110}}},
        "Rod": {"internalName": "Rod", "type": "tool", "toolType": "rod", "gatheringSpeed": 40,
                "requirements": {"level": 20}, "rarity": "unique"}
    }
}"#;

#[test]
fn items_of_every_kind_are_read_and_read_back() {
    let page: ItemResult = ItemResult::decode(&parse(ITEMS.as_bytes()).unwrap()).unwrap();
    assert_eq!(page.results.len(), 8);
    let levels: Vec<(String, u8)> =
        page.results.iter().map(|(name, item)| (name.clone(), item.required_level())).collect();
    assert_eq!(
        levels,
        vec![
            ("Idol".to_string(), 95),
            ("Oak".to_string(), 1),
            ("Pearl".to_string(), 5),
            ("Boots".to_string(), 3),
            ("Ring".to_string(), 3),
            ("Tome".to_string(), 60),
            ("Charm".to_string(), 105),
            ("Rod".to_string(), 20),
        ]
    );
    assert_eq!(ItemResult::decode(&page.encode()), Ok(page.clone()));
    for (_, item) in &page.results {
        let written = item.encode();
        assert_eq!(Item::decode(&written).as_ref(), Ok(item));
        let text = render(&written).unwrap();
        assert_eq!(Item::decode(&parse(text.as_bytes()).unwrap()).as_ref(), Ok(item));
    }
    let found = SearchResult {
        query: "o".to_string(),
        players: vec![],
        guilds: vec![],
        guilds_prefix: vec![],
        territories: vec![],
        discoveries: vec![],
        items: page.results.clone(),
    };
    assert_eq!(SearchResult::decode(&found.encode()), Ok(found));
}

#[test]
fn a_record_with_another_beside_it_is_read_back() {
    let ability = Ability {
        coordinates: AbilityNodeCoordinate { x: 4, y: 1 },
        meta: AbilityMeta::Ability { icon: Icon::Skin("s".into()), page: 1, id: "bash".into() },
        family: vec!["bash".into()],
    };
    assert_eq!(Ability::decode(&ability.encode()), Ok(ability.clone()));
    assert_eq!(
        render(&ability.encode()).as_deref(),
        Some(concat_all(&[
            r#"{"coordinates":{"x":4,"y":1},"family":["bash"],"type":"ability","#,
            r#""meta":{"icon":{"format":"skin","value":"s"},"page":1,"id":"bash"}}"#,
        ])
        .as_str())
    );
    let connector = Ability {
        coordinates: AbilityNodeCoordinate { x: 0, y: 0 },
        meta: AbilityMeta::Connector { icon: "c".into(), page: 2 },
        family: vec![],
    };
    assert_eq!(Ability::decode(&connector.encode()), Ok(connector));
    let text = r##"{"username":"u","online":true,"server":"WC4","activeCharacter":null,"uuid":"id","rank":"Player",
        "rankBadge":null,"legacyRankColour":null,"shortenedRank":null,"supportRank":"vip","firstJoin":"a",
        "lastJoin":"b","playtime":12.5,"guild":{"name":"g","rank":"r","rankStars":"*"},
        "globalData":{"wars":1,"totalLevel":2,"killedMobs":3,"chestsFound":4,"completedQuests":5,
                      "pvp":{"kills":6,"deaths":7}},
        "forumLink":null,"ranking":{"a":1},"previousRanking":{},"publicProfile":true,"characters":{}}"##;
    let player = FullPlayerStats::decode(&parse(text.as_bytes()).unwrap()).unwrap();
    assert_eq!(player.player_stats.server, Some(World(4)));
    assert!(!player.player_stats.veteran);
    assert_eq!(player.player_stats.global_data.dungeons.total, 0);
    assert_eq!(player.player_stats.ranking, vec![("a".to_string(), 1)]);
    assert_eq!(FullPlayerStats::decode(&player.encode()), Ok(player));
}

#[test]
fn the_addresses_of_the_endpoints() {
    assert_eq!(request::class_list_url(), "https://api.wynncraft.com/v3/classes");
    assert_eq!(request::class_info_url(Class::Knight), "https://api.wynncraft.com/v3/classes/warrior");
    assert_eq!(request::abilitiy_map_url(Class::Skyseer), "https://api.wynncraft.com/v3/ability/map/shaman");
    assert_eq!(request::abilitiy_tree_url(Class::Mage), "https://api.wynncraft.com/v3/ability/tree/mage");
    assert_eq!(
        request::guild_by_name_url("Pleonexia", Identifier::Uuid),
        "https://api.wynncraft.com/v3/guild/Pleonexia?identifier=uuid"
    );
    assert_eq!(
        request::guild_by_prefix_url("Plex", Identifier::Username),
        "https://api.wynncraft.com/v3/guild/prefix/Plex?identifier=username"
    );
    assert_eq!(request::guild_list_url(), "https://api.wynncraft.com/v3/guild/list/guild");
    assert_eq!(request::guild_teritories_url(), "https://api.wynncraft.com/v3/guild/list/territory");
    assert_eq!(request::item_database_url(143), "https://api.wynncraft.com/v3/item/database?page=143");
    assert_eq!(request::item_database_url(0), "https://api.wynncraft.com/v3/item/database?page=0");
    assert_eq!(request::item_database_full_url(), "https://api.wynncraft.com/v3/item/database?fullResult");
    assert_eq!(request::search_item_url(), "https://api.wynncraft.com/v3/item/search");
    assert_eq!(request::search_item_full_url(), "https://api.wynncraft.com/v3/item/search?fullResult");
    assert_eq!(
        request::leaderboard_guild_url(GuildLbType::GuildWars, 1),
        "https://api.wynncraft.com/v3/leaderboards/guildWars?resultLimit=1"
    );
    assert_eq!(
        request::leaderboard_player_profile_url(PlayerProfileLbType::PlayerContent, 10),
        "https://api.wynncraft.com/v3/leaderboards/playerContent?resultLimit=10"
    );
    assert_eq!(request::marker_locations_url(), "https://api.wynncraft.com/v3/map/locations/markers");
    assert_eq!(request::player_location_url(), "https://api.wynncraft.com/v3/map/locations/player");
    assert_eq!(request::quest_count_url(), "https://api.wynncraft.com/v3/map/quests");
    assert_eq!(request::latest_news_url(), "https://api.wynncraft.com/v3/latest-news");
    assert_eq!(request::player_main_stats_url("de_grote"), "https://api.wynncraft.com/v3/player/de_grote");
    assert_eq!(
        request::player_full_stats_url("de_grote"),
        "https://api.wynncraft.com/v3/player/de_grote?fullResult"
    );
    assert_eq!(
        request::player_character_list_url("de_grote"),
        "https://api.wynncraft.com/v3/player/de_grote/characters"
    );
    assert_eq!(
        request::player_character_data_url("de_grote", "55a9"),
        "https://api.wynncraft.com/v3/player/de_grote/characters/55a9"
    );
    assert_eq!(
        request::player_character_abilities_url("de_grote", "55a9"),
        "https://api.wynncraft.com/v3/player/de_grote/characters/55a9/abilities"
    );
    assert_eq!(
        request::online_player_list_url(Identifier::Username, &[World(1), World(5), World(8)]),
        "https://api.wynncraft.com/v3/player?identifier=username&server=1,5,8"
    );
    assert_eq!(
        request::online_player_list_url(Identifier::Uuid, &[World(255)]),
        "https://api.wynncraft.com/v3/player?identifier=uuid&server=255"
    );
    assert_eq!(
        request::online_player_list_url(Identifier::Uuid, &[]),
        "https://api.wynncraft.com/v3/player?identifier=uuid&server="
    );
    assert_eq!(request::search_url("bob"), "https://api.wynncraft.com/v3/search/bob");
}

#[test]
fn the_class_of_a_status() {
    assert_eq!(StatusClass::of_code(200), StatusClass::Success);
    assert_eq!(StatusClass::of_code(204), StatusClass::Success);
    assert_eq!(StatusClass::of_code(299), StatusClass::Success);
    assert_eq!(StatusClass::of_code(300), StatusClass::Redirect);
    assert_eq!(StatusClass::of_code(399), StatusClass::Redirect);
    assert_eq!(StatusClass::of_code(400), StatusClass::ClientOrServerError);
    assert_eq!(StatusClass::of_code(404), StatusClass::ClientOrServerError);
    assert_eq!(StatusClass::of_code(500), StatusClass::ClientOrServerError);
    assert_eq!(StatusClass::of_code(100), StatusClass::Success);
    let envelope = RawEnvelope { status: StatusClass::of_code(300), body: br#"{"a":{}}"#.to_vec() };
    assert_eq!(envelope.decode::<u64>(), DecodeOutcome::Ambiguous(vec![("a".to_string(), vec![])]));
    let envelope = RawEnvelope { status: StatusClass::of_code(200), body: b"17".to_vec() };
    assert_eq!(envelope.decode::<u64>(), DecodeOutcome::Value(17));
}
