use wynn_api::decode::{Decode, DecodeError, ErrorKind};
use wynn_api::encode::Encode;
use wynn_api::item::{
    shape_of, AccessoryType, ArmourType, CraftedItemType, DropType, DynamicIdentificationStats, IdentificationStats,
    IngredientTier, ItemRarity, ItemType, OtherCraftedItemType, OtherItemType, Rarity, Shape, TomeType, ToolType,
    WeaponType,
};
use wynn_api::json::{Json, JsonNumber};
use wynn_api::reader::parse;

fn read<T: Decode>(text: &str) -> Result<T, DecodeError> {
    T::decode(&parse(text.as_bytes()).unwrap())
}

fn error(kind: ErrorKind, subject: &str) -> DecodeError {
    error_at(kind, subject, &[])
}

fn error_at(kind: ErrorKind, subject: &str, path: &[usize]) -> DecodeError {
    DecodeError { kind, subject: subject.to_string(), path: path.to_vec() }
}

#[test]
fn a_number_is_a_static_statistic() {
    assert_eq!(read::<IdentificationStats>("7"), Ok(IdentificationStats::Static(7)));
    assert_eq!(read::<IdentificationStats>("-7"), Ok(IdentificationStats::Static(-7)));
}

#[test]
fn an_object_of_min_raw_max_is_a_dynamic_statistic() {
    assert_eq!(
        read::<IdentificationStats>(r#"{"min":1,"raw":2,"max":3}"#),
        Ok(IdentificationStats::Dynamic(DynamicIdentificationStats { min: 1, raw: 2, max: 3 }))
    );
    assert_eq!(
        read::<IdentificationStats>(r#"{"max":-3,"min":-9,"raw":-6}"#),
        Ok(IdentificationStats::Dynamic(DynamicIdentificationStats { min: -9, raw: -6, max: -3 }))
    );
}

#[test]
fn a_token_is_the_variant_it_names() {
    assert_eq!(read::<DropType>(r#""lootrun""#), Ok(DropType::Lootrun));
    assert_eq!(read::<DropType>(r#""dungeonMerchant""#), Ok(DropType::DungeonMerchant));
    assert_eq!(read::<DropType>(r#""dungeon""#), Ok(DropType::Dungeon));
}

#[test]
fn an_array_is_the_aggregate_variant_whatever_it_holds() {
    assert_eq!(read::<DropType>("[]"), Ok(DropType::EventMerchant));
    assert_eq!(read::<DropType>(r#"["Festival of the Heroes", 3, null, {}]"#), Ok(DropType::EventMerchant));
}

#[test]
fn a_document_of_no_known_shape_is_refused() {
    let unrecognized = Err(error(ErrorKind::UnrecognizedShape, ""));
    assert_eq!(read::<IdentificationStats>("{}"), unrecognized);
    assert_eq!(read::<IdentificationStats>(r#"{"min":1,"raw":2}"#), unrecognized);
    assert_eq!(read::<IdentificationStats>(r#"{"min":1,"raw":2,"max":3,"more":4}"#), unrecognized);
    assert_eq!(read::<IdentificationStats>(r#"{"min":1,"raw":2,"max":"3"}"#), unrecognized);
    assert_eq!(read::<IdentificationStats>(r#""7""#), unrecognized);
    assert_eq!(read::<IdentificationStats>("[7]"), unrecognized);
    assert_eq!(read::<IdentificationStats>("1.5"), unrecognized);
    assert_eq!(read::<IdentificationStats>("null"), unrecognized);
    assert_eq!(read::<IdentificationStats>("18446744073709551615"), unrecognized);
    let unrecognized = Err(error(ErrorKind::UnrecognizedShape, ""));
    assert_eq!(read::<DropType>("{}"), unrecognized);
    assert_eq!(read::<DropType>("7"), unrecognized);
    assert_eq!(read::<DropType>(r#""eventMerchant""#), unrecognized);
    assert_eq!(read::<DropType>(r#""Lootrun""#), unrecognized);
    assert_eq!(read::<DropType>("true"), unrecognized);
}

#[test]
fn the_shapes_are_tried_in_order() {
    assert_eq!(shape_of(&parse(b"7").unwrap()), Shape::Number);
    assert_eq!(shape_of(&parse(b"7.5").unwrap()), Shape::Number);
    assert_eq!(shape_of(&parse(br#"{"min":1,"raw":2,"max":3}"#).unwrap()), Shape::Range);
    assert_eq!(shape_of(&parse(br#"{"min":"a","raw":[],"max":null}"#).unwrap()), Shape::Range);
    assert_eq!(shape_of(&parse(br#""lootrun""#).unwrap()), Shape::Token);
    assert_eq!(shape_of(&parse(b"[1, 2]").unwrap()), Shape::Aggregate);
    assert_eq!(shape_of(&parse(b"{}").unwrap()), Shape::Unrecognized);
    assert_eq!(shape_of(&parse(b"null").unwrap()), Shape::Unrecognized);
    assert_eq!(shape_of(&parse(b"false").unwrap()), Shape::Unrecognized);
    let twice = Json::Object(vec![
        ("min".to_string(), Json::Null),
        ("min".to_string(), Json::Null),
        ("raw".to_string(), Json::Null),
    ]);
    assert_eq!(shape_of(&twice), Shape::Unrecognized);
}

#[test]
fn a_tier_is_a_number_or_the_text_of_one() {
    assert_eq!(read::<IngredientTier>("2"), Ok(IngredientTier::Ingredient2Star));
    assert_eq!(read::<IngredientTier>(r#""2""#), Ok(IngredientTier::Ingredient2Star));
    assert_eq!(read::<IngredientTier>("0"), Ok(IngredientTier::Ingredient0Star));
    assert_eq!(read::<IngredientTier>(r#""0""#), Ok(IngredientTier::Ingredient0Star));
    assert_eq!(read::<IngredientTier>("1"), Ok(IngredientTier::Ingredient1Star));
    assert_eq!(read::<IngredientTier>(r#""3""#), Ok(IngredientTier::Ingredient3Star));
    assert_eq!(read::<IngredientTier>(r#""03""#), Ok(IngredientTier::Ingredient3Star));
}

#[test]
fn what_is_no_tier_is_refused_in_both_forms() {
    let no_tier = Err(error(ErrorKind::NotATier, ""));
    assert_eq!(read::<IngredientTier>("9"), no_tier);
    assert_eq!(read::<IngredientTier>(r#""9""#), no_tier);
    assert_eq!(read::<IngredientTier>("4"), no_tier);
    assert_eq!(read::<IngredientTier>(r#""4""#), no_tier);
    assert_eq!(read::<IngredientTier>("-1"), no_tier);
    assert_eq!(read::<IngredientTier>(r#""-1""#), no_tier);
    assert_eq!(read::<IngredientTier>("2.0"), no_tier);
    assert_eq!(read::<IngredientTier>(r#""two""#), no_tier);
    assert_eq!(read::<IngredientTier>(r#""256""#), no_tier);
    assert_eq!(read::<IngredientTier>("null"), no_tier);
    assert_eq!(read::<IngredientTier>("[2]"), no_tier);
    assert_eq!(IngredientTier::decode(&Json::Number(JsonNumber::Signed(-2))), no_tier);
    assert_eq!(
        IngredientTier::decode(&Json::Number(JsonNumber::Signed(2))),
        Ok(IngredientTier::Ingredient2Star)
    );
}

#[test]
fn a_rarity_is_tried_before_a_tier() {
    assert_eq!(read::<Rarity>(r#""mythic""#), Ok(Rarity::Item(ItemRarity::Mythic)));
    assert_eq!(read::<Rarity>(r#""set""#), Ok(Rarity::Item(ItemRarity::SetPiece)));
    assert_eq!(read::<Rarity>("3"), Ok(Rarity::Ingredient(IngredientTier::Ingredient3Star)));
    assert_eq!(read::<Rarity>(r#""3""#), Ok(Rarity::Ingredient(IngredientTier::Ingredient3Star)));
    assert_eq!(read::<Rarity>(r#""epic""#), Err(error(ErrorKind::UnrecognizedShape, "")));
    assert_eq!(read::<Rarity>("7"), Err(error(ErrorKind::UnrecognizedShape, "")));
}

#[test]
fn a_kind_is_found_in_the_first_family_that_knows_its_token() {
    assert_eq!(read::<ItemType>(r#""axe""#), Ok(ItemType::Tool(ToolType::Axe)));
    assert_eq!(read::<ItemType>(r#""wand""#), Ok(ItemType::Weapon(WeaponType::Wand)));
    assert_eq!(read::<ItemType>(r#""wands""#), Ok(ItemType::Weapon(WeaponType::Wand)));
    assert_eq!(read::<ItemType>(r#""boots""#), Ok(ItemType::Armour(ArmourType::Boots)));
    assert_eq!(read::<ItemType>(r#""rings""#), Ok(ItemType::Accessory(AccessoryType::Ring)));
    assert_eq!(read::<ItemType>(r#""guild_tome""#), Ok(ItemType::Tome(TomeType::GuildTome)));
    assert_eq!(read::<ItemType>(r#""guildTome""#), Ok(ItemType::Tome(TomeType::GuildTome)));
    assert_eq!(read::<ItemType>(r#""charm""#), Ok(ItemType::Other(OtherItemType::Charm)));
    assert_eq!(read::<ItemType>(r#""potion""#), Err(error(ErrorKind::UnrecognizedShape, "")));
    assert_eq!(read::<ItemType>("1"), Err(error(ErrorKind::UnrecognizedShape, "")));
    assert_eq!(read::<CraftedItemType>(r#""potions""#), Ok(CraftedItemType::Other(OtherCraftedItemType::Potion)));
    assert_eq!(read::<CraftedItemType>(r#""helmets""#), Ok(CraftedItemType::Armour(ArmourType::Helmet)));
    assert_eq!(read::<CraftedItemType>(r#""axe""#), Err(error(ErrorKind::UnrecognizedShape, "")));
}

#[test]
fn what_is_told_by_shape_is_written_in_its_shape() {
    assert_eq!(IdentificationStats::Static(-3).encode(), Json::Number(JsonNumber::Signed(-3)));
    assert_eq!(IdentificationStats::Static(3).encode(), Json::Number(JsonNumber::Unsigned(3)));
    assert_eq!(
        IdentificationStats::Dynamic(DynamicIdentificationStats { min: 1, raw: 2, max: 3 }).encode(),
        Json::Object(vec![
            ("min".to_string(), Json::Number(JsonNumber::Unsigned(1))),
            ("raw".to_string(), Json::Number(JsonNumber::Unsigned(2))),
            ("max".to_string(), Json::Number(JsonNumber::Unsigned(3))),
        ])
    );
    assert_eq!(DropType::EventMerchant.encode(), Json::Array(vec![]));
    assert_eq!(DropType::Lootrun.encode(), Json::String("lootrun".to_string()));
    assert_eq!(IngredientTier::Ingredient2Star.encode(), Json::Number(JsonNumber::Unsigned(2)));
    assert_eq!(ItemType::Tome(TomeType::GuildTome).encode(), Json::String("guildTome".to_string()));
}

#[test]
fn what_is_told_by_shape_is_read_back() {
    for value in [
        IdentificationStats::Static(0),
        IdentificationStats::Static(i64::MIN),
        IdentificationStats::Static(i64::MAX),
        IdentificationStats::Dynamic(DynamicIdentificationStats { min: -1, raw: 0, max: 1 }),
    ] {
        assert_eq!(IdentificationStats::decode(&value.encode()), Ok(value));
    }
    for value in [
        DropType::Merchant,
        DropType::Lootrun,
        DropType::Raid,
        DropType::Miniboss,
        DropType::Guild,
        DropType::Altar,
        DropType::Quest,
        DropType::DungeonMerchant,
        DropType::Dungeon,
        DropType::Challenge,
        DropType::EventMerchant,
    ] {
        assert_eq!(DropType::decode(&value.encode()), Ok(value));
    }
    for value in [
        IngredientTier::Ingredient0Star,
        IngredientTier::Ingredient1Star,
        IngredientTier::Ingredient2Star,
        IngredientTier::Ingredient3Star,
    ] {
        assert_eq!(IngredientTier::decode(&value.encode()), Ok(value));
        assert_eq!(Rarity::decode(&Rarity::Ingredient(value).encode()), Ok(Rarity::Ingredient(value)));
    }
}
