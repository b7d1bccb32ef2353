use wynn_api::classes::Class;
use wynn_api::item::{ItemQuery, ItemRarity, ItemType, IngredientTier, Rarity, ToolType, WeaponType, AttackSpeed, Identification, MajorId, Profession};
use wynn_api::leaderboard::{GuildLbType, PlayerProfileLbType, RaidGuildLbType};
use wynn_api::tokens::Token;
use wynn_api::{Identifier, API_LOCATION};

const CLASSES: [Class; 10] = [
    Class::Archer,
    Class::Hunter,
    Class::Warrior,
    Class::Knight,
    Class::Mage,
    Class::DarkWizard,
    Class::Assassin,
    Class::Ninja,
    Class::Shaman,
    Class::Skyseer,
];

#[test]
fn main_and_donor_classes() {
    assert_eq!(Class::Hunter.main_class(), Class::Archer);
    assert_eq!(Class::Archer.main_class(), Class::Archer);
    assert_eq!(Class::Knight.main_class(), Class::Warrior);
    assert_eq!(Class::DarkWizard.main_class(), Class::Mage);
    assert_eq!(Class::Ninja.main_class(), Class::Assassin);
    assert_eq!(Class::Skyseer.main_class(), Class::Shaman);
    assert_eq!(Class::Archer.donor_class(), Class::Hunter);
    assert_eq!(Class::Warrior.donor_class(), Class::Knight);
    assert_eq!(Class::Mage.donor_class(), Class::DarkWizard);
    assert_eq!(Class::Assassin.donor_class(), Class::Ninja);
    assert_eq!(Class::Shaman.donor_class(), Class::Skyseer);
    assert_eq!(Class::Skyseer.donor_class(), Class::Skyseer);
    for class in CLASSES {
        assert_eq!(class.main_class().main_class(), class.main_class());
        assert_eq!(class.donor_class().main_class(), class.main_class());
        assert_eq!(class.main_class().donor_class(), class.donor_class());
        assert_eq!(class.main_class().weapon_type(), class.weapon_type());
        assert_eq!(class.donor_class().weapon_type(), class.weapon_type());
    }
}

#[test]
fn the_weapon_of_a_class() {
    assert_eq!(Class::Archer.weapon_type(), WeaponType::Bow);
    assert_eq!(Class::Hunter.weapon_type(), WeaponType::Bow);
    assert_eq!(Class::Warrior.weapon_type(), WeaponType::Spear);
    assert_eq!(Class::Knight.weapon_type(), WeaponType::Spear);
    assert_eq!(Class::Mage.weapon_type(), WeaponType::Wand);
    assert_eq!(Class::DarkWizard.weapon_type(), WeaponType::Wand);
    assert_eq!(Class::Assassin.weapon_type(), WeaponType::Dagger);
    assert_eq!(Class::Ninja.weapon_type(), WeaponType::Dagger);
    assert_eq!(Class::Shaman.weapon_type(), WeaponType::Wand);
    assert_eq!(Class::Skyseer.weapon_type(), WeaponType::Wand);
}

#[test]
fn names_as_the_api_writes_them() {
    assert_eq!(Class::DarkWizard.to_string(), "darkwizard");
    assert_eq!(Class::Archer.to_string(), "archer");
    assert_eq!(Identifier::Username.to_string(), "username");
    assert_eq!(Identifier::Uuid.to_string(), "uuid");
    assert_eq!(GuildLbType::GuildTerritories.to_string(), "guildTerritories");
    assert_eq!(PlayerProfileLbType::HuichContent.to_string(), "huichContent");
    assert_eq!(RaidGuildLbType::NogSrGuilds.to_string(), "nogSrGuilds");
    assert_eq!(AttackSpeed::SuperSlow.as_token(), "super_slow");
    assert_eq!(MajorId::ForestsBlessing.as_token(), "Forest's Blessing");
    assert_eq!(Identification::Strength.as_token(), "rawStrength");
    assert_eq!(API_LOCATION, "https://api.wynncraft.com/v3");
    for class in CLASSES {
        assert_eq!(Class::from_token(class.as_token()), Some(class));
        assert_eq!(Class::from_token(&class.as_token().to_uppercase()), Some(class));
    }
    assert_eq!(Class::from_token("Archer"), None);
}

#[test]
fn a_new_query_asks_for_nothing_in_particular() {
    let query = ItemQuery::new();
    assert_eq!(query, ItemQuery::default());
    assert_eq!(query.level_range, (0, 110));
    assert_eq!(query.query, None);
    assert!(query.tier.is_empty() && query.item_type.is_empty() && query.attack_speed.is_empty());
    assert!(query.identifications.is_empty() && query.major_ids.is_empty() && query.professions.is_empty());
}

#[test]
fn a_query_is_filled_step_by_step() {
    let mut query = ItemQuery::with_query("photon");
    assert_eq!(query.query.as_deref(), Some("photon"));
    assert_eq!(ItemQuery::with_query("photon".to_string()), query);
    assert_eq!(query.level_range, (0, 110));
    query.set_query("idol".to_string());
    assert_eq!(query.query.as_deref(), Some("idol"));
    query.set_max_level(80);
    assert_eq!(query.level_range, (0, 80));
    query.set_min_level(20);
    assert_eq!(query.level_range, (20, 80));
    assert!(query.add_tier(ItemRarity::Unique));
    assert!(!query.add_tier(ItemRarity::Unique));
    assert!(query.add_tier(IngredientTier::Ingredient1Star));
    assert!(!query.add_tier(Rarity::Item(ItemRarity::Unique)));
    assert_eq!(
        query.tier,
        vec![Rarity::Item(ItemRarity::Unique), Rarity::Ingredient(IngredientTier::Ingredient1Star)]
    );
    assert!(query.add_item_type(ToolType::Axe));
    assert!(query.add_item_type(WeaponType::Bow));
    assert!(!query.add_item_type(ItemType::Tool(ToolType::Axe)));
    assert_eq!(query.item_type, vec![ItemType::Tool(ToolType::Axe), ItemType::Weapon(WeaponType::Bow)]);
    assert!(query.add_identification(Identification::ManaRegen));
    assert!(!query.add_identification(Identification::ManaRegen));
    assert!(query.add_profession(Profession::Cooking));
    assert!(!query.add_profession(Profession::Cooking));
    assert!(query.add_major_id(MajorId::Rally));
    assert!(!query.add_major_id(MajorId::Rally));
    assert!(query.add_attack_speed(AttackSpeed::Fast));
    assert!(!query.add_attack_speed(AttackSpeed::Fast));
    assert_eq!(query.identifications, vec![Identification::ManaRegen]);
    assert_eq!(query.professions, vec![Profession::Cooking]);
    assert_eq!(query.major_ids, vec![MajorId::Rally]);
    assert_eq!(query.attack_speed, vec![AttackSpeed::Fast]);
    assert_eq!(query.level_range, (20, 80));
    assert_eq!(query.clone(), query);
}
