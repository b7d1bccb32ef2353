//! Where to ask: the address of each endpoint of the API.

use crate::classes::Class;
use crate::leaderboard::{GuildLbType, PlayerGlobalLbType, PlayerProfileLbType, RaidGuildLbType, RaidPlayerLbType};
use crate::text::{decimal_of, push_decimal};
use crate::tokens::Token;
use crate::{Identifier, World, API_LOCATION};
use vstd::prelude::*;
use vstd::string::StringExecFns;

verus! {

/// The numbers of the first `count` worlds in decimal notation, with a comma
/// between each two.
pub open spec fn numbers_of(worlds: Seq<World>, count: int) -> Seq<char>
    decreases count,
{
    if count <= 0 || count > worlds.len() {
        Seq::empty()
    } else if count == 1 {
        decimal_of(worlds[0].0 as nat)
    } else {
        numbers_of(worlds, count - 1) + ","@ + decimal_of(worlds[count - 1].0 as nat)
    }
}

/// Appends the numbers of the worlds, with a comma between each two.
pub fn push_numbers(out: &mut String, worlds: &[World])
    ensures
        final(out)@ == old(out)@ + numbers_of(worlds@, worlds@.len() as int),
{
    let mut i: usize = 0;
    while i < worlds.len()
        invariant
            i <= worlds.len(),
            out@ == old(out)@ + numbers_of(worlds@, i as int),
        decreases worlds.len() - i,
    {
        if i > 0 {
            out.append(",");
        }
        let ghost before = out@;
        push_decimal(out, worlds[i].0 as u64);
        proof {
            if i == 0 {
                assert(numbers_of(worlds@, 0) == Seq::<char>::empty());
                assert(before == old(out)@);
            } else {
                assert(before == old(out)@ + numbers_of(worlds@, i as int) + ","@);
            }
            assert(out@ == old(out)@ + numbers_of(worlds@, i + 1));
        }
        i += 1;
    }
}

/// Where to ask for the ability map of the main class of `class`.
pub fn abilitiy_map_url(class: Class) -> (url: String)
    ensures
        url@ == API_LOCATION@ + "/ability/map/"@ + class.main_of().token(),
{
    let mut url = String::from_str(API_LOCATION);
    url.append("/ability/map/");
    url.append(class.main_class().as_token());
    url
}

/// Where to ask for the ability tree of the main class of `class`.
pub fn abilitiy_tree_url(class: Class) -> (url: String)
    ensures
        url@ == API_LOCATION@ + "/ability/tree/"@ + class.main_of().token(),
{
    let mut url = String::from_str(API_LOCATION);
    url.append("/ability/tree/");
    url.append(class.main_class().as_token());
    url
}

/// Where to ask for the list of classes.
pub fn class_list_url() -> (url: String)
    ensures
        url@ == API_LOCATION@ + "/classes"@,
{
    let mut url = String::from_str(API_LOCATION);
    url.append("/classes");
    url
}

/// Where to ask for the main class of `class`.
pub fn class_info_url(class: Class) -> (url: String)
    ensures
        url@ == API_LOCATION@ + "/classes/"@ + class.main_of().token(),
{
    let mut url = String::from_str(API_LOCATION);
    url.append("/classes/");
    url.append(class.main_class().as_token());
    url
}

/// Where to ask for the guild named `guild_name`, its members named by `identifier`.
pub fn guild_by_name_url(guild_name: &str, identifier: Identifier) -> (url: String)
    ensures
        url@ == API_LOCATION@ + "/guild/"@ + guild_name@ + "?identifier="@ + identifier.token(),
{
    let mut url = String::from_str(API_LOCATION);
    url.append("/guild/");
    url.append(guild_name);
    url.append("?identifier=");
    url.append(identifier.as_token());
    url
}

/// Where to ask for the guild with the prefix `guild_prefix`, its members named by `identifier`.
pub fn guild_by_prefix_url(guild_prefix: &str, identifier: Identifier) -> (url: String)
    ensures
        url@ == API_LOCATION@ + "/guild/prefix/"@ + guild_prefix@ + "?identifier="@ + identifier.token(),
{
    let mut url = String::from_str(API_LOCATION);
    url.append("/guild/prefix/");
    url.append(guild_prefix);
    url.append("?identifier=");
    url.append(identifier.as_token());
    url
}

/// Where to ask for the list of all guilds.
pub fn guild_list_url() -> (url: String)
    ensures
        url@ == API_LOCATION@ + "/guild/list/guild"@,
{
    let mut url = String::from_str(API_LOCATION);
    url.append("/guild/list/guild");
    url
}

/// Where to ask for the list of all territories.
pub fn guild_teritories_url() -> (url: String)
    ensures
        url@ == API_LOCATION@ + "/guild/list/territory"@,
{
    let mut url = String::from_str(API_LOCATION);
    url.append("/guild/list/territory");
    url
}

/// Where to ask for the page `page` of the item database.
pub fn item_database_url(page: u64) -> (url: String)
    ensures
        url@ == API_LOCATION@ + "/item/database?page="@ + decimal_of(page as nat),
{
    let mut url = String::from_str(API_LOCATION);
    url.append("/item/database?page=");
    push_decimal(&mut url, page as u64);
    url
}

/// Where to ask for the whole item database.
pub fn item_database_full_url() -> (url: String)
    ensures
        url@ == API_LOCATION@ + "/item/database?fullResult"@,
{
    let mut url = String::from_str(API_LOCATION);
    url.append("/item/database?fullResult");
    url
}

/// Where to ask for a search for items, one page at a time.
pub fn search_item_url() -> (url: String)
    ensures
        url@ == API_LOCATION@ + "/item/search"@,
{
    let mut url = String::from_str(API_LOCATION);
    url.append("/item/search");
    url
}

/// Where to ask for a search for items, all at once.
pub fn search_item_full_url() -> (url: String)
    ensures
        url@ == API_LOCATION@ + "/item/search?fullResult"@,
{
    let mut url = String::from_str(API_LOCATION);
    url.append("/item/search?fullResult");
    url
}

/// Where to ask for the first `limit` entries of a leaderboard of guilds.
pub fn leaderboard_guild_url(player_profile: GuildLbType, limit: u16) -> (url: String)
    ensures
        url@ == API_LOCATION@
            + "/leaderboards/"@
            + player_profile.token()
            + "?resultLimit="@
            + decimal_of(limit as nat),
{
    let mut url = String::from_str(API_LOCATION);
    url.append("/leaderboards/");
    url.append(player_profile.as_token());
    url.append("?resultLimit=");
    push_decimal(&mut url, limit as u64);
    url
}

/// Where to ask for the first `limit` entries of a leaderboard of characters.
pub fn leaderboard_player_profile_url(player_profile: PlayerProfileLbType, limit: u16) -> (url: String)
    ensures
        url@ == API_LOCATION@
            + "/leaderboards/"@
            + player_profile.token()
            + "?resultLimit="@
            + decimal_of(limit as nat),
{
    let mut url = String::from_str(API_LOCATION);
    url.append("/leaderboards/");
    url.append(player_profile.as_token());
    url.append("?resultLimit=");
    push_decimal(&mut url, limit as u64);
    url
}

/// Where to ask for the first `limit` entries of a leaderboard of players.
pub fn leaderboard_player_global_url(player_global: PlayerGlobalLbType, limit: u16) -> (url: String)
    ensures
        url@ == API_LOCATION@
            + "/leaderboards/"@
            + player_global.token()
            + "?resultLimit="@
            + decimal_of(limit as nat),
{
    let mut url = String::from_str(API_LOCATION);
    url.append("/leaderboards/");
    url.append(player_global.as_token());
    url.append("?resultLimit=");
    push_decimal(&mut url, limit as u64);
    url
}

/// Where to ask for the first `limit` entries of a raid leaderboard of players.
pub fn leaderboard_raid_player_url(player_raid: RaidPlayerLbType, limit: u16) -> (url: String)
    ensures
        url@ == API_LOCATION@ + "/leaderboards/"@ + player_raid.token() + "?resultLimit="@ + decimal_of(limit as nat),
{
    let mut url = String::from_str(API_LOCATION);
    url.append("/leaderboards/");
    url.append(player_raid.as_token());
    url.append("?resultLimit=");
    push_decimal(&mut url, limit as u64);
    url
}

/// Where to ask for the first `limit` entries of a raid leaderboard of guilds.
pub fn leaderboard_raid_guild_url(guild_raid: RaidGuildLbType, limit: u16) -> (url: String)
    ensures
        url@ == API_LOCATION@ + "/leaderboards/"@ + guild_raid.token() + "?resultLimit="@ + decimal_of(limit as nat),
{
    let mut url = String::from_str(API_LOCATION);
    url.append("/leaderboards/");
    url.append(guild_raid.as_token());
    url.append("?resultLimit=");
    push_decimal(&mut url, limit as u64);
    url
}

/// Where to ask for the markers of the map.
pub fn marker_locations_url() -> (url: String)
    ensures
        url@ == API_LOCATION@ + "/map/locations/markers"@,
{
    let mut url = String::from_str(API_LOCATION);
    url.append("/map/locations/markers");
    url
}

/// Where to ask for where the players are.
pub fn player_location_url() -> (url: String)
    ensures
        url@ == API_LOCATION@ + "/map/locations/player"@,
{
    let mut url = String::from_str(API_LOCATION);
    url.append("/map/locations/player");
    url
}

/// Where to ask for the number of quests.
pub fn quest_count_url() -> (url: String)
    ensures
        url@ == API_LOCATION@ + "/map/quests"@,
{
    let mut url = String::from_str(API_LOCATION);
    url.append("/map/quests");
    url
}

/// Where to ask for the latest news.
pub fn latest_news_url() -> (url: String)
    ensures
        url@ == API_LOCATION@ + "/latest-news"@,
{
    let mut url = String::from_str(API_LOCATION);
    url.append("/latest-news");
    url
}

/// Where to ask for the player `name_or_uuid`.
pub fn player_main_stats_url(name_or_uuid: &str) -> (url: String)
    ensures
        url@ == API_LOCATION@ + "/player/"@ + name_or_uuid@,
{
    let mut url = String::from_str(API_LOCATION);
    url.append("/player/");
    url.append(name_or_uuid);
    url
}

/// Where to ask for the player `name_or_uuid` with all characters.
pub fn player_full_stats_url(name_or_uuid: &str) -> (url: String)
    ensures
        url@ == API_LOCATION@ + "/player/"@ + name_or_uuid@ + "?fullResult"@,
{
    let mut url = String::from_str(API_LOCATION);
    url.append("/player/");
    url.append(name_or_uuid);
    url.append("?fullResult");
    url
}

/// Where to ask for the characters of the player `name_or_uuid`.
pub fn player_character_list_url(name_or_uuid: &str) -> (url: String)
    ensures
        url@ == API_LOCATION@ + "/player/"@ + name_or_uuid@ + "/characters"@,
{
    let mut url = String::from_str(API_LOCATION);
    url.append("/player/");
    url.append(name_or_uuid);
    url.append("/characters");
    url
}

/// Where to ask for the character `character_uuid` of the player `name_or_uuid`.
pub fn player_character_data_url(name_or_uuid: &str, character_uuid: &str) -> (url: String)
    ensures
        url@ == API_LOCATION@ + "/player/"@ + name_or_uuid@ + "/characters/"@ + character_uuid@,
{
    let mut url = String::from_str(API_LOCATION);
    url.append("/player/");
    url.append(name_or_uuid);
    url.append("/characters/");
    url.append(character_uuid);
    url
}

/// Where to ask for the abilities of the character `character_uuid` of the player `name_or_uuid`.
pub fn player_character_abilities_url(name_or_uuid: &str, character_uuid: &str) -> (url: String)
    ensures
        url@ == API_LOCATION@ + "/player/"@ + name_or_uuid@ + "/characters/"@ + character_uuid@ + "/abilities"@,
{
    let mut url = String::from_str(API_LOCATION);
    url.append("/player/");
    url.append(name_or_uuid);
    url.append("/characters/");
    url.append(character_uuid);
    url.append("/abilities");
    url
}

/// Where to ask for the players that are online on the worlds `servers`, named by `identifier`.
pub fn online_player_list_url(identifier: Identifier, servers: &[World]) -> (url: String)
    ensures
        url@ == API_LOCATION@
            + "/player?identifier="@
            + identifier.token()
            + "&server="@
            + numbers_of(servers@, servers@.len() as int),
{
    let mut url = String::from_str(API_LOCATION);
    url.append("/player?identifier=");
    url.append(identifier.as_token());
    url.append("&server=");
    push_numbers(&mut url, servers);
    url
}

/// Where to ask for a search for `query`.
pub fn search_url(query: &str) -> (url: String)
    ensures
        url@ == API_LOCATION@ + "/search/"@ + query@,
{
    let mut url = String::from_str(API_LOCATION);
    url.append("/search/");
    url.append(query);
    url
}

} // verus!
