use axolotl_client_api::hypixel::json::{count, Json, Number};
use axolotl_client_api::hypixel::stats::{
    bedwars_level, capped_sum, child, text, BedwarsData, BedwarsGameData, CombinedBedwarsGameData, DuelsData,
    DuelsGameData, PlayerData, SkywarsData, SkywarsGameData, SkywarsMegaModeData, SkywarsModeData,
};

fn num(n: u64) -> Json {
    Json::Number(Number::Unsigned(n))
}

fn obj(members: Vec<(&str, Json)>) -> Json {
    Json::Object(members.into_iter().map(|(k, v)| (k.to_string(), v)).collect())
}

fn player() -> Json {
    obj(vec![
        ("displayname", Json::Text("Steve".to_string())),
        ("karma", Json::Number(Number::Negative(-5))),
        ("rank", Json::Text("NORMAL".to_string())),
        ("newPackageRank", Json::Text("MVP_PLUS".to_string())),
        ("packageRank", Json::Text("VIP".to_string())),
        ("rankPlusColor", Json::Text("DARK_GREEN".to_string())),
        ("achievements", obj(vec![("bedwars_level", num(123))])),
        (
            "stats",
            obj(vec![
                (
                    "Bedwars",
                    obj(vec![
                        ("kills_bedwars", num(100)),
                        ("eight_one_kills_bedwars", num(1)),
                        ("eight_two_kills_bedwars", num(2)),
                        ("four_three_kills_bedwars", num(3)),
                        ("four_four_kills_bedwars", num(4)),
                        ("two_four_kills_bedwars", num(50)),
                        ("eight_one_winstreak", num(9)),
                        ("castle_beds_lost_bedwars", num(7)),
                        ("four_four_swap_beds_lost_bedwars", num(8)),
                        ("eight_two_rush_beds_lost_bedwars", Json::Text("many".to_string())),
                        ("eight_one_final_deaths_bedwars", num(u64::MAX)),
                        ("eight_two_final_deaths_bedwars", num(1)),
                    ]),
                ),
                (
                    "SkyWars",
                    obj(vec![
                        ("levelFormatted", Json::Text("§7⋆12".to_string())),
                        ("skywars_experience", num(4500)),
                        ("win_streak", num(3)),
                        ("kills_solo_normal", num(1)),
                        ("kills_solo_insane", num(2)),
                        ("kills_team_normal", num(4)),
                        ("kills_team_insane", num(8)),
                        ("kills_mega_normal", num(16)),
                        ("kills_mega_doubles", num(32)),
                        ("kills_ranked_normal", num(64)),
                        ("losses_team_insane", num(5)),
                    ]),
                ),
                (
                    "Duels",
                    obj(vec![
                        ("current_winstreak_mode_uhc_duel", num(2)),
                        ("uhc_duel_kills", num(10)),
                        ("uhc_duel_deaths", num(11)),
                        ("uhc_duel_wins", num(12)),
                        ("uhc_duel_losses", num(13)),
                        ("current_winstreak", num(99)),
                        ("current_winstreak_mode_sumo_duel", num(0)),
                        ("sumo_duel_wins", num(1)),
                    ]),
                ),
            ]),
        ),
    ])
}

#[test]
fn members_are_found_by_name() {
    let record = player();
    assert_eq!(record.get("displayname").and_then(|v| v.as_str()), Some("Steve"));
    assert!(record.get("missing").is_none());
    assert!(Json::Null.get("displayname").is_none());
    assert_eq!(record.get("karma").and_then(|v| v.as_i64()), Some(-5));
    assert_eq!(record.get("karma").and_then(|v| v.as_u64()), None);
    assert_eq!(num(7).as_i64(), Some(7));
    assert_eq!(num(u64::MAX).as_i64(), None);
    assert_eq!(Json::Number(Number::Float(0)).as_u64(), None);
    assert!(record.is_object());
    assert!(!num(1).is_object());
    assert_eq!(count(child(record.get("stats"), "Bedwars"), "kills_bedwars"), 100);
    assert_eq!(count(None, "kills_bedwars"), 0);
    assert_eq!(text(Some(&record), "rank"), Some("NORMAL"));
    assert_eq!(text(Some(&record), "karma"), None);
    let twice = obj(vec![("a", num(1)), ("a", num(2))]);
    assert_eq!(count(Some(&twice), "a"), 1);
}

#[test]
fn sums_are_capped() {
    assert_eq!(capped_sum(2, 3), 5);
    assert_eq!(capped_sum(u64::MAX, 1), u64::MAX);
    assert_eq!(capped_sum(u64::MAX - 1, 1), u64::MAX);
}

#[test]
fn bedwars_modes_are_read_by_prefix() {
    let record = player();
    let stats = child(record.get("stats"), "Bedwars");
    let solo = BedwarsGameData::of("eight_one_", stats);
    assert_eq!(solo.kills, 1);
    assert_eq!(solo.winstreak, 9);
    assert_eq!(solo.final_deaths, u64::MAX);
    assert_eq!(solo.deaths, 0);
    let all = BedwarsGameData::of("", stats);
    assert_eq!(all.kills, 100);
    assert_eq!(BedwarsGameData::of("eight_one_", None).kills, 0);
}

#[test]
fn bedwars_data_combines_core_and_dream_modes() {
    let data = BedwarsData::of(&player());
    assert_eq!(data.level, 123);
    assert_eq!(data.all.kills, 100);
    assert_eq!(data.solo.kills, 1);
    assert_eq!(data.doubles.kills, 2);
    assert_eq!(data.trios.kills, 3);
    assert_eq!(data.fours.kills, 4);
    assert_eq!(data.four_v_four.kills, 50);
    assert_eq!(data.core.kills, 10);
    assert_eq!(data.core.final_deaths, u64::MAX);
    assert_eq!(data.core.deaths, 0);
    assert_eq!(data.castle.beds_lost, 7);
    assert_eq!(data.fours_swap.beds_lost, 8);
    assert_eq!(data.doubles_rush.beds_lost, 0);
    assert_eq!(data.dreams.beds_lost, 15);
    assert_eq!(data.dreams.kills, 0);
    assert_eq!(bedwars_level(&Json::Null), -1);
    assert_eq!(BedwarsData::of(&Json::Null).level, -1);
    assert_eq!(BedwarsData::of(&Json::Null).core.kills, 0);
}

#[test]
fn combined_figures_add_up_in_order() {
    let one = BedwarsGameData {
        kills: 1,
        deaths: 2,
        wins: 3,
        losses: 4,
        winstreak: 5,
        final_kills: 6,
        final_deaths: 7,
        beds_broken: 8,
        beds_lost: 9,
    };
    let sum = CombinedBedwarsGameData::of(&vec![one, one, one]);
    assert_eq!(
        sum,
        CombinedBedwarsGameData {
            kills: 3,
            deaths: 6,
            wins: 9,
            losses: 12,
            final_kills: 18,
            final_deaths: 21,
            beds_broken: 24,
            beds_lost: 27,
        }
    );
    assert_eq!(CombinedBedwarsGameData::of(&vec![]).kills, 0);
}

#[test]
fn skywars_data_combines_its_modes() {
    let record = player();
    let stats = child(record.get("stats"), "SkyWars");
    assert_eq!(SkywarsGameData::of(stats, "_solo_normal").kills, 1);
    assert_eq!(SkywarsModeData::of(stats, "_team").insane.kills, 8);
    assert_eq!(SkywarsModeData::of(stats, "_team").insane.losses, 5);
    assert_eq!(SkywarsMegaModeData::of(stats).doubles.kills, 32);
    let data = SkywarsData::of(&record);
    assert_eq!(data.level, "§7⋆12");
    assert_eq!(data.exp, 4500);
    assert_eq!(data.winstreak, 3);
    assert_eq!(data.core.kills, 15);
    assert_eq!(data.core.losses, 5);
    assert_eq!(data.all.kills, 127);
    assert_eq!(data.ranked.kills, 64);
    assert_eq!(data.solo.normal.kills, 1);
    assert_eq!(data.mega.normal.kills, 16);
    let empty = SkywarsData::of(&Json::Null);
    assert_eq!(empty.level, "");
    assert_eq!(empty.all.kills, 0);
    assert_eq!(
        SkywarsGameData { kills: u64::MAX, deaths: 1, wins: 2, losses: 3 }
            .plus(SkywarsGameData { kills: 5, deaths: 1, wins: 2, losses: 3 }),
        SkywarsGameData { kills: u64::MAX, deaths: 2, wins: 4, losses: 6 }
    );
}

#[test]
fn duels_modes_are_told_by_their_streak_entry() {
    let data = DuelsData::of(&player());
    assert_eq!(data.modes.len(), 2);
    assert_eq!(data.modes[0].0, "uhc_duel");
    assert_eq!(data.modes[0].1, DuelsGameData { kills: 10, deaths: 11, wins: 12, losses: 13, winstreak: 2 });
    assert_eq!(data.modes[1].0, "sumo_duel");
    assert_eq!(data.modes[1].1, DuelsGameData { kills: 0, deaths: 0, wins: 1, losses: 0, winstreak: 0 });
    assert!(DuelsData::of(&Json::Null).modes.is_empty());
    let odd = obj(vec![("stats", obj(vec![("Duels", num(3))]))]);
    assert!(DuelsData::of(&odd).modes.is_empty());
}

#[test]
fn player_data_gathers_the_record() {
    let data = PlayerData::of(&player());
    assert_eq!(data.name, "Steve");
    assert_eq!(data.karma, -5);
    assert_eq!(data.rank, "MVP_PLUS");
    assert_eq!(data.rank_formatted, "§b[MVP§2+§b]");
    assert_eq!(data.bedwars.level, 123);
    assert_eq!(data.skywars.exp, 4500);
    assert_eq!(data.duels.modes.len(), 2);
    let nobody = PlayerData::of(&Json::Null);
    assert_eq!(nobody.name, "");
    assert_eq!(nobody.karma, 0);
    assert_eq!(nobody.rank, "NORMAL");
    assert_eq!(nobody.rank_formatted, "§7");
}

#[test]
fn names_of_an_object_are_checked_for_doubles() {
    assert!(player().names_distinct());
    assert!(Json::Null.names_distinct());
    assert!(obj(vec![]).names_distinct());
    assert!(!obj(vec![("a", num(1)), ("b", num(2)), ("a", num(3))]).names_distinct());
    assert!(obj(vec![("a", num(1)), ("b", obj(vec![("x", num(1)), ("x", num(2))]))]).names_distinct());
}
