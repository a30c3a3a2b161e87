//! The figures that are shown of a player's record, game by game.

use crate::hypixel::json::{count, distinct_names, spec_count, Json};
use crate::hypixel::rank::Rank;
use crate::text::after_prefix;
use vstd::prelude::*;
use vstd::string::StringExecFns;

verus! {

/// The sum of two counts, or the largest count where the sum does not fit.
pub open spec fn spec_capped_sum(a: u64, b: u64) -> u64 {
    if a + b > u64::MAX {
        u64::MAX
    } else {
        (a + b) as u64
    }
}

pub fn capped_sum(a: u64, b: u64) -> (r: u64)
    ensures
        r == spec_capped_sum(a, b),
{
    if b > u64::MAX - a {
        u64::MAX
    } else {
        a + b
    }
}

/// What `object` holds under `name`, where it is an object and holds it.
pub open spec fn spec_child(object: Option<Json>, name: Seq<char>) -> Option<Json> {
    match object {
        Some(value) => value.spec_get(name),
        None => None,
    }
}

/// What `object` holds under `name`, where it is an object and holds it.
pub fn child<'a>(object: Option<&'a Json>, name: &str) -> (r: Option<&'a Json>)
    ensures
        plain(r) == spec_child(plain(object), name@),
{
    match object {
        Some(value) => value.get(name),
        None => None,
    }
}

/// The value behind a reference that may be there.
pub open spec fn plain(value: Option<&Json>) -> Option<Json> {
    match value {
        Some(json) => Some(*json),
        None => None,
    }
}

/// The figures of one mode of Bedwars.
#[derive(Clone, Copy, Debug, PartialEq, Eq, Structural)]
pub struct BedwarsGameData {
    pub kills: u64,
    pub deaths: u64,
    pub wins: u64,
    pub losses: u64,
    pub winstreak: u64,
    pub final_kills: u64,
    pub final_deaths: u64,
    pub beds_broken: u64,
    pub beds_lost: u64,
}

/// The figures of several modes of Bedwars taken together.
#[derive(Clone, Copy, Debug, PartialEq, Eq, Structural)]
pub struct CombinedBedwarsGameData {
    pub kills: u64,
    pub deaths: u64,
    pub wins: u64,
    pub losses: u64,
    pub final_kills: u64,
    pub final_deaths: u64,
    pub beds_broken: u64,
    pub beds_lost: u64,
}

impl BedwarsGameData {
    /// The figures that the Bedwars part of a record holds for the mode
    /// whose entries start with `prefix`. A figure that is missing counts
    /// as zero.
    pub open spec fn spec_of(prefix: Seq<char>, stats: Option<Json>) -> BedwarsGameData {
        BedwarsGameData {
            kills: spec_count(stats, prefix + "kills_bedwars"@),
            deaths: spec_count(stats, prefix + "deaths_bedwars"@),
            wins: spec_count(stats, prefix + "wins_bedwars"@),
            losses: spec_count(stats, prefix + "losses_bedwars"@),
            winstreak: spec_count(stats, prefix + "winstreak"@),
            final_kills: spec_count(stats, prefix + "final_kills_bedwars"@),
            final_deaths: spec_count(stats, prefix + "final_deaths_bedwars"@),
            beds_broken: spec_count(stats, prefix + "beds_broken_bedwars"@),
            beds_lost: spec_count(stats, prefix + "beds_lost_bedwars"@),
        }
    }

    pub fn of(prefix: &str, stats: Option<&Json>) -> (r: BedwarsGameData)
        ensures
            r == BedwarsGameData::spec_of(prefix@, plain(stats)),
    {
        BedwarsGameData {
            kills: count(stats, prefix.to_owned().concat("kills_bedwars").as_str()),
            deaths: count(stats, prefix.to_owned().concat("deaths_bedwars").as_str()),
            wins: count(stats, prefix.to_owned().concat("wins_bedwars").as_str()),
            losses: count(stats, prefix.to_owned().concat("losses_bedwars").as_str()),
            winstreak: count(stats, prefix.to_owned().concat("winstreak").as_str()),
            final_kills: count(stats, prefix.to_owned().concat("final_kills_bedwars").as_str()),
            final_deaths: count(stats, prefix.to_owned().concat("final_deaths_bedwars").as_str()),
            beds_broken: count(stats, prefix.to_owned().concat("beds_broken_bedwars").as_str()),
            beds_lost: count(stats, prefix.to_owned().concat("beds_lost_bedwars").as_str()),
        }
    }
}

impl CombinedBedwarsGameData {
    /// Nothing counted yet.
    pub open spec fn zero() -> CombinedBedwarsGameData {
        CombinedBedwarsGameData {
            kills: 0,
            deaths: 0,
            wins: 0,
            losses: 0,
            final_kills: 0,
            final_deaths: 0,
            beds_broken: 0,
            beds_lost: 0,
        }
    }

    /// These figures with those of one more mode added, figure by figure.
    pub open spec fn plus(self, mode: BedwarsGameData) -> CombinedBedwarsGameData {
        CombinedBedwarsGameData {
            kills: spec_capped_sum(self.kills, mode.kills),
            deaths: spec_capped_sum(self.deaths, mode.deaths),
            wins: spec_capped_sum(self.wins, mode.wins),
            losses: spec_capped_sum(self.losses, mode.losses),
            final_kills: spec_capped_sum(self.final_kills, mode.final_kills),
            final_deaths: spec_capped_sum(self.final_deaths, mode.final_deaths),
            beds_broken: spec_capped_sum(self.beds_broken, mode.beds_broken),
            beds_lost: spec_capped_sum(self.beds_lost, mode.beds_lost),
        }
    }

    /// The figures of `modes` taken together, added in their order.
    pub open spec fn spec_of(modes: Seq<BedwarsGameData>) -> CombinedBedwarsGameData
        decreases modes.len(),
    {
        if modes.len() == 0 {
            CombinedBedwarsGameData::zero()
        } else {
            CombinedBedwarsGameData::spec_of(modes.drop_last()).plus(modes.last())
        }
    }

    pub fn of(modes: &Vec<BedwarsGameData>) -> (r: CombinedBedwarsGameData)
        ensures
            r == CombinedBedwarsGameData::spec_of(modes@),
    {
        let mut sum = CombinedBedwarsGameData {
            kills: 0,
            deaths: 0,
            wins: 0,
            losses: 0,
            final_kills: 0,
            final_deaths: 0,
            beds_broken: 0,
            beds_lost: 0,
        };
        let mut i: usize = 0;
        assert(modes@.subrange(0, 0) =~= Seq::<BedwarsGameData>::empty());
        while i < modes.len()
            invariant
                i <= modes.len(),
                sum == CombinedBedwarsGameData::spec_of(modes@.subrange(0, i as int)),
            decreases modes.len() - i,
        {
            let mode = modes[i];
            assert(modes@.subrange(0, i + 1).drop_last() =~= modes@.subrange(0, i as int));
            sum = CombinedBedwarsGameData {
                kills: capped_sum(sum.kills, mode.kills),
                deaths: capped_sum(sum.deaths, mode.deaths),
                wins: capped_sum(sum.wins, mode.wins),
                losses: capped_sum(sum.losses, mode.losses),
                final_kills: capped_sum(sum.final_kills, mode.final_kills),
                final_deaths: capped_sum(sum.final_deaths, mode.final_deaths),
                beds_broken: capped_sum(sum.beds_broken, mode.beds_broken),
                beds_lost: capped_sum(sum.beds_lost, mode.beds_lost),
            };
            i = i + 1;
        }
        assert(modes@.subrange(0, i as int) =~= modes@);
        sum
    }
}

/// What is shown of a player's Bedwars games.
#[derive(Clone, Copy, Debug, PartialEq, Eq, Structural)]
pub struct BedwarsData {
    pub level: i64,
    pub all: BedwarsGameData,
    pub core: CombinedBedwarsGameData,
    pub solo: BedwarsGameData,
    pub doubles: BedwarsGameData,
    pub trios: BedwarsGameData,
    pub fours: BedwarsGameData,
    pub four_v_four: BedwarsGameData,
    pub dreams: CombinedBedwarsGameData,
    pub castle: BedwarsGameData,
    pub doubles_lucky: BedwarsGameData,
    pub fours_lucky: BedwarsGameData,
    pub doubles_ultimate: BedwarsGameData,
    pub fours_ultimate: BedwarsGameData,
    pub doubles_armed: BedwarsGameData,
    pub fours_armed: BedwarsGameData,
    pub doubles_rush: BedwarsGameData,
    pub fours_rush: BedwarsGameData,
    pub doubles_swap: BedwarsGameData,
    pub fours_swap: BedwarsGameData,
}

/// The Bedwars level that a record holds among its achievements, or -1.
pub open spec fn spec_bedwars_level(player: Json) -> i64 {
    match spec_child(player.spec_get("achievements"@), "bedwars_level"@) {
        Some(level) => match level.spec_as_i64() {
            Some(n) => n,
            None => -1i64,
        },
        None => -1i64,
    }
}

/// The Bedwars level that a record holds among its achievements, or -1.
pub fn bedwars_level(player: &Json) -> (r: i64)
    ensures
        r == spec_bedwars_level(*player),
{
    match child(player.get("achievements"), "bedwars_level") {
        Some(level) => match level.as_i64() {
            Some(n) => n,
            None => -1,
        },
        None => -1,
    }
}

impl BedwarsData {
    /// What a record shows of Bedwars: the figures of each mode, and the
    /// four core modes and the eleven dream modes taken together.
    pub open spec fn spec_of(player: Json) -> BedwarsData {
        let stats = spec_child(player.spec_get("stats"@), "Bedwars"@);
        let solo = BedwarsGameData::spec_of("eight_one_"@, stats);
        let doubles = BedwarsGameData::spec_of("eight_two_"@, stats);
        let trios = BedwarsGameData::spec_of("four_three_"@, stats);
        let fours = BedwarsGameData::spec_of("four_four_"@, stats);
        let castle = BedwarsGameData::spec_of("castle_"@, stats);
        let doubles_lucky = BedwarsGameData::spec_of("eight_two_lucky_"@, stats);
        let fours_lucky = BedwarsGameData::spec_of("four_four_lucky_"@, stats);
        let doubles_ultimate = BedwarsGameData::spec_of("eight_two_ultimate_"@, stats);
        let fours_ultimate = BedwarsGameData::spec_of("four_four_ultimate_"@, stats);
        let doubles_armed = BedwarsGameData::spec_of("eight_two_armed_"@, stats);
        let fours_armed = BedwarsGameData::spec_of("four_four_armed_"@, stats);
        let doubles_rush = BedwarsGameData::spec_of("eight_two_rush_"@, stats);
        let fours_rush = BedwarsGameData::spec_of("four_four_rush_"@, stats);
        let doubles_swap = BedwarsGameData::spec_of("eight_two_swap_"@, stats);
        let fours_swap = BedwarsGameData::spec_of("four_four_swap_"@, stats);
        BedwarsData {
            level: spec_bedwars_level(player),
            all: BedwarsGameData::spec_of(""@, stats),
            core: CombinedBedwarsGameData::spec_of(seq![solo, doubles, trios, fours]),
            solo,
            doubles,
            trios,
            fours,
            four_v_four: BedwarsGameData::spec_of("two_four_"@, stats),
            dreams: CombinedBedwarsGameData::spec_of(
                seq![
                    castle,
                    doubles_lucky,
                    fours_lucky,
                    doubles_ultimate,
                    fours_ultimate,
                    doubles_armed,
                    fours_armed,
                    doubles_rush,
                    fours_rush,
                    doubles_swap,
                    fours_swap,
                ],
            ),
            castle,
            doubles_lucky,
            fours_lucky,
            doubles_ultimate,
            fours_ultimate,
            doubles_armed,
            fours_armed,
            doubles_rush,
            fours_rush,
            doubles_swap,
            fours_swap,
        }
    }

    pub fn of(player: &Json) -> (r: BedwarsData)
        ensures
            r == BedwarsData::spec_of(*player),
    {
        let stats = child(player.get("stats"), "Bedwars");
        let solo = BedwarsGameData::of("eight_one_", stats);
        let doubles = BedwarsGameData::of("eight_two_", stats);
        let trios = BedwarsGameData::of("four_three_", stats);
        let fours = BedwarsGameData::of("four_four_", stats);
        let four_v_four = BedwarsGameData::of("two_four_", stats);
        let castle = BedwarsGameData::of("castle_", stats);
        let doubles_lucky = BedwarsGameData::of("eight_two_lucky_", stats);
        let fours_lucky = BedwarsGameData::of("four_four_lucky_", stats);
        let doubles_ultimate = BedwarsGameData::of("eight_two_ultimate_", stats);
        let fours_ultimate = BedwarsGameData::of("four_four_ultimate_", stats);
        let doubles_armed = BedwarsGameData::of("eight_two_armed_", stats);
        let fours_armed = BedwarsGameData::of("four_four_armed_", stats);
        let doubles_rush = BedwarsGameData::of("eight_two_rush_", stats);
        let fours_rush = BedwarsGameData::of("four_four_rush_", stats);
        let doubles_swap = BedwarsGameData::of("eight_two_swap_", stats);
        let fours_swap = BedwarsGameData::of("four_four_swap_", stats);
        let core_modes = vec![solo, doubles, trios, fours];
        let dream_modes = vec![
            castle,
            doubles_lucky,
            fours_lucky,
            doubles_ultimate,
            fours_ultimate,
            doubles_armed,
            fours_armed,
            doubles_rush,
            fours_rush,
            doubles_swap,
            fours_swap,
        ];
        assert(core_modes@ =~= seq![solo, doubles, trios, fours]);
        assert(dream_modes@ =~= seq![
            castle,
            doubles_lucky,
            fours_lucky,
            doubles_ultimate,
            fours_ultimate,
            doubles_armed,
            fours_armed,
            doubles_rush,
            fours_rush,
            doubles_swap,
            fours_swap,
        ]);
        BedwarsData {
            level: bedwars_level(player),
            all: BedwarsGameData::of("", stats),
            core: CombinedBedwarsGameData::of(&core_modes),
            solo,
            doubles,
            trios,
            fours,
            four_v_four,
            dreams: CombinedBedwarsGameData::of(&dream_modes),
            castle,
            doubles_lucky,
            fours_lucky,
            doubles_ultimate,
            fours_ultimate,
            doubles_armed,
            fours_armed,
            doubles_rush,
            fours_rush,
            doubles_swap,
            fours_swap,
        }
    }
}

/// The figures of one mode of Skywars.
#[derive(Clone, Copy, Debug, PartialEq, Eq, Structural)]
pub struct SkywarsGameData {
    pub kills: u64,
    pub deaths: u64,
    pub wins: u64,
    pub losses: u64,
}

impl SkywarsGameData {
    /// The figures that the Skywars part of a record holds for the mode
    /// whose entries end with `suffix`.
    pub open spec fn spec_of(stats: Option<Json>, suffix: Seq<char>) -> SkywarsGameData {
        SkywarsGameData {
            kills: spec_count(stats, "kills"@ + suffix),
            deaths: spec_count(stats, "deaths"@ + suffix),
            wins: spec_count(stats, "wins"@ + suffix),
            losses: spec_count(stats, "losses"@ + suffix),
        }
    }

    pub fn of(stats: Option<&Json>, suffix: &str) -> (r: SkywarsGameData)
        ensures
            r == SkywarsGameData::spec_of(plain(stats), suffix@),
    {
        SkywarsGameData {
            kills: count(stats, "kills".to_owned().concat(suffix).as_str()),
            deaths: count(stats, "deaths".to_owned().concat(suffix).as_str()),
            wins: count(stats, "wins".to_owned().concat(suffix).as_str()),
            losses: count(stats, "losses".to_owned().concat(suffix).as_str()),
        }
    }

    /// These figures and those of another mode added, figure by figure.
    pub open spec fn spec_plus(self, other: SkywarsGameData) -> SkywarsGameData {
        SkywarsGameData {
            kills: spec_capped_sum(self.kills, other.kills),
            deaths: spec_capped_sum(self.deaths, other.deaths),
            wins: spec_capped_sum(self.wins, other.wins),
            losses: spec_capped_sum(self.losses, other.losses),
        }
    }

    pub fn plus(self, other: SkywarsGameData) -> (r: SkywarsGameData)
        ensures
            r == self.spec_plus(other),
    {
        SkywarsGameData {
            kills: capped_sum(self.kills, other.kills),
            deaths: capped_sum(self.deaths, other.deaths),
            wins: capped_sum(self.wins, other.wins),
            losses: capped_sum(self.losses, other.losses),
        }
    }
}

/// The figures of a kind of Skywars in its two degrees of difficulty.
#[derive(Clone, Copy, Debug, PartialEq, Eq, Structural)]
pub struct SkywarsModeData {
    pub normal: SkywarsGameData,
    pub insane: SkywarsGameData,
}

impl SkywarsModeData {
    pub open spec fn spec_of(stats: Option<Json>, suffix: Seq<char>) -> SkywarsModeData {
        SkywarsModeData {
            normal: SkywarsGameData::spec_of(stats, suffix + "_normal"@),
            insane: SkywarsGameData::spec_of(stats, suffix + "_insane"@),
        }
    }

    pub fn of(stats: Option<&Json>, suffix: &str) -> (r: SkywarsModeData)
        ensures
            r == SkywarsModeData::spec_of(plain(stats), suffix@),
    {
        SkywarsModeData {
            normal: SkywarsGameData::of(stats, suffix.to_owned().concat("_normal").as_str()),
            insane: SkywarsGameData::of(stats, suffix.to_owned().concat("_insane").as_str()),
        }
    }
}

/// The figures of the two kinds of Skywars with large teams.
#[derive(Clone, Copy, Debug, PartialEq, Eq, Structural)]
pub struct SkywarsMegaModeData {
    pub normal: SkywarsGameData,
    pub doubles: SkywarsGameData,
}

impl SkywarsMegaModeData {
    pub open spec fn spec_of(stats: Option<Json>) -> SkywarsMegaModeData {
        SkywarsMegaModeData {
            normal: SkywarsGameData::spec_of(stats, "_mega_normal"@),
            doubles: SkywarsGameData::spec_of(stats, "_mega_doubles"@),
        }
    }

    pub fn of(stats: Option<&Json>) -> (r: SkywarsMegaModeData)
        ensures
            r == SkywarsMegaModeData::spec_of(plain(stats)),
    {
        SkywarsMegaModeData {
            normal: SkywarsGameData::of(stats, "_mega_normal"),
            doubles: SkywarsGameData::of(stats, "_mega_doubles"),
        }
    }
}

/// What is shown of a player's Skywars games.
#[derive(Clone, Debug, PartialEq, Eq)]
pub struct SkywarsData {
    pub level: String,
    pub exp: u64,
    pub all: SkywarsGameData,
    pub core: SkywarsGameData,
    pub solo: SkywarsModeData,
    pub team: SkywarsModeData,
    pub mega: SkywarsMegaModeData,
    pub ranked: SkywarsGameData,
    pub winstreak: u64,
}

/// The text under `name` in `object`, where there is text.
pub open spec fn spec_text(object: Option<Json>, name: Seq<char>) -> Option<Seq<char>> {
    match spec_child(object, name) {
        Some(value) => value.spec_as_str(),
        None => None,
    }
}

/// The text under `name` in `object`, where there is text.
pub fn text<'a>(object: Option<&'a Json>, name: &str) -> (r: Option<&'a str>)
    ensures
        match r {
            Some(found) => spec_text(plain(object), name@) == Some(found@),
            None => spec_text(plain(object), name@) is None,
        },
{
    match child(object, name) {
        Some(value) => value.as_str(),
        None => None,
    }
}

/// The text given, or no text at all where none is given.
pub open spec fn or_empty(text: Option<Seq<char>>) -> Seq<char> {
    match text {
        Some(found) => found,
        None => Seq::empty(),
    }
}

fn owned_or_empty(text: Option<&str>) -> (r: String)
    ensures
        r@ == or_empty(
            match text {
                Some(found) => Some(found@),
                None => None,
            },
        ),
{
    match text {
        Some(found) => found.to_owned(),
        None => String::new(),
    }
}

impl SkywarsData {
    /// The core modes taken together: both degrees of the solo and of the
    /// team kind.
    pub open spec fn spec_core(stats: Option<Json>) -> SkywarsGameData {
        let solo = SkywarsModeData::spec_of(stats, "_solo"@);
        let team = SkywarsModeData::spec_of(stats, "_team"@);
        solo.normal.spec_plus(solo.insane).spec_plus(team.normal).spec_plus(team.insane)
    }

    /// All modes taken together: the core modes, the two with large teams
    /// and the ranked one.
    pub open spec fn spec_all(stats: Option<Json>) -> SkywarsGameData {
        let mega = SkywarsMegaModeData::spec_of(stats);
        SkywarsData::spec_core(stats).spec_plus(mega.normal).spec_plus(mega.doubles).spec_plus(
            SkywarsGameData::spec_of(stats, "_ranked_normal"@),
        )
    }

    /// Whether `data` is what the record shows of Skywars.
    pub open spec fn shows(data: SkywarsData, player: Json) -> bool {
        let stats = spec_child(player.spec_get("stats"@), "SkyWars"@);
        &&& data.level@ == or_empty(spec_text(stats, "levelFormatted"@))
        &&& data.exp == spec_count(stats, "skywars_experience"@)
        &&& data.all == SkywarsData::spec_all(stats)
        &&& data.core == SkywarsData::spec_core(stats)
        &&& data.solo == SkywarsModeData::spec_of(stats, "_solo"@)
        &&& data.team == SkywarsModeData::spec_of(stats, "_team"@)
        &&& data.mega == SkywarsMegaModeData::spec_of(stats)
        &&& data.ranked == SkywarsGameData::spec_of(stats, "_ranked_normal"@)
        &&& data.winstreak == spec_count(stats, "win_streak"@)
    }

    pub fn of(player: &Json) -> (r: SkywarsData)
        ensures
            SkywarsData::shows(r, *player),
    {
        let stats = child(player.get("stats"), "SkyWars");
        let solo = SkywarsModeData::of(stats, "_solo");
        let team = SkywarsModeData::of(stats, "_team");
        let mega = SkywarsMegaModeData::of(stats);
        let core = solo.normal.plus(solo.insane).plus(team.normal).plus(team.insane);
        let ranked = SkywarsGameData::of(stats, "_ranked_normal");
        SkywarsData {
            level: owned_or_empty(text(stats, "levelFormatted")),
            exp: count(stats, "skywars_experience"),
            all: core.plus(mega.normal).plus(mega.doubles).plus(ranked),
            core,
            solo,
            team,
            mega,
            ranked,
            winstreak: count(stats, "win_streak"),
        }
    }
}

/// The figures of one mode of Duels.
#[derive(Clone, Copy, Debug, PartialEq, Eq, Structural)]
pub struct DuelsGameData {
    pub kills: u64,
    pub deaths: u64,
    pub wins: u64,
    pub losses: u64,
    pub winstreak: u64,
}

/// What is shown of a player's Duels: the figures of each mode, by the
/// mode's name, in the order in which the record lists the modes.
#[derive(Clone, Debug, PartialEq, Eq)]
pub struct DuelsData {
    pub modes: Vec<(String, DuelsGameData)>,
}

/// The start of the entry that tells a mode of Duels by its winning streak.
pub open spec fn mode_marker() -> Seq<char> {
    "current_winstreak_mode_"@
}

impl DuelsGameData {
    /// The figures that the Duels part of a record holds for `mode`.
    pub open spec fn spec_of(stats: Json, mode: Seq<char>) -> DuelsGameData {
        DuelsGameData {
            kills: spec_count(Some(stats), mode + "_kills"@),
            deaths: spec_count(Some(stats), mode + "_deaths"@),
            wins: spec_count(Some(stats), mode + "_wins"@),
            losses: spec_count(Some(stats), mode + "_losses"@),
            winstreak: spec_count(Some(stats), mode_marker() + mode),
        }
    }

    pub fn of(stats: &Json, mode: &str) -> (r: DuelsGameData)
        ensures
            r == DuelsGameData::spec_of(*stats, mode@),
    {
        DuelsGameData {
            kills: count(Some(stats), mode.to_owned().concat("_kills").as_str()),
            deaths: count(Some(stats), mode.to_owned().concat("_deaths").as_str()),
            wins: count(Some(stats), mode.to_owned().concat("_wins").as_str()),
            losses: count(Some(stats), mode.to_owned().concat("_losses").as_str()),
            winstreak: count(
                Some(stats),
                "current_winstreak_mode_".to_owned().concat(mode).as_str(),
            ),
        }
    }
}

/// The modes that the first members of the Duels part tell of, each with
/// its figures: a member tells of a mode where its name starts with the
/// marker, and what follows the marker is the mode's name.
pub open spec fn spec_duels_modes(members: Seq<(String, Json)>, stats: Json) -> Seq<
    (Seq<char>, DuelsGameData),
>
    decreases members.len(),
{
    if members.len() == 0 {
        Seq::empty()
    } else {
        let earlier = spec_duels_modes(members.drop_last(), stats);
        let name = members.last().0@;
        if mode_marker().is_prefix_of(name) {
            let mode = name.subrange(mode_marker().len() as int, name.len() as int);
            earlier.push((mode, DuelsGameData::spec_of(stats, mode)))
        } else {
            earlier
        }
    }
}

/// Whether no mode is told of twice.
pub open spec fn distinct_modes(told: Seq<(Seq<char>, DuelsGameData)>) -> bool {
    forall|i: int, j: int| 0 <= i < j < told.len() ==> (#[trigger] told[i]).0 != (#[trigger] told[j]).0
}

/// Members of distinct names tell of distinct modes, and each mode is told
/// of by a member whose name is the marker followed by the mode's name.
pub proof fn law_distinct_names_tell_distinct_modes(members: Seq<(String, Json)>, stats: Json)
    requires
        distinct_names(members),
    ensures
        distinct_modes(spec_duels_modes(members, stats)),
        forall|k: int|
            0 <= k < spec_duels_modes(members, stats).len() ==> exists|i: int|
                0 <= i < members.len() && (#[trigger] members[i]).0@ == mode_marker() + (
                #[trigger] spec_duels_modes(members, stats)[k]).0,
    decreases members.len(),
{
    if members.len() > 0 {
        let earlier_members = members.drop_last();
        let earlier = spec_duels_modes(earlier_members, stats);
        let told = spec_duels_modes(members, stats);
        assert(distinct_names(earlier_members)) by {
            assert forall|i: int, j: int| 0 <= i < j < earlier_members.len() implies (
            #[trigger] earlier_members[i]).0@ != (#[trigger] earlier_members[j]).0@ by {
                assert(members[i].0@ != members[j].0@);
            }
        }
        law_distinct_names_tell_distinct_modes(earlier_members, stats);
        let name = members.last().0@;
        assert forall|k: int| 0 <= k < earlier.len() implies exists|i: int|
            0 <= i < members.len() - 1 && (#[trigger] members[i]).0@ == mode_marker() + (
            #[trigger] earlier[k]).0 by {
            let i = choose|i: int|
                0 <= i < earlier_members.len() && (#[trigger] earlier_members[i]).0@
                    == mode_marker() + earlier[k].0;
            assert(members[i] == earlier_members[i]);
        }
        if mode_marker().is_prefix_of(name) {
            let mode = name.subrange(mode_marker().len() as int, name.len() as int);
            assert(name =~= mode_marker() + mode);
            assert forall|i: int, j: int| 0 <= i < j < told.len() implies (#[trigger] told[i]).0 != (
            #[trigger] told[j]).0 by {
                if j == earlier.len() {
                    let at = choose|at: int|
                        0 <= at < members.len() - 1 && (#[trigger] members[at]).0@ == mode_marker()
                            + earlier[i].0;
                    assert(members[at].0@ != members[members.len() - 1].0@);
                    assert(told[i] == earlier[i]);
                } else {
                    assert(told[i] == earlier[i]);
                    assert(told[j] == earlier[j]);
                }
            }
            assert forall|k: int| 0 <= k < told.len() implies exists|i: int|
                0 <= i < members.len() && (#[trigger] members[i]).0@ == mode_marker() + (
                #[trigger] told[k]).0 by {
                if k == earlier.len() {
                    assert(members[members.len() - 1].0@ == mode_marker() + told[k].0);
                } else {
                    assert(told[k] == earlier[k]);
                    let i = choose|i: int|
                        0 <= i < members.len() - 1 && (#[trigger] members[i]).0@ == mode_marker()
                            + earlier[k].0;
                    assert(0 <= i < members.len());
                }
            }
        } else {
            assert(told == earlier);
            assert forall|k: int| 0 <= k < told.len() implies exists|i: int|
                0 <= i < members.len() && (#[trigger] members[i]).0@ == mode_marker() + (
                #[trigger] told[k]).0 by {
                let i = choose|i: int|
                    0 <= i < members.len() - 1 && (#[trigger] members[i]).0@ == mode_marker()
                        + earlier[k].0;
                assert(0 <= i < members.len());
            }
        }
    }
}

impl DuelsData {
    /// Whether the Duels part of the record, if it is an object, holds each
    /// name at most once.
    pub open spec fn names_distinct(player: Json) -> bool {
        match spec_child(player.spec_get("stats"@), "Duels"@) {
            Some(stats) => stats.spec_names_distinct(),
            None => true,
        }
    }

    /// Whether no two of the modes have the same name.
    pub open spec fn modes_distinct(modes: Seq<(String, DuelsGameData)>) -> bool {
        forall|i: int, j: int|
            0 <= i < j < modes.len() ==> (#[trigger] modes[i]).0@ != (#[trigger] modes[j]).0@
    }

    /// Whether `modes` are the modes that the record tells of.
    pub open spec fn lists(modes: Seq<(String, DuelsGameData)>, player: Json) -> bool {
        match spec_child(player.spec_get("stats"@), "Duels"@) {
            Some(Json::Object(members)) => {
                let told = spec_duels_modes(members@, Json::Object(members));
                &&& modes.len() == told.len()
                &&& forall|i: int|
                    0 <= i < modes.len() ==> (#[trigger] modes[i]).0@ == told[i].0 && modes[i].1
                        == told[i].1
            },
            _ => modes.len() == 0,
        }
    }

    pub fn of(player: &Json) -> (r: DuelsData)
        ensures
            DuelsData::lists(r.modes@, *player),
            DuelsData::names_distinct(*player) ==> DuelsData::modes_distinct(r.modes@),
    {
        let mut modes: Vec<(String, DuelsGameData)> = Vec::new();
        let stats = match child(player.get("stats"), "Duels") {
            Some(stats) => stats,
            None => {
                return DuelsData { modes };
            },
        };
        match stats {
            Json::Object(members) => {
                let mut i: usize = 0;
                assert(members@.subrange(0, 0) =~= Seq::<(String, Json)>::empty());
                while i < members.len()
                    invariant
                        i <= members.len(),
                        *stats == Json::Object(*members),
                        modes@.len() == spec_duels_modes(
                            members@.subrange(0, i as int),
                            *stats,
                        ).len(),
                        forall|j: int|
                            0 <= j < modes@.len() ==> (#[trigger] modes@[j]).0@ == spec_duels_modes(
                                members@.subrange(0, i as int),
                                *stats,
                            )[j].0 && modes@[j].1 == spec_duels_modes(
                                members@.subrange(0, i as int),
                                *stats,
                            )[j].1,
                    decreases members.len() - i,
                {
                    let name = members[i].0.as_str();
                    assert(members@.subrange(0, i + 1).drop_last() =~= members@.subrange(
                        0,
                        i as int,
                    ));
                    assert(members@.subrange(0, i + 1).last() == members@[i as int]);
                    match after_prefix(name, "current_winstreak_mode_") {
                        Some(mode) => {
                            assert(mode_marker().is_prefix_of(name@)) by {
                                assert(name@.subrange(0, mode_marker().len() as int)
                                    =~= mode_marker());
                            }
                            assert(mode@ =~= name@.subrange(
                                mode_marker().len() as int,
                                name@.len() as int,
                            ));
                            let figures = DuelsGameData::of(stats, mode);
                            modes.push((mode.to_owned(), figures));
                        },
                        None => {},
                    }
                    i = i + 1;
                }
                assert(members@.subrange(0, i as int) =~= members@);
                proof {
                    if distinct_names(members@) {
                        law_distinct_names_tell_distinct_modes(members@, *stats);
                        let told = spec_duels_modes(members@, *stats);
                        assert forall|a: int, b: int| 0 <= a < b < modes@.len() implies (
                        #[trigger] modes@[a]).0@ != (#[trigger] modes@[b]).0@ by {
                            assert(told[a].0 != told[b].0);
                        }
                    }
                }
            },
            _ => {},
        }
        DuelsData { modes }
    }
}

/// What is shown of a player, but for the level, which is worked out from
/// the experience in floating point.
#[derive(Clone, Debug, PartialEq, Eq)]
pub struct PlayerData {
    pub name: String,
    pub bedwars: BedwarsData,
    pub skywars: SkywarsData,
    pub duels: DuelsData,
    pub rank: String,
    pub rank_formatted: String,
    pub karma: i64,
}

/// The karma that a record holds, zero where it holds none.
pub open spec fn spec_karma(player: Json) -> i64 {
    match player.spec_get("karma"@) {
        Some(value) => match value.spec_as_i64() {
            Some(n) => n,
            None => 0i64,
        },
        None => 0i64,
    }
}

impl PlayerData {
    /// The rank that a record amounts to.
    pub open spec fn spec_get_rank(player: Json) -> Rank {
        Rank::spec_of_record(
            spec_text(Some(player), "rank"@),
            spec_text(Some(player), "monthlyPackageRank"@),
            spec_text(Some(player), "newPackageRank"@),
            spec_text(Some(player), "packageRank"@),
        )
    }

    pub fn get_rank(player: &Json) -> (r: Rank)
        ensures
            r == PlayerData::spec_get_rank(*player),
    {
        Rank::of_record(
            text(Some(player), "rank"),
            text(Some(player), "monthlyPackageRank"),
            text(Some(player), "newPackageRank"),
            text(Some(player), "packageRank"),
        )
    }

    /// Whether `data` is what the record shows of the player.
    pub open spec fn shows(data: PlayerData, player: Json) -> bool {
        &&& data.name@ == or_empty(spec_text(Some(player), "displayname"@))
        &&& data.bedwars == BedwarsData::spec_of(player)
        &&& SkywarsData::shows(data.skywars, player)
        &&& DuelsData::lists(data.duels.modes@, player)
        &&& DuelsData::names_distinct(player) ==> DuelsData::modes_distinct(data.duels.modes@)
        &&& data.rank@ == PlayerData::spec_get_rank(player).spec_to_string()
        &&& data.rank_formatted@ == PlayerData::spec_get_rank(player).spec_to_string_formatted(
            spec_text(Some(player), "rankPlusColor"@),
            spec_text(Some(player), "monthlyPlusColor"@),
        )
        &&& data.karma == spec_karma(player)
    }

    pub fn of(player: &Json) -> (r: PlayerData)
        ensures
            PlayerData::shows(r, *player),
    {
        let rank = PlayerData::get_rank(player);
        let karma = match player.get("karma") {
            Some(value) => match value.as_i64() {
                Some(n) => n,
                None => 0,
            },
            None => 0,
        };
        PlayerData {
            name: owned_or_empty(text(Some(player), "displayname")),
            bedwars: BedwarsData::of(player),
            skywars: SkywarsData::of(player),
            duels: DuelsData::of(player),
            rank: rank.to_string(),
            rank_formatted: rank.to_string_formatted(
                text(Some(player), "rankPlusColor"),
                text(Some(player), "monthlyPlusColor"),
            ),
            karma,
        }
    }
}

} // verus!
