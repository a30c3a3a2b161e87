//! What a client may ask of a player's record, and what it is answered.

use crate::errors::ApiError;
use crate::hypixel::json::{Json, Number};
use crate::hypixel::stats::{bedwars_level, child, spec_bedwars_level, spec_child, PlayerData};
use crate::relation::UserId;
use vstd::prelude::*;

verus! {

/// Where the key for the stats service comes from: it is given itself, or
/// the file that holds it is named.
#[derive(Clone, Debug, PartialEq, Eq)]
pub struct Hypixel {
    pub hypixel_api_key: Option<String>,
    pub hypixel_api_key_file: Option<String>,
}

/// Where the key is to be taken from.
#[derive(Debug, PartialEq, Eq)]
pub enum KeySource<'a> {
    /// The key itself.
    Key(&'a str),
    /// The file that holds the key.
    File(&'a str),
    /// Nowhere: neither was given.
    Missing,
}

impl Hypixel {
    /// Where the key is to be taken from: a key that is given goes before
    /// a file that is named.
    pub fn source(&self) -> (r: KeySource<'_>)
        ensures
            match r {
                KeySource::Key(key) => self.hypixel_api_key matches Some(given) && given@ == key@,
                KeySource::File(file) => self.hypixel_api_key is None && (
                self.hypixel_api_key_file matches Some(named) && named@ == file@),
                KeySource::Missing => self.hypixel_api_key is None
                    && self.hypixel_api_key_file is None,
            },
    {
        match &self.hypixel_api_key {
            Some(key) => KeySource::Key(key.as_str()),
            None => match &self.hypixel_api_key_file {
                Some(file) => KeySource::File(file.as_str()),
                None => KeySource::Missing,
            },
        }
    }
}

/// What is asked of a record.
#[derive(Clone, Copy, Debug, PartialEq, Eq, Structural)]
pub enum RequestType {
    NetworkLevel,
    BedwarsLevel,
    SkywarsExperience,
    BedwarsData,
    PlayerData,
}

/// A request: what is asked, and of whose record.
#[derive(Clone, Copy, Debug, PartialEq, Eq, Structural)]
pub struct RequestDataType {
    pub request_type: RequestType,
    pub target_player: UserId,
}

/// The figures of Bedwars as a whole.
#[derive(Clone, Copy, Debug, PartialEq, Eq, Structural)]
pub struct BedwarsSummary {
    pub final_kills_bedwars: u64,
    pub final_deaths_bedwars: u64,
    pub beds_broken_bedwars: u64,
    pub deaths_bedwars: u64,
    pub kills_bedwars: u64,
    pub losses_bedwars: u64,
    pub wins_bedwars: u64,
    pub winstreak: u64,
}

/// The figure under `name`: zero where there is none, and nothing where
/// what is there is no whole number.
pub open spec fn spec_figure(stats: Json, name: Seq<char>) -> Option<u64> {
    match stats.spec_get(name) {
        Some(value) => value.spec_as_u64(),
        None => Some(0),
    }
}

fn figure(stats: &Json, name: &str) -> (r: Option<u64>)
    ensures
        r == spec_figure(*stats, name@),
{
    match stats.get(name) {
        Some(value) => value.as_u64(),
        None => Some(0),
    }
}

impl BedwarsSummary {
    /// The figures that the Bedwars part of a record gives, where each
    /// figure that is there is a whole number.
    pub open spec fn spec_of(stats: Json) -> Option<BedwarsSummary> {
        if spec_figure(stats, "final_kills_bedwars"@) is Some && spec_figure(
            stats,
            "final_deaths_bedwars"@,
        ) is Some && spec_figure(stats, "beds_broken_bedwars"@) is Some && spec_figure(
            stats,
            "deaths_bedwars"@,
        ) is Some && spec_figure(stats, "kills_bedwars"@) is Some && spec_figure(
            stats,
            "losses_bedwars"@,
        ) is Some && spec_figure(stats, "wins_bedwars"@) is Some && spec_figure(
            stats,
            "winstreak"@,
        ) is Some {
            Some(
                BedwarsSummary {
                    final_kills_bedwars: spec_figure(stats, "final_kills_bedwars"@)->0,
                    final_deaths_bedwars: spec_figure(stats, "final_deaths_bedwars"@)->0,
                    beds_broken_bedwars: spec_figure(stats, "beds_broken_bedwars"@)->0,
                    deaths_bedwars: spec_figure(stats, "deaths_bedwars"@)->0,
                    kills_bedwars: spec_figure(stats, "kills_bedwars"@)->0,
                    losses_bedwars: spec_figure(stats, "losses_bedwars"@)->0,
                    wins_bedwars: spec_figure(stats, "wins_bedwars"@)->0,
                    winstreak: spec_figure(stats, "winstreak"@)->0,
                },
            )
        } else {
            None
        }
    }

    pub fn of(stats: &Json) -> (r: Option<BedwarsSummary>)
        ensures
            r == BedwarsSummary::spec_of(*stats),
    {
        let final_kills_bedwars = figure(stats, "final_kills_bedwars")?;
        let final_deaths_bedwars = figure(stats, "final_deaths_bedwars")?;
        let beds_broken_bedwars = figure(stats, "beds_broken_bedwars")?;
        let deaths_bedwars = figure(stats, "deaths_bedwars")?;
        let kills_bedwars = figure(stats, "kills_bedwars")?;
        let losses_bedwars = figure(stats, "losses_bedwars")?;
        let wins_bedwars = figure(stats, "wins_bedwars")?;
        let winstreak = figure(stats, "winstreak")?;
        Some(
            BedwarsSummary {
                final_kills_bedwars,
                final_deaths_bedwars,
                beds_broken_bedwars,
                deaths_bedwars,
                kills_bedwars,
                losses_bedwars,
                wins_bedwars,
                winstreak,
            },
        )
    }
}

/// The number under `name` in `object`, where there is a number.
pub open spec fn spec_number(object: Option<Json>, name: Seq<char>) -> Option<Number> {
    match spec_child(object, name) {
        Some(Json::Number(number)) => Some(number),
        _ => None,
    }
}

fn number(object: Option<&Json>, name: &str) -> (r: Option<Number>)
    ensures
        r == spec_number(crate::hypixel::stats::plain(object), name@),
{
    match child(object, name) {
        Some(Json::Number(number)) => Some(*number),
        _ => None,
    }
}

/// What a request is answered. The level on the network and the
/// experience in Skywars are fractions: their answers hold the numbers
/// that the fraction is worked out from.
#[derive(Debug)]
pub enum Answer {
    NetworkLevel { experience: Option<Number>, level: Option<Number> },
    BedwarsLevel(i64),
    SkywarsExperience(Option<Number>),
    BedwarsData(BedwarsSummary),
    PlayerData(PlayerData),
}

/// Answers a request from the record of the player. The figures of
/// Bedwars are not found where the record has no such part, and fail where
/// one of them is no whole number.
pub fn answer(request_type: RequestType, player: &Json) -> (r: Result<Answer, ApiError>)
    ensures
        match request_type {
            RequestType::NetworkLevel => r matches Ok(
                Answer::NetworkLevel { experience, level },
            ) && experience == spec_number(Some(*player), "networkExp"@) && level == spec_number(
                Some(*player),
                "networkLevel"@,
            ),
            RequestType::BedwarsLevel => (r matches Ok(Answer::BedwarsLevel(level)) && level
                == spec_bedwars_level(*player)),
            RequestType::SkywarsExperience => r matches Ok(Answer::SkywarsExperience(experience))
                && experience == spec_number(
                spec_child(player.spec_get("stats"@), "SkyWars"@),
                "skywars_experience"@,
            ),
            RequestType::BedwarsData => match spec_child(player.spec_get("stats"@), "Bedwars"@) {
                Some(Json::Object(members)) => match BedwarsSummary::spec_of(
                    Json::Object(members),
                ) {
                    Some(summary) => r matches Ok(Answer::BedwarsData(found)) && found == summary,
                    None => r matches Err(e) && e == ApiError::Internal,
                },
                _ => r matches Err(e) && e == ApiError::NotFound,
            },
            RequestType::PlayerData => (r matches Ok(Answer::PlayerData(data))
                && crate::hypixel::stats::PlayerData::shows(data, *player)),
        },
{
    match request_type {
        RequestType::NetworkLevel => Ok(
            Answer::NetworkLevel {
                experience: number(Some(player), "networkExp"),
                level: number(Some(player), "networkLevel"),
            },
        ),
        RequestType::BedwarsLevel => Ok(Answer::BedwarsLevel(bedwars_level(player))),
        RequestType::SkywarsExperience => Ok(
            Answer::SkywarsExperience(
                number(child(player.get("stats"), "SkyWars"), "skywars_experience"),
            ),
        ),
        RequestType::BedwarsData => {
            match child(player.get("stats"), "Bedwars") {
                Some(stats) => {
                    if !stats.is_object() {
                        return Err(ApiError::NotFound);
                    }
                    match BedwarsSummary::of(stats) {
                        Some(summary) => Ok(Answer::BedwarsData(summary)),
                        None => Err(ApiError::Internal),
                    }
                },
                None => Err(ApiError::NotFound),
            }
        },
        RequestType::PlayerData => Ok(Answer::PlayerData(PlayerData::of(player))),
    }
}

} // verus!
