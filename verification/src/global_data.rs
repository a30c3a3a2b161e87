//! Figures about the service as a whole: how many players there are, which
//! clients they use, and when these figures are worked out anew.

use crate::agents::AgentCounters;
use crate::text::starts_with;
use regex::Regex;
use vstd::prelude::*;

verus! {

/// What the mod's page at the distribution service says of the mod.
#[derive(Clone, Debug, PartialEq, Eq)]
pub struct ModrinthData {
    pub latest_version: String,
}

/// Where the first plus sign stands in a text, or the length of the text
/// where it has none.
pub open spec fn first_plus(text: Seq<char>) -> int
    decreases text.len(),
{
    if text.len() == 0 || text[0] == '+' {
        0
    } else {
        1 + first_plus(text.subrange(1, text.len() as int))
    }
}

impl ModrinthData {
    /// The version that a version number names: the number up to its first
    /// plus sign, behind which the version of the game stands.
    pub open spec fn spec_version(number: Seq<char>) -> Seq<char> {
        number.subrange(0, first_plus(number))
    }

    /// What is kept of the latest version's number.
    pub fn of_version_number(number: &str) -> (r: ModrinthData)
        ensures
            r.latest_version@ == ModrinthData::spec_version(number@),
    {
        let length = number.unicode_len();
        let mut i: usize = 0;
        assert(number@.subrange(0, number@.len() as int) =~= number@);
        while i < length && number.get_char(i) != '+'
            invariant
                i <= length,
                length == number@.len(),
                first_plus(number@) == i + first_plus(number@.subrange(i as int, length as int)),
            decreases length - i,
        {
            let ghost rest = number@.subrange(i as int, length as int);
            assert(rest[0] == number@[i as int]);
            assert(rest.subrange(1, rest.len() as int) =~= number@.subrange(i + 1, length as int));
            i = i + 1;
        }
        proof {
            let rest = number@.subrange(i as int, length as int);
            if i < length {
                assert(rest[0] == number@[i as int]);
            }
            assert(first_plus(rest) == 0);
        }
        ModrinthData { latest_version: number.substring_char(0, i).to_owned() }
    }
}

/// Which of the figures are to be worked out anew.
#[derive(Clone, Copy, Debug, PartialEq, Eq, Structural)]
pub enum Refresh {
    /// None: what was worked out last is still good.
    Nothing,
    /// The numbers of players only.
    Players,
    /// Everything, the mod's latest version and the notes too.
    Everything,
}

/// Seconds after which everything is worked out anew.
pub const FULL_REFRESH_SECONDS: i64 = 86400;

/// Seconds after which the numbers of players are worked out anew.
pub const PLAYER_REFRESH_SECONDS: i64 = 120;

impl Refresh {
    /// What is due at the time `now`, when everything was last worked out
    /// at `last_full` and the numbers of players at `last_players`, all in
    /// seconds since the Unix epoch.
    pub fn due(now: i64, last_full: i64, last_players: i64) -> (r: Refresh)
        ensures
            r == if now - last_full >= FULL_REFRESH_SECONDS {
                Refresh::Everything
            } else if now - last_players >= PLAYER_REFRESH_SECONDS {
                Refresh::Players
            } else {
                Refresh::Nothing
            },
    {
        if now as i128 - last_full as i128 >= FULL_REFRESH_SECONDS as i128 {
            Refresh::Everything
        } else if now as i128 - last_players as i128 >= PLAYER_REFRESH_SECONDS as i128 {
            Refresh::Players
        } else {
            Refresh::Nothing
        }
    }
}

/// The figures that are handed to clients.
#[derive(Debug, PartialEq, Eq)]
pub struct GlobalData {
    pub total_players: u32,
    pub online_players: u32,
    pub modrinth_data: ModrinthData,
    pub notes: String,
}

impl GlobalData {
    /// The figures that are held before any were worked out.
    pub fn empty() -> (r: GlobalData)
        ensures
            r.total_players == 0,
            r.online_players == 0,
            r.modrinth_data.latest_version@ == Seq::<char>::empty(),
            r.notes@ == Seq::<char>::empty(),
    {
        GlobalData {
            total_players: 0,
            online_players: 0,
            modrinth_data: ModrinthData { latest_version: String::new() },
            notes: String::new(),
        }
    }

    /// These figures with other numbers of players.
    pub fn with_players(&self, total: u32, online: u32) -> (r: GlobalData)
        ensures
            r == (GlobalData { total_players: total, online_players: online, ..*self }),
    {
        GlobalData {
            total_players: total,
            online_players: online,
            modrinth_data: ModrinthData {
                latest_version: self.modrinth_data.latest_version.clone(),
            },
            notes: self.notes.clone(),
        }
    }

    /// A copy of these figures.
    pub fn duplicate(&self) -> (r: GlobalData)
        ensures
            r == *self,
    {
        self.with_players(self.total_players, self.online_players)
    }
}

/// The figures as they were last worked out, and when that was, in seconds
/// since the Unix epoch.
#[derive(Debug, PartialEq, Eq)]
pub struct GlobalDataContainer {
    pub last_full_refresh: i64,
    pub last_player_refresh: i64,
    pub data: GlobalData,
}

impl GlobalDataContainer {
    /// Nothing worked out yet: everything is due at once.
    pub fn new() -> (r: GlobalDataContainer)
        ensures
            r.last_full_refresh == 0,
            r.last_player_refresh == 0,
            r.data.total_players == 0,
            r.data.online_players == 0,
            r.data.modrinth_data.latest_version@ == Seq::<char>::empty(),
            r.data.notes@ == Seq::<char>::empty(),
    {
        GlobalDataContainer { last_full_refresh: 0, last_player_refresh: 0, data: GlobalData::empty() }
    }

    /// What is due at the time `now`.
    pub fn due(&self, now: i64) -> (r: Refresh)
        ensures
            r == if now - self.last_full_refresh >= FULL_REFRESH_SECONDS {
                Refresh::Everything
            } else if now - self.last_player_refresh >= PLAYER_REFRESH_SECONDS {
                Refresh::Players
            } else {
                Refresh::Nothing
            },
    {
        Refresh::due(now, self.last_full_refresh, self.last_player_refresh)
    }

    /// Takes over figures that were worked out at the time `now`, as far as
    /// `done` says they were: where nothing was worked out, nothing
    /// changes.
    pub fn store(&mut self, done: Refresh, now: i64, data: GlobalData)
        ensures
            *final(self) == match done {
                Refresh::Nothing => *old(self),
                Refresh::Players => GlobalDataContainer {
                    last_full_refresh: old(self).last_full_refresh,
                    last_player_refresh: now,
                    data,
                },
                Refresh::Everything => GlobalDataContainer {
                    last_full_refresh: now,
                    last_player_refresh: now,
                    data,
                },
            },
    {
        match done {
            Refresh::Nothing => {},
            Refresh::Players => {
                self.last_player_refresh = now;
                self.data = data;
            },
            Refresh::Everything => {
                self.last_full_refresh = now;
                self.last_player_refresh = now;
                self.data = data;
            },
        }
    }
}

/// The mod, the version of the mod and the version of the game that a
/// client identification names.
#[derive(Clone, Debug, PartialEq, Eq)]
pub struct ClientVersion {
    pub mod_version: String,
    pub minecraft_version: String,
    pub mod_name: String,
}

/// The identification that the mod sent first.
pub const OLD_1_UA: &'static str = r".*\((?:(AxolotlClient)/)(.+)(?:\+mc)?(.+)\) .*";

/// The identification that the mod sent next.
pub const OLD_2_UA: &'static str = r".*\((?:(AxolotlClient)/)(.+) \(Minecraft .+\).*";

/// The identification that the mod sends now.
pub const CURRENT_UA: &'static str = r"(AxolotlClient)/(.+) Minecraft/(.+)";

/// The identification of the companion mod.
pub const SNAPPER_UA: &'static str = r"(Snapper)/(.+)\+(.+)";

/// What a version of a mod looks like.
pub const SEMVER: &'static str =
    r#"(?P<major>0|[1-9]\d*)\.(?P<minor>0|[1-9]\d*)\.(?P<patch>0|[1-9]\d*)(?:-(?P<prerelease>(?:0|[1-9]\d*|\d*[a-zA-Z-][0-9a-zA-Z-]*)(?:\.(?:0|[1-9]\d*|\d*[a-zA-Z-][0-9a-zA-Z-]*))*))?(?:\+(?P<buildmetadata>[0-9a-zA-Z-]+(?:\.[0-9a-zA-Z-]+)*))?"#;

/// What a version of the game looks like.
pub const MCVER: &'static str =
    "0\\.\\d+(\\.\\d+)?a?(_\\d+)?|\\d+\\.\\d+(\\.\\d+)?(-pre\\d+|Pre-[Rr]elease \\d+)?|\\d+\\.\\d+(\\.\\d+)?(-rc\\d+| [Rr]elease Candidate \\d+)?|\\d+w\\d+[a-z]|[a-c]\\d\\.\\d+(\\.\\d+)?[a-z]?(_\\d+)?[a-z]?|(Alpha|Beta) v?\\d+\\.\\d+(\\.\\d+)?[a-z]?(_\\d+)?[a-z]?|Inf?dev (0\\.31 )?\\d+(-\\d+)?|(rd|inf?)-\\d+|1\\.RV-Pre1|3D Shareware v1\\.34|23w13a_or_b|24w14potato|25w14craftmine|(.*[Ee]xperimental [Ss]napshot )(\\d+)";

/// Whether the pattern, read as a regular expression, matches somewhere in
/// the text. A pattern that is no regular expression matches nowhere.
pub uninterp spec fn regex_is_match(pattern: Seq<char>, text: Seq<char>) -> bool;

/// The groups of the leftmost match of the pattern in the text, the whole
/// match first; a group that took no part in the match holds nothing.
/// There are none where the pattern does not match or is no regular
/// expression.
pub uninterp spec fn regex_captures(pattern: Seq<char>, text: Seq<char>) -> Option<
    Seq<Option<Seq<char>>>,
>;

/// The characters of what may be a text.
pub open spec fn text_view(text: Option<String>) -> Option<Seq<char>> {
    match text {
        Some(held) => Some(held@),
        None => None,
    }
}

/// The characters of the groups of a match.
pub open spec fn groups_view(groups: Option<Vec<Option<String>>>) -> Option<
    Seq<Option<Seq<char>>>,
> {
    match groups {
        Some(held) => Some(Seq::new(held@.len(), |i: int| text_view(held@[i]))),
        None => None,
    }
}

/// `Regex::new` and `Regex::is_match`: whether the pattern matches
/// somewhere in the text.
#[verifier::external_body]
pub(crate) fn pattern_matches(pattern: &str, text: &str) -> (found: bool)
    ensures
        found == regex_is_match(pattern@, text@),
{
    match Regex::new(pattern) {
        Ok(regex) => regex.is_match(text),
        Err(_) => false,
    }
}

/// `Regex::new` and `Regex::captures`: the groups of the leftmost match,
/// each copied out as text.
#[verifier::external_body]
fn pattern_captures(pattern: &str, text: &str) -> (groups: Option<Vec<Option<String>>>)
    ensures
        groups_view(groups) == regex_captures(pattern@, text@),
{
    match Regex::new(pattern) {
        Ok(regex) => regex.captures(text).map(
            |found| found.iter().map(|group| group.map(|part| part.as_str().to_string())).collect(),
        ),
        Err(_) => None,
    }
}

/// The group at `at`, where the match has that many groups and the group
/// took part in it.
pub open spec fn group_at(groups: Seq<Option<Seq<char>>>, at: int) -> Option<Seq<char>> {
    if 0 <= at < groups.len() {
        groups[at]
    } else {
        None
    }
}

/// What the groups of a matching identification name: the mod in the
/// first, its version in the second and the game's version in the third.
/// They name nothing unless all three are there and both versions look
/// like versions.
pub open spec fn spec_client_of_groups(
    groups: Seq<Option<Seq<char>>>,
    mod_version_fits: bool,
    minecraft_version_fits: bool,
) -> Option<(Seq<char>, Seq<char>, Seq<char>)> {
    if group_at(groups, 1) is Some && group_at(groups, 2) is Some && group_at(groups, 3) is Some
        && mod_version_fits && minecraft_version_fits {
        Some((group_at(groups, 2)->0, group_at(groups, 3)->0, group_at(groups, 1)->0))
    } else {
        None
    }
}

/// What a client identification names, going by the first of the four
/// patterns that matches it.
pub open spec fn spec_parse_user_agent(agent: Seq<char>) -> Option<
    (Seq<char>, Seq<char>, Seq<char>),
> {
    if "Java-http-client"@.is_prefix_of(agent) {
        None
    } else if regex_captures(OLD_1_UA@, agent) is Some {
        spec_client_by(regex_captures(OLD_1_UA@, agent)->0)
    } else if regex_captures(OLD_2_UA@, agent) is Some {
        spec_client_by(regex_captures(OLD_2_UA@, agent)->0)
    } else if regex_captures(CURRENT_UA@, agent) is Some {
        spec_client_by(regex_captures(CURRENT_UA@, agent)->0)
    } else if regex_captures(SNAPPER_UA@, agent) is Some {
        spec_client_by(regex_captures(SNAPPER_UA@, agent)->0)
    } else {
        None
    }
}

/// What the groups of a matching identification name, with the two
/// versions held against the patterns of versions.
pub open spec fn spec_client_by(groups: Seq<Option<Seq<char>>>) -> Option<
    (Seq<char>, Seq<char>, Seq<char>),
> {
    spec_client_of_groups(
        groups,
        group_at(groups, 2) is Some && regex_is_match(SEMVER@, group_at(groups, 2)->0),
        group_at(groups, 3) is Some && regex_is_match(MCVER@, group_at(groups, 3)->0),
    )
}

fn group<'a>(groups: &'a Vec<Option<String>>, at: usize) -> (r: Option<&'a str>)
    ensures
        match r {
            Some(text) => group_at(groups_view(Some(*groups))->0, at as int) == Some(text@),
            None => group_at(groups_view(Some(*groups))->0, at as int) is None,
        },
{
    if at < groups.len() {
        match &groups[at] {
            Some(text) => Some(text.as_str()),
            None => None,
        }
    } else {
        None
    }
}

impl ClientVersion {
    /// The characters of the three names.
    pub open spec fn names(self) -> (Seq<char>, Seq<char>, Seq<char>) {
        (self.mod_version@, self.minecraft_version@, self.mod_name@)
    }

    /// What the groups of a matching identification name, given whether the
    /// two versions look like versions.
    pub fn of_groups(
        groups: &Vec<Option<String>>,
        mod_version_fits: bool,
        minecraft_version_fits: bool,
    ) -> (r: Option<ClientVersion>)
        ensures
            match r {
                Some(client) => spec_client_of_groups(
                    groups_view(Some(*groups))->0,
                    mod_version_fits,
                    minecraft_version_fits,
                ) == Some(client.names()),
                None => spec_client_of_groups(
                    groups_view(Some(*groups))->0,
                    mod_version_fits,
                    minecraft_version_fits,
                ) is None,
            },
    {
        if !mod_version_fits || !minecraft_version_fits {
            return None;
        }
        match (group(groups, 1), group(groups, 2), group(groups, 3)) {
            (Some(mod_name), Some(mod_version), Some(minecraft_version)) => Some(
                ClientVersion {
                    mod_version: mod_version.to_owned(),
                    minecraft_version: minecraft_version.to_owned(),
                    mod_name: mod_name.to_owned(),
                },
            ),
            _ => None,
        }
    }

    fn by_groups(groups: &Vec<Option<String>>) -> (r: Option<ClientVersion>)
        ensures
            match r {
                Some(client) => spec_client_by(groups_view(Some(*groups))->0) == Some(
                    client.names(),
                ),
                None => spec_client_by(groups_view(Some(*groups))->0) is None,
            },
    {
        let mod_version_fits = match group(groups, 2) {
            Some(version) => pattern_matches(SEMVER, version),
            None => false,
        };
        let minecraft_version_fits = match group(groups, 3) {
            Some(version) => pattern_matches(MCVER, version),
            None => false,
        };
        ClientVersion::of_groups(groups, mod_version_fits, minecraft_version_fits)
    }
}

/// What a client identification names.
pub fn parse_user_agent(agent: &str) -> (r: Option<ClientVersion>)
    ensures
        match r {
            Some(client) => spec_parse_user_agent(agent@) == Some(client.names()),
            None => spec_parse_user_agent(agent@) is None,
        },
{
    if starts_with(agent, "Java-http-client") {
        return None;
    }
    if let Some(groups) = pattern_captures(OLD_1_UA, agent) {
        return ClientVersion::by_groups(&groups);
    }
    if let Some(groups) = pattern_captures(OLD_2_UA, agent) {
        return ClientVersion::by_groups(&groups);
    }
    if let Some(groups) = pattern_captures(CURRENT_UA, agent) {
        return ClientVersion::by_groups(&groups);
    }
    if let Some(groups) = pattern_captures(SNAPPER_UA, agent) {
        return ClientVersion::by_groups(&groups);
    }
    None
}

/// How often a client was counted.
#[derive(Clone, Debug, PartialEq, Eq)]
pub struct AgentSample {
    pub client: ClientVersion,
    pub count: u32,
}

/// The samples that the first entries give: one for each entry whose
/// identification names a client, in the order of the entries.
pub open spec fn spec_samples(entries: Seq<(String, u32)>) -> Seq<
    ((Seq<char>, Seq<char>, Seq<char>), u32),
>
    decreases entries.len(),
{
    if entries.len() == 0 {
        Seq::empty()
    } else {
        let earlier = spec_samples(entries.drop_last());
        match spec_parse_user_agent(entries.last().0@) {
            Some(names) => earlier.push((names, entries.last().1)),
            None => earlier,
        }
    }
}

/// Whether `samples` are the samples that `entries` give.
pub open spec fn samples_of(samples: Seq<AgentSample>, entries: Seq<(String, u32)>) -> bool {
    &&& samples.len() == spec_samples(entries).len()
    &&& forall|i: int|
        0 <= i < samples.len() ==> (#[trigger] samples[i]).client.names() == spec_samples(
            entries,
        )[i].0 && samples[i].count == spec_samples(entries)[i].1
}

/// The samples that counted identifications give: one for each that names
/// a client.
pub fn agent_samples(entries: &Vec<(String, u32)>) -> (r: Vec<AgentSample>)
    ensures
        samples_of(r@, entries@),
{
    let mut samples: Vec<AgentSample> = Vec::new();
    let mut i: usize = 0;
    assert(entries@.subrange(0, 0) =~= Seq::<(String, u32)>::empty());
    while i < entries.len()
        invariant
            i <= entries.len(),
            samples_of(samples@, entries@.subrange(0, i as int)),
        decreases entries.len() - i,
    {
        assert(entries@.subrange(0, i + 1).drop_last() =~= entries@.subrange(0, i as int));
        assert(entries@.subrange(0, i + 1).last() == entries@[i as int]);
        match parse_user_agent(entries[i].0.as_str()) {
            Some(client) => {
                samples.push(AgentSample { client, count: entries[i].1 });
            },
            None => {},
        }
        i = i + 1;
    }
    assert(entries@.subrange(0, i as int) =~= entries@);
    samples
}

/// The figures that are handed to the monitoring.
#[derive(Clone, Debug, PartialEq, Eq)]
pub struct Metrics {
    pub lifetime_players: u32,
    pub online_players: usize,
    pub request_agents_count: usize,
    pub requests: Vec<AgentSample>,
    pub connections: Vec<AgentSample>,
}

/// Gathers the figures for the monitoring. The counts of requests start
/// over with every reading; the counts of connections stay.
pub fn metrics(
    lifetime_players: u32,
    online_players: usize,
    requests: &mut AgentCounters,
    connections: &AgentCounters,
) -> (r: Metrics)
    ensures
        final(requests)@ == crate::agents::no_counts(),
        r.lifetime_players == lifetime_players,
        r.online_players == online_players,
        exists|entries: Seq<(String, u32)>|
            #![trigger crate::agents::lists_counts(entries, old(requests)@)]
            crate::agents::lists_counts(entries, old(requests)@) && r.request_agents_count
                == entries.len() && samples_of(r.requests@, entries),
        exists|entries: Seq<(String, u32)>|
            #![trigger crate::agents::lists_counts(entries, connections@)]
            crate::agents::lists_counts(entries, connections@) && samples_of(
                r.connections@,
                entries,
            ),
{
    let requested = requests.entries();
    requests.clear();
    let connected = connections.entries();
    Metrics {
        lifetime_players,
        online_players,
        request_agents_count: requested.len(),
        requests: agent_samples(&requested),
        connections: agent_samples(&connected),
    }
}

/// Counts the requests of each client identification.
#[derive(Clone, Copy, Debug, PartialEq, Eq, Structural)]
pub struct RequestUserAgentCounter;

/// Whether the path of a request ends with `metrics`: such requests are
/// not counted.
pub open spec fn is_metrics_path(path: Seq<char>) -> bool {
    path.len() >= 7 && path.subrange(path.len() - 7, path.len() as int) == "metrics"@
}

impl RequestUserAgentCounter {
    /// Counts one request of `agent`, unless it asks for the figures that
    /// hold the counts.
    pub fn record(counters: &mut AgentCounters, asks_for_metrics: bool, agent: &str) -> (r:
        RequestUserAgentCounter)
        ensures
            final(counters)@ == if asks_for_metrics {
                old(counters)@
            } else {
                old(counters)@.insert(agent@, crate::agents::one_more(old(counters).count_of(agent@)))
            },
    {
        if !asks_for_metrics {
            counters.increment(agent);
        }
        RequestUserAgentCounter
    }
}

} // verus!
