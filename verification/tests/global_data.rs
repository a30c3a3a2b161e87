use axolotl_client_api::agents::AgentCounters;
use axolotl_client_api::global_data::{
    agent_samples, metrics, parse_user_agent, ClientVersion, GlobalData, GlobalDataContainer, ModrinthData, Refresh,
    RequestUserAgentCounter,
};

fn client(mod_version: &str, minecraft_version: &str, mod_name: &str) -> ClientVersion {
    ClientVersion {
        mod_version: mod_version.to_string(),
        minecraft_version: minecraft_version.to_string(),
        mod_name: mod_name.to_string(),
    }
}

#[test]
fn latest_version_ends_before_the_plus() {
    assert_eq!(ModrinthData::of_version_number("3.1.0+1.21").latest_version, "3.1.0");
    assert_eq!(ModrinthData::of_version_number("3.1.0").latest_version, "3.1.0");
    assert_eq!(ModrinthData::of_version_number("3.1.0+1.21+fabric").latest_version, "3.1.0");
    assert_eq!(ModrinthData::of_version_number("+1.21").latest_version, "");
    assert_eq!(ModrinthData::of_version_number("").latest_version, "");
    assert_eq!(ModrinthData::of_version_number("3.1.0-béta+1.21").latest_version, "3.1.0-béta");
}

#[test]
fn refresh_goes_by_the_age_of_the_figures() {
    assert_eq!(Refresh::due(1000, 900, 950), Refresh::Nothing);
    assert_eq!(Refresh::due(1000, 900, 881), Refresh::Nothing);
    assert_eq!(Refresh::due(1000, 900, 880), Refresh::Players);
    assert_eq!(Refresh::due(100_000, 13_601, 99_999), Refresh::Nothing);
    assert_eq!(Refresh::due(100_000, 13_600, 99_999), Refresh::Everything);
    assert_eq!(Refresh::due(1000, 0, 0), Refresh::Players);
    assert_eq!(Refresh::due(i64::MAX, i64::MIN, 0), Refresh::Everything);
    assert_eq!(Refresh::due(i64::MIN, i64::MAX, i64::MAX), Refresh::Nothing);
}

#[test]
fn current_identifications_are_parsed() {
    assert_eq!(
        parse_user_agent("AxolotlClient/3.1.0 Minecraft/1.21"),
        Some(client("3.1.0", "1.21", "AxolotlClient"))
    );
    assert_eq!(
        parse_user_agent("AxolotlClient/3.1.0-beta.2+build.5 Minecraft/1.8.9"),
        Some(client("3.1.0-beta.2+build.5", "1.8.9", "AxolotlClient"))
    );
    assert_eq!(parse_user_agent("Snapper/1.0.0+1.21.1"), Some(client("1.0.0", "1.21.1", "Snapper")));
}

#[test]
fn other_identifications_name_no_client() {
    assert_eq!(parse_user_agent("Java-http-client/17.0.1"), None);
    assert_eq!(parse_user_agent("Java-http-client AxolotlClient/3.1.0 Minecraft/1.21"), None);
    assert_eq!(parse_user_agent("curl/8.0.1"), None);
    assert_eq!(parse_user_agent(""), None);
    assert_eq!(parse_user_agent("AxolotlClient/latest Minecraft/1.21"), None);
    assert_eq!(parse_user_agent("AxolotlClient/3.1.0 Minecraft/newest"), None);
}

#[test]
fn samples_keep_the_clients_that_are_named() {
    let entries = vec![
        ("AxolotlClient/3.1.0 Minecraft/1.21".to_string(), 4),
        ("curl/8.0.1".to_string(), 9),
        ("Snapper/1.0.0+1.21.1".to_string(), 2),
    ];
    let samples = agent_samples(&entries);
    assert_eq!(samples.len(), 2);
    assert_eq!(samples[0].client, client("3.1.0", "1.21", "AxolotlClient"));
    assert_eq!(samples[0].count, 4);
    assert_eq!(samples[1].client, client("1.0.0", "1.21.1", "Snapper"));
    assert_eq!(samples[1].count, 2);
}

#[test]
fn requests_are_counted_but_for_metrics() {
    let mut counters = AgentCounters::new();
    RequestUserAgentCounter::record(&mut counters, false, "AxolotlClient/3.1.0 Minecraft/1.21");
    RequestUserAgentCounter::record(&mut counters, false, "AxolotlClient/3.1.0 Minecraft/1.21");
    RequestUserAgentCounter::record(&mut counters, true, "AxolotlClient/3.1.0 Minecraft/1.21");
    RequestUserAgentCounter::record(&mut counters, true, "Prometheus/2.0");
    assert_eq!(counters.get("AxolotlClient/3.1.0 Minecraft/1.21"), 2);
    assert_eq!(counters.get("Prometheus/2.0"), 0);
    let mut entries = counters.entries();
    entries.sort();
    assert_eq!(entries, vec![("AxolotlClient/3.1.0 Minecraft/1.21".to_string(), 2)]);
}

#[test]
fn metrics_read_and_reset_the_request_counts() {
    let mut requests = AgentCounters::new();
    let mut connections = AgentCounters::new();
    requests.increment("AxolotlClient/3.1.0 Minecraft/1.21");
    requests.increment("AxolotlClient/3.1.0 Minecraft/1.21");
    requests.increment("curl/8.0.1");
    connections.increment("Snapper/1.0.0+1.21.1");
    let figures = metrics(1200, 17, &mut requests, &connections);
    assert_eq!(figures.lifetime_players, 1200);
    assert_eq!(figures.online_players, 17);
    assert_eq!(figures.request_agents_count, 2);
    assert_eq!(figures.requests.len(), 1);
    assert_eq!(figures.requests[0].client, client("3.1.0", "1.21", "AxolotlClient"));
    assert_eq!(figures.requests[0].count, 2);
    assert_eq!(figures.connections.len(), 1);
    assert_eq!(figures.connections[0].count, 1);
    assert!(requests.entries().is_empty());
    assert_eq!(requests.get("curl/8.0.1"), 0);
    assert_eq!(connections.get("Snapper/1.0.0+1.21.1"), 1);
}

#[test]
fn container_takes_over_what_was_worked_out() {
    let mut container = GlobalDataContainer::new();
    assert_eq!(container.due(86_400), Refresh::Everything);
    assert_eq!(container.due(86_399), Refresh::Players);
    assert_eq!(container.due(100), Refresh::Nothing);
    let data = GlobalData {
        total_players: 10,
        online_players: 2,
        modrinth_data: ModrinthData { latest_version: "3.1.0".to_string() },
        notes: "hello".to_string(),
    };
    container.store(Refresh::Nothing, 500, data.duplicate());
    assert_eq!(container.last_player_refresh, 0);
    assert_eq!(container.data.total_players, 0);
    container.store(Refresh::Players, 500, data.with_players(11, 3));
    assert_eq!((container.last_full_refresh, container.last_player_refresh), (0, 500));
    assert_eq!(container.data.total_players, 11);
    assert_eq!(container.data.online_players, 3);
    assert_eq!(container.data.notes, "hello");
    assert_eq!(container.data.modrinth_data.latest_version, "3.1.0");
    container.store(Refresh::Everything, 90_000, data.duplicate());
    assert_eq!((container.last_full_refresh, container.last_player_refresh), (90_000, 90_000));
    assert_eq!(container.data, data);
    assert_eq!(container.due(90_100), Refresh::Nothing);
    assert_eq!(container.due(90_120), Refresh::Players);
}
