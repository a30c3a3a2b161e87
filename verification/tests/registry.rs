use axolotl_client_api::agents::AgentCounters;
use axolotl_client_api::registry::{Activity, ConnectionRegistry, OutboundChannel};

fn activity(title: &str) -> Activity {
    Activity {
        title: title.to_string(),
        description: "in a test".to_string(),
        started_at: 1_700_000_000_000,
        metadata: "null".to_string(),
    }
}

#[test]
fn channel_is_first_in_first_out() {
    let (mut channel, mut receiver) = OutboundChannel::new(4);
    assert_eq!(channel.id(), 4);
    assert!(receiver.try_recv().is_err());
    assert!(channel.send("one".to_string()));
    assert!(channel.send("two".to_string()));
    assert!(channel.send("three".to_string()));
    assert_eq!(receiver.try_recv().ok(), Some("one".to_string()));
    assert_eq!(receiver.try_recv().ok(), Some("two".to_string()));
    assert!(channel.send("four".to_string()));
    assert_eq!(receiver.try_recv().ok(), Some("three".to_string()));
    assert_eq!(receiver.try_recv().ok(), Some("four".to_string()));
    assert!(receiver.try_recv().is_err());
    receiver.close();
    assert!(!channel.send("five".to_string()));
}

#[test]
fn register_makes_a_user_online() {
    let mut registry = ConnectionRegistry::new();
    assert!(!registry.is_online(7));
    assert!(registry.lookup(7).is_none());
    assert_eq!(registry.online_count(), 0);
    let (channel, _receiver) = OutboundChannel::new(1);
    assert!(registry.register(7, channel).is_none());
    assert!(registry.is_online(7));
    assert_eq!(registry.lookup(7).map(|c| c.id()), Some(1));
    assert_eq!(registry.online_count(), 1);
    assert!(matches!(registry.activity(7), Some(None)));
}

#[test]
fn reconnect_displaces_exactly_one_entry() {
    let mut registry = ConnectionRegistry::new();
    let (first, mut first_receiver) = OutboundChannel::new(1);
    let (other, _other_receiver) = OutboundChannel::new(2);
    let (second, mut second_receiver) = OutboundChannel::new(3);
    registry.register(7, first);
    registry.register(8, other);
    assert!(registry.push(7, "left behind".to_string()));
    let mut displaced = registry.register(7, second).unwrap();
    assert_eq!(displaced.id(), 1);
    assert_eq!(registry.online_count(), 2);
    assert_eq!(registry.lookup(7).map(|c| c.id()), Some(3));
    assert_eq!(registry.lookup(8).map(|c| c.id()), Some(2));
    assert!(displaced.send("through the old channel".to_string()));
    assert!(registry.push(7, "through the new channel".to_string()));
    assert_eq!(first_receiver.try_recv().ok(), Some("left behind".to_string()));
    assert_eq!(first_receiver.try_recv().ok(), Some("through the old channel".to_string()));
    assert!(first_receiver.try_recv().is_err());
    assert_eq!(second_receiver.try_recv().ok(), Some("through the new channel".to_string()));
}

#[test]
fn deregister_compares_the_channel() {
    let mut registry = ConnectionRegistry::new();
    let (first, _first_receiver) = OutboundChannel::new(1);
    let (second, _second_receiver) = OutboundChannel::new(2);
    registry.register(7, first);
    registry.register(7, second);
    assert!(!registry.deregister(7, 1));
    assert!(registry.is_online(7));
    assert!(registry.deregister(7, 2));
    assert!(!registry.is_online(7));
    assert!(!registry.deregister(7, 2));
    assert_eq!(registry.online_count(), 0);
}

#[test]
fn activity_is_kept_only_for_online_users() {
    let mut registry = ConnectionRegistry::new();
    registry.set_activity(7, Some(activity("mining")));
    assert!(!registry.is_online(7));
    assert!(registry.activity(7).is_none());
    let (first, _first_receiver) = OutboundChannel::new(1);
    registry.register(7, first);
    registry.set_activity(7, Some(activity("mining")));
    let stored = registry.activity(7).unwrap().unwrap();
    assert_eq!(stored.title, "mining");
    assert_eq!(stored.started_at, 1_700_000_000_000);
    assert_eq!(registry.lookup(7).map(|c| c.id()), Some(1));
    registry.set_activity(7, None);
    assert!(matches!(registry.activity(7), Some(None)));
    registry.set_activity(7, Some(activity("fishing")));
    let (second, _second_receiver) = OutboundChannel::new(2);
    registry.register(7, second);
    assert!(matches!(registry.activity(7), Some(None)));
}

#[test]
fn push_goes_through_the_registered_channel() {
    let mut registry = ConnectionRegistry::new();
    assert!(!registry.push(7, "lost".to_string()));
    let (channel, mut receiver) = OutboundChannel::new(1);
    registry.register(7, channel);
    registry.set_activity(7, Some(activity("mining")));
    assert!(registry.push(7, "a".to_string()));
    assert!(registry.push(7, "b".to_string()));
    assert!(!registry.push(8, "c".to_string()));
    assert_eq!(receiver.try_recv().ok(), Some("a".to_string()));
    assert_eq!(receiver.try_recv().ok(), Some("b".to_string()));
    assert!(receiver.try_recv().is_err());
    assert!(registry.is_online(7));
    assert_eq!(registry.activity(7).unwrap().unwrap().title, "mining");
    receiver.close();
    assert!(!registry.push(7, "d".to_string()));
    assert!(registry.is_online(7));
    assert_eq!(registry.lookup(7).map(|c| c.id()), Some(1));
}

#[test]
fn counters_follow_connects_and_disconnects() {
    let mut counters = AgentCounters::new();
    assert_eq!(counters.get("AxolotlClient/3.1.0 Minecraft/1.21"), 0);
    counters.increment("AxolotlClient/3.1.0 Minecraft/1.21");
    counters.increment("AxolotlClient/3.1.0 Minecraft/1.21");
    counters.increment("Snapper/1.0.0+1.21");
    assert_eq!(counters.get("AxolotlClient/3.1.0 Minecraft/1.21"), 2);
    assert_eq!(counters.get("Snapper/1.0.0+1.21"), 1);
    counters.decrement("AxolotlClient/3.1.0 Minecraft/1.21");
    assert_eq!(counters.get("AxolotlClient/3.1.0 Minecraft/1.21"), 1);
    counters.decrement("AxolotlClient/3.1.0 Minecraft/1.21");
    assert_eq!(counters.get("AxolotlClient/3.1.0 Minecraft/1.21"), 0);
    counters.decrement("AxolotlClient/3.1.0 Minecraft/1.21");
    assert_eq!(counters.get("AxolotlClient/3.1.0 Minecraft/1.21"), 0);
    assert_eq!(counters.get("Snapper/1.0.0+1.21"), 1);
}

#[test]
fn activities_are_duplicated_field_by_field() {
    let first = activity("mining");
    let second = first.duplicate();
    assert_eq!(second.title, "mining");
    assert_eq!(second.description, "in a test");
    assert_eq!(second.started_at, 1_700_000_000_000);
    assert_eq!(second.metadata, "null");
}

#[test]
fn counters_saturate_and_list_their_entries() {
    let mut counters = AgentCounters::new();
    assert!(counters.entries().is_empty());
    counters.increment("a");
    counters.increment("b");
    counters.increment("b");
    let mut entries = counters.entries();
    entries.sort();
    assert_eq!(entries, vec![("a".to_string(), 1), ("b".to_string(), 2)]);
    counters.clear();
    assert!(counters.entries().is_empty());
    assert_eq!(counters.get("b"), 0);
}
