use axolotl_client_api::gateway::{
    copy_bytes, keepalive_due, same_bytes, Action, DisconnectReason, Event, Frame, Gateway, GatewayState,
    KEEPALIVE_SECONDS, NONCE_LENGTH,
};
use axolotl_client_api::hub::Hub;

const ALICE: u128 = 0xa11ce;
const BOB: u128 = 0xb0b;

fn active_gateway() -> Gateway {
    let mut gateway = Gateway::new(ALICE, 1, "AxolotlClient/3.1.0 Minecraft/1.21".to_string());
    assert!(gateway.activate());
    gateway
}

#[test]
fn close_frames_carry_code_and_reason() {
    assert_eq!(DisconnectReason::Closed.code(), 1000);
    assert_eq!(DisconnectReason::Error.code(), 1011);
    assert_eq!(DisconnectReason::InvalidData.code(), 1007);
    assert_eq!(DisconnectReason::TimedOut.code(), 1014);
    assert_eq!(DisconnectReason::Closed.reason(), "Closed");
    assert_eq!(DisconnectReason::Error.reason(), "Error");
    assert_eq!(DisconnectReason::InvalidData.reason(), "Invalid Data");
    assert_eq!(DisconnectReason::TimedOut.reason(), "Timed Out");
    assert_eq!(KEEPALIVE_SECONDS, 10);
}

#[test]
fn gateway_starts_connecting_and_activates_once() {
    let mut gateway = Gateway::new(ALICE, 9, "agent".to_string());
    assert_eq!(gateway.state(), GatewayState::Connecting);
    assert_eq!(gateway.user(), ALICE);
    assert_eq!(gateway.channel(), 9);
    assert_eq!(gateway.agent(), "agent");
    assert!(!gateway.awaits_pong());
    assert_eq!(gateway.on_event(Event::KeepaliveDue(vec![1; 32])), Action::Continue { rearm: false });
    assert_eq!(gateway.state(), GatewayState::Connecting);
    assert!(gateway.activate());
    assert!(!gateway.activate());
    assert_eq!(gateway.state(), GatewayState::Active);
    assert!(!gateway.conclude());
}

#[test]
fn data_frames_end_the_connection() {
    let mut gateway = active_gateway();
    assert_eq!(gateway.on_event(Event::Inbound(Frame::Text)), Action::Close(DisconnectReason::InvalidData));
    assert_eq!(gateway.state(), GatewayState::Closing);
    let mut gateway = active_gateway();
    assert_eq!(gateway.on_event(Event::Inbound(Frame::Binary)), Action::Close(DisconnectReason::InvalidData));
    assert_eq!(gateway.state(), GatewayState::Closing);
}

#[test]
fn close_end_and_failures_end_the_connection() {
    let mut gateway = active_gateway();
    assert_eq!(gateway.on_event(Event::Inbound(Frame::Close)), Action::Close(DisconnectReason::Closed));
    let mut gateway = active_gateway();
    assert_eq!(gateway.on_event(Event::InboundEnded), Action::Close(DisconnectReason::Closed));
    let mut gateway = active_gateway();
    assert_eq!(gateway.on_event(Event::InboundFailed), Action::Close(DisconnectReason::Closed));
    let mut gateway = active_gateway();
    assert_eq!(gateway.on_event(Event::WriteFailed), Action::Close(DisconnectReason::Error));
    assert_eq!(gateway.state(), GatewayState::Closing);
    assert_eq!(gateway.on_event(Event::Inbound(Frame::Ping)), Action::Continue { rearm: false });
    assert!(gateway.conclude());
    assert_eq!(gateway.state(), GatewayState::Closed);
    assert!(!gateway.conclude());
}

#[test]
fn outbound_messages_are_written_verbatim() {
    let mut gateway = active_gateway();
    assert_eq!(
        gateway.on_event(Event::Outbound("{\"target\":\"friend_request\"}".to_string())),
        Action::SendText("{\"target\":\"friend_request\"}".to_string())
    );
    assert_eq!(gateway.state(), GatewayState::Active);
    assert!(!gateway.awaits_pong());
}

#[test]
fn ping_is_answered_by_the_matching_pong() {
    let mut gateway = active_gateway();
    let nonce = vec![7u8; 32];
    assert_eq!(gateway.on_event(Event::KeepaliveDue(nonce.clone())), Action::SendPing(nonce.clone()));
    assert!(gateway.awaits_pong());
    assert_eq!(gateway.on_event(Event::Inbound(Frame::Pong(nonce))), Action::Continue { rearm: true });
    assert!(!gateway.awaits_pong());
    assert_eq!(gateway.state(), GatewayState::Active);
}

#[test]
fn pong_with_another_nonce_is_invalid() {
    let mut gateway = active_gateway();
    gateway.on_event(Event::KeepaliveDue(vec![7u8; 32]));
    let mut other = vec![7u8; 32];
    other[31] = 8;
    assert_eq!(
        gateway.on_event(Event::Inbound(Frame::Pong(other))),
        Action::Close(DisconnectReason::InvalidData)
    );
    assert_eq!(gateway.state(), GatewayState::Closing);
}

#[test]
fn pong_without_a_ping_is_invalid() {
    let mut gateway = active_gateway();
    assert_eq!(
        gateway.on_event(Event::Inbound(Frame::Pong(vec![]))),
        Action::Close(DisconnectReason::InvalidData)
    );
}

#[test]
fn inbound_ping_restarts_the_timer() {
    let mut gateway = active_gateway();
    gateway.on_event(Event::KeepaliveDue(vec![1u8; 32]));
    assert_eq!(gateway.on_event(Event::Inbound(Frame::Ping)), Action::Continue { rearm: true });
    assert!(!gateway.awaits_pong());
    assert_eq!(gateway.on_event(Event::KeepaliveDue(vec![2u8; 32])), Action::SendPing(vec![2u8; 32]));
}

#[test]
fn unanswered_ping_times_out() {
    let mut gateway = active_gateway();
    assert_eq!(gateway.on_event(Event::KeepaliveDue(vec![1u8; 32])), Action::SendPing(vec![1u8; 32]));
    assert_eq!(
        gateway.on_event(Event::Outbound("still here".to_string())),
        Action::SendText("still here".to_string())
    );
    assert_eq!(
        gateway.on_event(Event::KeepaliveDue(vec![2u8; 32])),
        Action::Close(DisconnectReason::TimedOut)
    );
    assert_eq!(gateway.state(), GatewayState::Closing);
}

#[test]
fn keepalive_events_carry_a_nonce_of_full_length() {
    let first = keepalive_due();
    let second = keepalive_due();
    match (&first, &second) {
        (Event::KeepaliveDue(a), Event::KeepaliveDue(b)) => {
            assert_eq!(a.len(), NONCE_LENGTH);
            assert_eq!(b.len(), NONCE_LENGTH);
            assert_ne!(a, b);
        }
        _ => panic!("not a keepalive event"),
    }
}

#[test]
fn bytes_are_compared_and_copied() {
    assert!(same_bytes(&vec![1, 2, 3], &vec![1, 2, 3]));
    assert!(!same_bytes(&vec![1, 2, 3], &vec![1, 2]));
    assert!(!same_bytes(&vec![1, 2, 3], &vec![1, 2, 4]));
    assert!(same_bytes(&vec![], &vec![]));
    assert_eq!(copy_bytes(&vec![9, 8, 7]), vec![9, 8, 7]);
}

#[test]
fn hub_connects_and_counts() {
    let mut hub = Hub::new();
    assert!(!hub.is_online(ALICE));
    let (first, _first_receiver) = hub.connect(ALICE, "agent-a".to_string()).unwrap();
    let (second, _second_receiver) = hub.connect(BOB, "agent-a".to_string()).unwrap();
    assert_eq!(first, 0);
    assert_eq!(second, 1);
    assert!(hub.is_online(ALICE));
    assert!(hub.is_online(BOB));
    assert_eq!(hub.registry().online_count(), 2);
    assert_eq!(hub.registry().lookup(ALICE).map(|c| c.id()), Some(0));
    assert_eq!(hub.agents().get("agent-a"), 2);
    assert!(matches!(hub.registry().activity(ALICE), Some(None)));
}

#[test]
fn timed_out_connection_leaves_the_registry() {
    let mut hub = Hub::new();
    let (session, _receiver) = hub.connect(ALICE, "agent-a".to_string()).unwrap();
    assert_eq!(
        hub.dispatch(session, Event::KeepaliveDue(vec![3u8; 32])),
        Some(Action::SendPing(vec![3u8; 32]))
    );
    assert_eq!(
        hub.dispatch(session, Event::KeepaliveDue(vec![4u8; 32])),
        Some(Action::Close(DisconnectReason::TimedOut))
    );
    assert!(hub.is_online(ALICE));
    let closed = hub.finish(session).unwrap();
    assert_eq!(closed.state(), GatewayState::Closed);
    assert_eq!(closed.user(), ALICE);
    assert!(!hub.is_online(ALICE));
    assert!(hub.registry().lookup(ALICE).is_none());
    assert_eq!(hub.agents().get("agent-a"), 0);
    assert!(hub.finish(session).is_none());
    assert_eq!(hub.dispatch(session, Event::InboundEnded), None);
}

#[test]
fn finish_waits_for_the_connection_to_close() {
    let mut hub = Hub::new();
    let (session, _receiver) = hub.connect(ALICE, "agent-a".to_string()).unwrap();
    assert!(hub.finish(session).is_none());
    assert!(hub.is_online(ALICE));
    assert!(hub.finish(77).is_none());
}

#[test]
fn newest_connection_wins() {
    let mut hub = Hub::new();
    let (old, mut old_receiver) = hub.connect(ALICE, "agent-a".to_string()).unwrap();
    assert!(hub.notify(ALICE, "for the old one".to_string()));
    let (new, mut new_receiver) = hub.connect(ALICE, "agent-b".to_string()).unwrap();
    assert_ne!(old, new);
    assert_eq!(hub.registry().online_count(), 1);
    assert_eq!(hub.registry().lookup(ALICE).map(|c| c.id()), Some(new));
    assert!(hub.notify(ALICE, "for the new one".to_string()));
    assert_eq!(old_receiver.try_recv().ok(), Some("for the old one".to_string()));
    assert!(old_receiver.try_recv().is_err());
    assert_eq!(new_receiver.try_recv().ok(), Some("for the new one".to_string()));
    assert_eq!(hub.dispatch(old, Event::InboundEnded), Some(Action::Close(DisconnectReason::Closed)));
    assert!(hub.finish(old).is_some());
    assert!(hub.is_online(ALICE));
    assert_eq!(hub.registry().lookup(ALICE).map(|c| c.id()), Some(new));
    assert_eq!(hub.agents().get("agent-a"), 0);
    assert_eq!(hub.agents().get("agent-b"), 1);
    assert_eq!(hub.dispatch(new, Event::Inbound(Frame::Close)), Some(Action::Close(DisconnectReason::Closed)));
    assert!(hub.finish(new).is_some());
    assert!(!hub.is_online(ALICE));
}

#[test]
fn notifications_are_written_in_order() {
    let mut hub = Hub::new();
    assert!(!hub.notify(ALICE, "nobody home".to_string()));
    let (session, mut receiver) = hub.connect(ALICE, "agent-a".to_string()).unwrap();
    assert!(receiver.try_recv().is_err());
    assert!(hub.notify(ALICE, "first".to_string()));
    assert!(hub.notify(ALICE, "second".to_string()));
    let first = receiver.try_recv().unwrap();
    assert_eq!(hub.dispatch(session, Event::Outbound(first)), Some(Action::SendText("first".to_string())));
    assert!(hub.notify(ALICE, "third".to_string()));
    let second = receiver.try_recv().unwrap();
    assert_eq!(hub.dispatch(session, Event::Outbound(second)), Some(Action::SendText("second".to_string())));
    assert_eq!(receiver.try_recv().ok(), Some("third".to_string()));
    assert!(receiver.try_recv().is_err());
    receiver.close();
    assert!(!hub.notify(ALICE, "too late".to_string()));
    assert!(hub.is_online(ALICE));
}

#[test]
fn hub_keeps_activity_for_online_users_only() {
    let mut hub = Hub::new();
    let activity = axolotl_client_api::registry::Activity {
        title: "Bedwars".to_string(),
        description: "Doubles".to_string(),
        started_at: 12,
        metadata: "{}".to_string(),
    };
    hub.set_activity(ALICE, Some(activity.clone()));
    assert!(hub.registry().activity(ALICE).is_none());
    let _session = hub.connect(ALICE, "agent-a".to_string()).unwrap();
    hub.set_activity(ALICE, Some(activity));
    assert_eq!(hub.registry().activity(ALICE).unwrap().unwrap().title, "Bedwars");
    hub.set_activity(ALICE, None);
    assert!(matches!(hub.registry().activity(ALICE), Some(None)));
}
