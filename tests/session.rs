use p2p_chat::coordinator::{ConnectionError, Coordinator, Phase};
use p2p_chat::registry::{LifecycleEvent, PeerRegistry};
use p2p_chat::session::tick;
use p2p_chat::ui::{ConnectionMode, UI};

#[derive(Debug, PartialEq)]
struct FakeConn(&'static str);

fn log_of(ui: &UI) -> Vec<(String, String)> {
    (0..ui.log_len())
        .map(|i| {
            let e = ui.entry(i);
            (e.sender.clone(), e.text.clone())
        })
        .collect()
}

fn entry(sender: &str, text: &str) -> (String, String) {
    (sender.to_string(), text.to_string())
}

#[test]
fn end_to_end_send_role() {
    let mut ui = UI::new();
    ui.set_peer_id("abc123");
    assert_eq!(ui.peer_id(), "abc123");
    ui.setup_chat_input();

    let mode = UI::ask_for_connection_mode(true);
    assert_eq!(mode, ConnectionMode::Send);
    let mut coord = Coordinator::new(mode);
    assert_eq!(coord.phase(), Phase::AwaitingPeer);
    let target = coord.choose_peer("xyz789".to_string());
    assert_eq!(target, "xyz789");
    assert_eq!(coord.phase(), Phase::Connecting);

    let mut registry = PeerRegistry::new();
    assert_eq!(coord.finish(&mut registry, Ok((target, FakeConn("xyz789")))), Ok(()));
    assert_eq!(coord.phase(), Phase::Established);
    assert_eq!(ui.log_len(), 0);

    let out = tick(&mut registry, &mut ui, vec![], &vec![LifecycleEvent::Connected("xyz789".to_string())]);
    assert!(out.is_none());
    assert_eq!(log_of(&ui), vec![entry("System", "Peer xyz789 connected.")]);

    let out = tick(&mut registry, &mut ui, vec!["hi".to_string()], &vec![]);
    assert!(out.is_none());
    assert_eq!(log_of(&ui)[1], entry("Peer", "hi"));

    ui.edit_input("hello".to_string());
    ui.submit();
    let out = tick(&mut registry, &mut ui, vec![], &vec![]).expect("a message to send");
    assert_eq!(out.target, "xyz789");
    assert_eq!(out.text, "hello");
    assert_eq!(registry.connection(&out.target), Some(&FakeConn("xyz789")));
    assert_eq!(log_of(&ui).len(), 3);
    assert_eq!(log_of(&ui)[2], entry("You", "hello"));
    assert_eq!(ui.input_value(), "");
}

#[test]
fn departure_in_same_tick_skips_send() {
    let mut registry = PeerRegistry::new();
    registry.register("a".to_string(), FakeConn("a"));
    let mut ui = UI::new();
    ui.setup_chat_input();
    tick(&mut registry, &mut ui, vec![], &vec![LifecycleEvent::Connected("a".to_string())]);

    ui.edit_input("bye".to_string());
    ui.submit();
    let out = tick(&mut registry, &mut ui, vec![], &vec![LifecycleEvent::Disconnected("a".to_string())]);
    assert!(out.is_none());
    assert_eq!(
        log_of(&ui),
        vec![
            entry("System", "Peer a connected."),
            entry("System", "Peer a disconnected."),
            entry("You", "bye"),
        ]
    );
    assert!(registry.connection(&"a".to_string()).is_none());
}

#[test]
fn tick_orders_events_then_messages_then_input() {
    let mut registry = PeerRegistry::new();
    registry.register("p".to_string(), FakeConn("p"));
    let mut ui = UI::new();
    ui.setup_chat_input();
    ui.edit_input("mine".to_string());
    ui.submit();
    let out = tick(
        &mut registry,
        &mut ui,
        vec!["one".to_string(), "two".to_string()],
        &vec![LifecycleEvent::Connected("p".to_string())],
    );
    assert_eq!(
        log_of(&ui),
        vec![
            entry("System", "Peer p connected."),
            entry("Peer", "one"),
            entry("Peer", "two"),
            entry("You", "mine"),
        ]
    );
    let out = out.expect("sent to p");
    assert_eq!((out.target.as_str(), out.text.as_str()), ("p", "mine"));
}

#[test]
fn input_without_target_is_logged_not_sent() {
    let mut registry: PeerRegistry<FakeConn> = PeerRegistry::new();
    let mut ui = UI::new();
    ui.setup_chat_input();
    ui.edit_input("alone".to_string());
    ui.submit();
    assert!(tick(&mut registry, &mut ui, vec![], &vec![]).is_none());
    assert_eq!(log_of(&ui), vec![entry("You", "alone")]);
}

#[test]
fn connected_peer_without_connection_is_not_sent_to() {
    let mut registry: PeerRegistry<FakeConn> = PeerRegistry::new();
    let mut ui = UI::new();
    ui.setup_chat_input();
    ui.edit_input("x".to_string());
    ui.submit();
    let out = tick(&mut registry, &mut ui, vec![], &vec![LifecycleEvent::Connected("ghost".to_string())]);
    assert!(out.is_none());
    assert_eq!(registry.resolve_send_target(), Some("ghost".to_string()));
}

#[test]
fn receive_role_accepts_after_empty_polls() {
    let mode = UI::ask_for_connection_mode(false);
    assert_eq!(mode, ConnectionMode::Receive);
    let mut coord = Coordinator::new(mode);
    assert_eq!(coord.phase(), Phase::Polling);
    let n = 3;
    for _ in 0..n {
        assert_eq!(coord.poll::<&str>(None), None);
        assert_eq!(coord.phase(), Phase::Polling);
    }
    assert_eq!(coord.poll(Some("offer from q")), Some("offer from q"));
    assert_eq!(coord.phase(), Phase::Accepting);
    let mut registry = PeerRegistry::new();
    assert_eq!(coord.finish(&mut registry, Ok(("q".to_string(), FakeConn("q")))), Ok(()));
    assert_eq!(registry.connection(&"q".to_string()), Some(&FakeConn("q")));
    assert_eq!(coord.mode(), ConnectionMode::Receive);
}

#[test]
fn failed_handshake_is_an_error() {
    let mut coord = Coordinator::new(ConnectionMode::Send);
    coord.choose_peer("nobody".to_string());
    let mut registry: PeerRegistry<FakeConn> = PeerRegistry::new();
    assert_eq!(coord.finish(&mut registry, Err(ConnectionError)), Err(ConnectionError));
    assert_eq!(coord.phase(), Phase::Failed);
    assert!(registry.connection(&"nobody".to_string()).is_none());
}
