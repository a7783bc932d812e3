use p2p_chat::input::InputCapture;
use p2p_chat::ui::{ChatEntry, ConnectionMode, UI};

#[test]
fn take_once_per_submission() {
    let mut c = InputCapture::new();
    c.arm();
    c.edit("first".to_string());
    assert_eq!(c.take(), None);
    c.notify();
    assert!(c.is_dirty());
    assert_eq!(c.take(), Some("first".to_string()));
    assert_eq!(c.take(), None);
    assert_eq!(c.field(), "");
}

#[test]
fn take_reads_value_at_poll_time() {
    let mut c = InputCapture::new();
    c.arm();
    c.edit("draft".to_string());
    c.notify();
    c.edit("final text".to_string());
    assert_eq!(c.take(), Some("final text".to_string()));
    assert_eq!(c.take(), None);
}

#[test]
fn unarmed_capture_ignores_submissions() {
    let mut c = InputCapture::new();
    c.edit("early".to_string());
    c.notify();
    assert!(!c.is_dirty());
    assert_eq!(c.take(), None);
    assert_eq!(c.field(), "early");
}

#[test]
fn two_submissions_each_taken_once() {
    let mut ui = UI::new();
    ui.setup_chat_input();
    ui.edit_input("a".to_string());
    ui.submit();
    assert_eq!(ui.get_message(), Some("a".to_string()));
    ui.edit_input("b".to_string());
    ui.submit();
    assert_eq!(ui.get_message(), Some("b".to_string()));
    assert_eq!(ui.get_message(), None);
}

#[test]
fn peer_id_and_copy_action() {
    let mut ui = UI::new();
    ui.set_peer_id("abc123");
    assert_eq!(ui.peer_id(), "abc123");
    assert_eq!(ui.copy_action(), "navigator.clipboard.writeText('abc123')");
}

#[test]
fn loading_indicator() {
    let mut ui = UI::new();
    assert_eq!(ui.loading_class(), "hidden");
    ui.show_loading();
    assert_eq!(ui.loading_class(), "");
    ui.hide_loading();
    assert_eq!(ui.loading_class(), "hidden");
}

#[test]
fn insert_message_appends() {
    let mut ui = UI::new();
    ui.insert_message("Peer", "hi".to_string());
    ui.insert_message("You", "yo".to_string());
    assert_eq!(ui.log_len(), 2);
    assert_eq!(ui.entry(0).sender, "Peer");
    assert_eq!(ui.entry(1).text, "yo");
    assert_eq!(ui.entry(1).markup(), "<b>You:</b> yo");
}

#[test]
fn entry_markup() {
    let e = ChatEntry { sender: "Peer".to_string(), text: "hi".to_string() };
    assert_eq!(e.markup(), "<b>Peer:</b> hi");
}

#[test]
fn connection_mode_from_answer() {
    assert_eq!(UI::ask_for_connection_mode(true), ConnectionMode::Send);
    assert_eq!(UI::ask_for_connection_mode(false), ConnectionMode::Receive);
}

#[test]
fn repeated_submissions_coalesce() {
    let mut c = InputCapture::new();
    c.arm();
    c.edit("once".to_string());
    c.notify();
    c.notify();
    assert_eq!(c.take(), Some("once".to_string()));
    assert_eq!(c.take(), None);
}
