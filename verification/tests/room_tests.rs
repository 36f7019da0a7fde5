use chatsapp::room::{gen_chat, gen_join_msg, gen_key, gen_leave_msg, render_event, RoomError,
    RoomEvent};

#[test]
fn key_has_room_prefix() {
    assert_eq!(gen_key("lobby"), "room:lobby");
    assert_eq!(gen_key(""), "room:");
}

#[test]
fn chat_line_format() {
    assert_eq!(gen_chat("bob", "hi"), "bob: hi\n");
}

#[test]
fn join_line_format() {
    assert_eq!(gen_join_msg("bob"), "bob has joined the room\n");
}

#[test]
fn leave_line_format() {
    assert_eq!(gen_leave_msg("bob"), "bob has left the room\n");
}

#[test]
fn render_event_chat() {
    let e = RoomEvent::Chat("hi".to_owned());
    assert_eq!(render_event(&e, "bob"), "bob: hi\n");
}

#[test]
fn render_event_join() {
    assert_eq!(render_event(&RoomEvent::Join, "alice"), "alice has joined the room\n");
}

#[test]
fn render_event_leave() {
    assert_eq!(render_event(&RoomEvent::Leave, "alice"), "alice has left the room\n");
}

#[test]
fn error_messages() {
    assert_eq!(RoomError::FailedToConnect.message(), "Error: Failed to connect\n");
    assert_eq!(RoomError::FailedToSend.message(), "Error: Failed to send\n");
    assert_eq!(RoomError::FailedToFetch.message(), "Error: Failed to fetch\n");
    assert_eq!(
        RoomError::FailedToCheckRoomExists.message(),
        "Error: Failed to check if room exists\n"
    );
    assert_eq!(RoomError::RoomNameTaken.message(), "Error: Room name taken\n");
}
