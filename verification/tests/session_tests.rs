use chatsapp::command::Command;
use chatsapp::room::{RoomError, RoomEvent};
use chatsapp::session::{Action, Input, Membership, Session};

fn cmd(line: &str) -> Input {
    Input::Cmd(Command::parse(line.to_owned()))
}

fn new_session() -> Session {
    Session::new("127.0.0.1:9999".to_owned())
}

fn reply_of(acts: &[Action]) -> String {
    assert_eq!(acts.len(), 1);
    match &acts[0] {
        Action::Reply(s) => s.clone(),
        other => panic!("expected a reply, got {:?}", other),
    }
}

#[test]
fn set_username_is_silent() {
    let mut s = new_session();
    let acts = s.step(cmd(">set-username bob"));
    assert!(acts.is_empty());
    assert_eq!(s.user.username.as_deref(), Some("bob"));
}

#[test]
fn help_replies_with_the_summary() {
    let mut s = new_session();
    let r = reply_of(&s.step(cmd(">help")));
    assert!(r.starts_with("Commands:\n"));
    assert!(r.contains(">join-room room    - Join room\n"));
}

#[test]
fn invalid_replies_with_the_hint() {
    let mut s = new_session();
    let r = reply_of(&s.step(cmd(">nonsense")));
    assert!(r.starts_with("Invalid command.\n"));
}

#[test]
fn me_reports_username_and_address() {
    let mut s = new_session();
    let r = reply_of(&s.step(cmd(">me")));
    assert_eq!(r, "Username: None, IP: 127.0.0.1:9999\n");
    s.step(cmd(">set-username bob"));
    let r = reply_of(&s.step(cmd(">me")));
    assert_eq!(r, "Username: Some(\"bob\"), IP: 127.0.0.1:9999\n");
}

#[test]
fn message_outside_any_room_is_rejected() {
    let mut s = new_session();
    let r = reply_of(&s.step(cmd("hello")));
    assert_eq!(r, "You're not currently in a room.\n");
    assert!(matches!(s.membership, Membership::Outside));
}

#[test]
fn leave_outside_any_room_is_rejected() {
    let mut s = new_session();
    let r = reply_of(&s.step(cmd(">leave")));
    assert_eq!(r, "You're not currently in a room.\n");
}

#[test]
fn join_without_username_is_rejected() {
    let mut s = new_session();
    let acts = s.step(cmd(">join-room lobby"));
    let r = reply_of(&acts);
    assert_eq!(r, "You need to pick a username before joining a room\n");
    // nothing was asked of the registry, the log or any broker
    assert!(matches!(s.membership, Membership::Outside));
    let again = s.step(cmd(">me"));
    assert_eq!(again.len(), 1);
}

#[test]
fn join_unknown_room_leaves_session_unchanged() {
    let mut s = new_session();
    s.step(cmd(">set-username alice"));
    let acts = s.step(cmd(">join-room nowhere"));
    assert_eq!(acts.len(), 1);
    assert!(matches!(&acts[0], Action::DoLookup { room } if room == "nowhere"));
    let acts = s.step(Input::Lookup { found: false });
    assert_eq!(reply_of(&acts), "Room not found\n");
    assert!(matches!(s.membership, Membership::Outside));
    assert_eq!(s.user.username.as_deref(), Some("alice"));
}

#[test]
fn join_walks_lookup_append_send_history() {
    let mut s = new_session();
    s.step(cmd(">set-username alice"));
    let acts = s.step(cmd(">join-room lobby"));
    assert!(matches!(&acts[0], Action::DoLookup { room } if room == "lobby"));

    let acts = s.step(Input::Lookup { found: true });
    assert_eq!(acts.len(), 1);
    assert!(matches!(
        &acts[0],
        Action::DoAppend { room, event: RoomEvent::Join, user }
            if room == "lobby" && user == "alice"
    ));

    let acts = s.step(Input::Append { result: Ok("alice has joined the room\n".to_owned()) });
    assert!(matches!(
        &acts[0],
        Action::DoSendJoin { room, user, msg }
            if room == "lobby" && user == "alice" && msg == "alice has joined the room\n"
    ));
    // not a member until the broker has taken the join
    assert!(matches!(s.membership, Membership::Outside));

    let acts = s.step(Input::Sent { ok: true });
    assert!(matches!(&acts[0], Action::DoFetchHistory { room } if room == "lobby"));
    assert!(matches!(&s.membership, Membership::Inside { room } if room == "lobby"));

    let history = vec!["old line\n".to_owned(), "older line\n".to_owned()];
    let acts = s.step(Input::History { result: Ok(history) });
    assert_eq!(reply_of(&acts), "old line\nolder line\n");
    assert!(matches!(&s.membership, Membership::Inside { room } if room == "lobby"));
}

#[test]
fn join_with_empty_history_replies_nothing_to_write() {
    let mut s = new_session();
    s.step(cmd(">set-username alice"));
    s.step(cmd(">join-room lobby"));
    s.step(Input::Lookup { found: true });
    s.step(Input::Append { result: Ok("alice has joined the room\n".to_owned()) });
    s.step(Input::Sent { ok: true });
    let acts = s.step(Input::History { result: Ok(Vec::new()) });
    assert_eq!(reply_of(&acts), "");
}

#[test]
fn append_failure_abandons_the_join() {
    let mut s = new_session();
    s.step(cmd(">set-username alice"));
    s.step(cmd(">join-room lobby"));
    s.step(Input::Lookup { found: true });
    let acts = s.step(Input::Append { result: Err(RoomError::FailedToConnect) });
    assert_eq!(reply_of(&acts), "Error: Failed to connect\n");
    assert!(matches!(s.membership, Membership::Outside));
}

#[test]
fn chat_records_then_submits() {
    let mut s = new_session();
    s.step(cmd(">set-username bob"));
    s.step(cmd(">join-room lobby"));
    s.step(Input::Lookup { found: true });
    s.step(Input::Append { result: Ok("bob has joined the room\n".to_owned()) });
    s.step(Input::Sent { ok: true });
    s.step(Input::History { result: Ok(Vec::new()) });

    let acts = s.step(cmd("hi"));
    assert!(matches!(
        &acts[0],
        Action::DoAppend { room, event: RoomEvent::Chat(m), user }
            if room == "lobby" && user == "bob" && m == "hi"
    ));
    let acts = s.step(Input::Append { result: Ok("bob: hi\n".to_owned()) });
    assert!(matches!(
        &acts[0],
        Action::DoSendChat { room, user, msg }
            if room == "lobby" && user == "bob" && msg == "bob: hi\n"
    ));
    let acts = s.step(Input::Sent { ok: true });
    assert!(acts.is_empty());
    assert!(matches!(&s.membership, Membership::Inside { room } if room == "lobby"));
}

#[test]
fn leave_records_submits_and_goes_outside() {
    let mut s = new_session();
    s.step(cmd(">set-username bob"));
    s.step(cmd(">join-room lobby"));
    s.step(Input::Lookup { found: true });
    s.step(Input::Append { result: Ok("bob has joined the room\n".to_owned()) });
    s.step(Input::Sent { ok: true });
    s.step(Input::History { result: Ok(Vec::new()) });

    let acts = s.step(cmd(">leave"));
    assert!(matches!(
        &acts[0],
        Action::DoAppend { room, event: RoomEvent::Leave, user }
            if room == "lobby" && user == "bob"
    ));
    assert!(matches!(s.membership, Membership::Outside));
    let acts = s.step(Input::Append { result: Ok("bob has left the room\n".to_owned()) });
    assert!(matches!(
        &acts[0],
        Action::DoSendLeave { room, user, msg }
            if room == "lobby" && user == "bob" && msg == "bob has left the room\n"
    ));
    let acts = s.step(Input::Sent { ok: true });
    assert!(acts.is_empty());
}

#[test]
fn switching_rooms_emits_one_leave_then_one_join() {
    let mut s = new_session();
    s.step(cmd(">set-username carol"));
    s.step(cmd(">join-room red"));
    s.step(Input::Lookup { found: true });
    s.step(Input::Append { result: Ok("carol has joined the room\n".to_owned()) });
    s.step(Input::Sent { ok: true });
    s.step(Input::History { result: Ok(Vec::new()) });
    assert!(matches!(&s.membership, Membership::Inside { room } if room == "red"));

    let acts = s.step(cmd(">join-room blue"));
    assert_eq!(acts.len(), 1);
    assert!(matches!(
        &acts[0],
        Action::DoAppend { room, event: RoomEvent::Leave, user }
            if room == "red" && user == "carol"
    ));
    let acts = s.step(Input::Append { result: Ok("carol has left the room\n".to_owned()) });
    assert!(matches!(
        &acts[0],
        Action::DoSendLeave { room, user, msg }
            if room == "red" && user == "carol" && msg == "carol has left the room\n"
    ));
    let acts = s.step(Input::Sent { ok: true });
    assert_eq!(acts.len(), 1);
    assert!(matches!(&acts[0], Action::DoLookup { room } if room == "blue"));
    let acts = s.step(Input::Lookup { found: true });
    assert!(matches!(
        &acts[0],
        Action::DoAppend { room, event: RoomEvent::Join, user }
            if room == "blue" && user == "carol"
    ));
    let acts = s.step(Input::Append { result: Ok("carol has joined the room\n".to_owned()) });
    assert!(matches!(&acts[0], Action::DoSendJoin { room, .. } if room == "blue"));
    let acts = s.step(Input::Sent { ok: true });
    assert!(matches!(&acts[0], Action::DoFetchHistory { room } if room == "blue"));
    let acts = s.step(Input::History { result: Ok(Vec::new()) });
    assert_eq!(reply_of(&acts), "");
    assert!(matches!(&s.membership, Membership::Inside { room } if room == "blue"));
}

#[test]
fn switching_to_unknown_room_still_leaves_the_old_one() {
    let mut s = new_session();
    s.step(cmd(">set-username carol"));
    s.step(cmd(">join-room red"));
    s.step(Input::Lookup { found: true });
    s.step(Input::Append { result: Ok("carol has joined the room\n".to_owned()) });
    s.step(Input::Sent { ok: true });
    s.step(Input::History { result: Ok(Vec::new()) });

    s.step(cmd(">join-room nowhere"));
    s.step(Input::Append { result: Ok("carol has left the room\n".to_owned()) });
    s.step(Input::Sent { ok: true });
    let acts = s.step(Input::Lookup { found: false });
    assert_eq!(reply_of(&acts), "Room not found\n");
    assert!(matches!(s.membership, Membership::Outside));
}

#[test]
fn exit_outside_disconnects_at_once() {
    let mut s = new_session();
    let acts = s.step(cmd(">exit"));
    assert_eq!(acts.len(), 1);
    assert!(matches!(acts[0], Action::Disconnect));
}

#[test]
fn exit_inside_leaves_the_room_before_disconnecting() {
    let mut s = new_session();
    s.step(cmd(">set-username bob"));
    s.step(cmd(">join-room lobby"));
    s.step(Input::Lookup { found: true });
    s.step(Input::Append { result: Ok("bob has joined the room\n".to_owned()) });
    s.step(Input::Sent { ok: true });
    s.step(Input::History { result: Ok(Vec::new()) });

    let acts = s.step(cmd(">exit"));
    assert!(matches!(
        &acts[0],
        Action::DoAppend { room, event: RoomEvent::Leave, user }
            if room == "lobby" && user == "bob"
    ));
    s.step(Input::Append { result: Ok("bob has left the room\n".to_owned()) });
    let acts = s.step(Input::Sent { ok: true });
    assert_eq!(acts.len(), 1);
    assert!(matches!(acts[0], Action::Disconnect));
}

#[test]
fn list_walks_the_listing_round_trip() {
    let mut s = new_session();
    let acts = s.step(cmd(">list"));
    assert_eq!(acts.len(), 1);
    assert!(matches!(acts[0], Action::DoList));
    let rooms = vec!["room:red".to_owned(), "room:blue".to_owned()];
    let acts = s.step(Input::Listing { result: Ok(rooms) });
    assert_eq!(reply_of(&acts), "room:red\nroom:blue\n");
}

#[test]
fn create_room_reports_a_taken_name() {
    let mut s = new_session();
    let acts = s.step(cmd(">create-room lobby"));
    assert_eq!(acts.len(), 1);
    assert!(matches!(&acts[0], Action::DoCreate { room } if room == "lobby"));
    let acts = s.step(Input::Created { result: Err(RoomError::RoomNameTaken) });
    assert_eq!(reply_of(&acts), "Error: Room name taken\n");
    let acts = s.step(cmd(">create-room lobby2"));
    assert!(matches!(&acts[0], Action::DoCreate { room } if room == "lobby2"));
    let acts = s.step(Input::Created { result: Ok(()) });
    assert!(acts.is_empty());
}

#[test]
fn failed_send_is_reported_and_the_join_abandoned() {
    let mut s = new_session();
    s.step(cmd(">set-username bob"));
    s.step(cmd(">join-room lobby"));
    s.step(Input::Lookup { found: true });
    s.step(Input::Append { result: Ok("bob has joined the room\n".to_owned()) });
    let acts = s.step(Input::Sent { ok: false });
    assert_eq!(reply_of(&acts), "Error: Failed to send\n");
    assert!(matches!(s.membership, Membership::Outside));
}

#[test]
fn greeting_banner_text() {
    let g = chatsapp::session::greeting_line();
    assert!(g.starts_with("Welcome to ChatsApp!\n"));
    assert!(g.ends_with("\n\n\n"));
}
