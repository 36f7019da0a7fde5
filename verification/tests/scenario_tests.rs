use std::collections::HashMap;

use chatsapp::broker::{Broker, BrokerAction, BrokerEvent};
use chatsapp::command::Command;
use chatsapp::registry::Registry;
use chatsapp::room::gen_join_msg;
use chatsapp::session::{Action, Input, Membership, Session};

/// Apply a broker's actions to the simulated delivery queues: `Spawn`
/// opens a queue, `Close` drops it, `Deliver` appends a line.
fn apply(acts: Vec<BrokerAction>, queues: &mut HashMap<u64, Vec<String>>) {
    for a in acts {
        match a {
            BrokerAction::Spawn { writer } => {
                queues.insert(writer, Vec::new());
            }
            BrokerAction::Close { writer } => {
                queues.remove(&writer);
            }
            BrokerAction::Deliver { writer, msg } => {
                if let Some(q) = queues.get_mut(&writer) {
                    q.push(msg);
                }
            }
        }
    }
}

/// Drive one session's join of `room`, submitting the join to the
/// room's broker and handing back the replies written to the joiner.
fn join_room(
    s: &mut Session,
    room: &str,
    writer: u64,
    reg: &Registry,
    broker: &mut Broker,
    queues: &mut HashMap<u64, Vec<String>>,
    history: Vec<String>,
) -> Vec<String> {
    let mut replies = Vec::new();
    let acts = s.step(Input::Cmd(Command::parse(format!(">join-room {}", room))));
    assert!(matches!(&acts[0], Action::DoLookup { room: r } if r == room));
    let found = reg.lookup(room).is_some();
    let acts = s.step(Input::Lookup { found });
    match &acts[0] {
        Action::DoAppend { user, .. } => {
            let msg = gen_join_msg(user);
            let acts = s.step(Input::Append { result: Ok(msg) });
            match &acts[0] {
                Action::DoSendJoin { user, msg, .. } => {
                    let b_acts = broker.handle(BrokerEvent::JoinRoom {
                        user: user.clone(),
                        writer,
                        msg: msg.clone(),
                    });
                    apply(b_acts, queues);
                }
                other => panic!("expected a join submission, got {:?}", other),
            }
            let acts = s.step(Input::Sent { ok: true });
            assert!(matches!(&acts[0], Action::DoFetchHistory { .. }));
            let acts = s.step(Input::History { result: Ok(history) });
            for a in acts {
                if let Action::Reply(r) = a {
                    replies.push(r);
                }
            }
        }
        Action::Reply(r) => replies.push(r.clone()),
        other => panic!("unexpected action {:?}", other),
    }
    replies
}

#[test]
fn alice_and_bob_in_the_lobby() {
    let mut reg = Registry::new();
    let mut lobby = Broker::new();
    let mut queues: HashMap<u64, Vec<String>> = HashMap::new();

    // alice sets a username and creates the lobby
    let mut alice = Session::new("10.0.0.1:5000".to_owned());
    alice.step(Input::Cmd(Command::parse(">set-username alice".into())));
    let acts = alice.step(Input::Cmd(Command::parse(">create-room lobby".into())));
    assert!(matches!(&acts[0], Action::DoCreate { room } if room == "lobby"));
    let created = reg.create("lobby".to_owned(), 0);
    assert!(created.is_ok());
    let acts = alice.step(Input::Created { result: created });
    assert!(acts.is_empty());

    // alice joins the lobby and receives the empty history
    let replies = join_room(&mut alice, "lobby", 1, &reg, &mut lobby, &mut queues, Vec::new());
    assert_eq!(replies, vec![String::new()]);
    assert!(matches!(&alice.membership, Membership::Inside { room } if room == "lobby"));

    // bob joins: alice's queue receives the announcement
    let mut bob = Session::new("10.0.0.2:5001".to_owned());
    bob.step(Input::Cmd(Command::parse(">set-username bob".into())));
    join_room(&mut bob, "lobby", 2, &reg, &mut lobby, &mut queues, Vec::new());
    assert_eq!(queues[&1], vec!["bob has joined the room\n".to_owned()]);
    assert!(queues[&2].is_empty());

    // bob says hi: alice receives the line, bob does not see his own
    let acts = bob.step(Input::Cmd(Command::parse("hi".into())));
    assert!(matches!(&acts[0], Action::DoAppend { .. }));
    let acts = bob.step(Input::Append { result: Ok("bob: hi\n".to_owned()) });
    match &acts[0] {
        Action::DoSendChat { user, msg, .. } => {
            let b_acts = lobby.handle(BrokerEvent::Message {
                user: user.clone(),
                msg: msg.clone(),
            });
            apply(b_acts, &mut queues);
        }
        other => panic!("expected a chat submission, got {:?}", other),
    }
    let acts = bob.step(Input::Sent { ok: true });
    assert!(acts.is_empty());

    assert_eq!(
        queues[&1],
        vec!["bob has joined the room\n".to_owned(), "bob: hi\n".to_owned()]
    );
    assert!(queues[&2].is_empty());
}

#[test]
fn creating_the_lobby_twice_fails_the_second_session() {
    let mut reg = Registry::new();
    let mut alice = Session::new("10.0.0.1:5000".to_owned());
    let mut bob = Session::new("10.0.0.2:5001".to_owned());

    alice.step(Input::Cmd(Command::parse(">create-room lobby".into())));
    let first = reg.create("lobby".to_owned(), 0);
    assert!(first.is_ok());
    alice.step(Input::Created { result: first });

    bob.step(Input::Cmd(Command::parse(">create-room lobby".into())));
    let second = reg.create("lobby".to_owned(), 1);
    assert!(second.is_err());
    let acts = bob.step(Input::Created { result: second });
    assert_eq!(acts.len(), 1);
    assert!(matches!(&acts[0], Action::Reply(r) if r == "Error: Room name taken\n"));
    // the first registration is untouched
    assert_eq!(reg.lookup("lobby"), Some(0));
}
