use chatsapp::command::Command;

#[test]
fn parse_help() {
    let c = Command::parse(">help".into());
    assert_eq!(c, Command::Help);
}

#[test]
fn parse_exit() {
    let c = Command::parse(">exit".into());
    assert_eq!(c, Command::Exit);
}

#[test]
fn parse_list() {
    let c = Command::parse(">list".into());
    assert_eq!(c, Command::List);
}

#[test]
fn parse_me() {
    let c = Command::parse(">me".into());
    assert_eq!(c, Command::Me);
}

#[test]
fn parse_leave() {
    let c = Command::parse(">leave".into());
    assert_eq!(c, Command::Leave);
}

#[test]
fn parse_set_username() {
    let c = Command::parse(">set-username bob".into());
    assert_eq!(c, Command::SetUsername("bob".to_owned()));
}

#[test]
fn parse_create_room() {
    let c = Command::parse(">create-room lobby".into());
    assert_eq!(c, Command::CreateRoom("lobby".to_owned()));
}

#[test]
fn parse_join_room() {
    let c = Command::parse(">join-room lobby".into());
    assert_eq!(c, Command::JoinRoom("lobby".to_owned()));
}

#[test]
fn parse_message() {
    let c = Command::parse("hello world".into());
    assert_eq!(c, Command::Message("hello world".to_owned()));
}

#[test]
fn parse_empty_line_is_message() {
    let c = Command::parse(String::new());
    assert_eq!(c, Command::Message(String::new()));
}

#[test]
fn parse_unknown_with_args_is_invalid() {
    let c = Command::parse(">not a command".into());
    assert_eq!(c, Command::Invalid);
}

#[test]
fn parse_unknown_without_args_is_invalid() {
    let c = Command::parse(">unknown".into());
    assert_eq!(c, Command::Invalid);
}

#[test]
fn parse_bare_prefix_is_invalid() {
    let c = Command::parse(">".into());
    assert_eq!(c, Command::Invalid);
}

#[test]
fn parse_argument_keeps_later_spaces() {
    let c = Command::parse(">set-username bob the builder".into());
    assert_eq!(c, Command::SetUsername("bob the builder".to_owned()));
}

#[test]
fn parse_set_username_without_argument_is_invalid() {
    let c = Command::parse(">set-username".into());
    assert_eq!(c, Command::Invalid);
}
