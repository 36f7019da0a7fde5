use vstd::prelude::*;
use vstd::string::*;

verus! {

/// A room event to be recorded in the durable log, before formatting.
#[derive(Debug)]
pub enum RoomEvent {
    Chat(String),
    Join,
    Leave,
}

/// The model of a room event, over character sequences.
pub enum RoomEventModel {
    Chat(Seq<char>),
    Join,
    Leave,
}

impl View for RoomEvent {
    type V = RoomEventModel;

    open spec fn view(&self) -> RoomEventModel {
        match self {
            RoomEvent::Chat(s) => RoomEventModel::Chat(s@),
            RoomEvent::Join => RoomEventModel::Join,
            RoomEvent::Leave => RoomEventModel::Leave,
        }
    }
}

/// Everything that can go wrong while talking to the durable log or
/// while creating a room.
#[derive(Clone, Copy, Debug, PartialEq, Eq, Structural)]
pub enum RoomError {
    FailedToConnect,
    FailedToSend,
    FailedToFetch,
    FailedToCheckRoomExists,
    RoomNameTaken,
}

/// The error line that is written back to the client for `e`.
pub open spec fn error_text(e: RoomError) -> Seq<char> {
    match e {
        RoomError::FailedToConnect => "Error: Failed to connect\n"@,
        RoomError::FailedToSend => "Error: Failed to send\n"@,
        RoomError::FailedToFetch => "Error: Failed to fetch\n"@,
        RoomError::FailedToCheckRoomExists => "Error: Failed to check if room exists\n"@,
        RoomError::RoomNameTaken => "Error: Room name taken\n"@,
    }
}

impl RoomError {
    /// The error line for this error, exactly `error_text`.
    pub fn message(&self) -> (r: String)
        ensures
            r@ == error_text(*self),
    {
        match self {
            RoomError::FailedToConnect => "Error: Failed to connect\n".to_owned(),
            RoomError::FailedToSend => "Error: Failed to send\n".to_owned(),
            RoomError::FailedToFetch => "Error: Failed to fetch\n".to_owned(),
            RoomError::FailedToCheckRoomExists => "Error: Failed to check if room exists\n".to_owned(),
            RoomError::RoomNameTaken => "Error: Room name taken\n".to_owned(),
        }
    }
}

/// The durable-log key under which a room's events are stored.
pub fn gen_key(name: &str) -> (r: String)
    ensures
        r@ == "room:"@ + name@,
{
    let mut r = "room:".to_owned();
    r.append(name);
    r
}

/// The broadcast line for a chat message.
pub open spec fn chat_text(username: Seq<char>, message: Seq<char>) -> Seq<char> {
    username + ": "@ + message + "\n"@
}

/// The broadcast line announcing that a user joined.
pub open spec fn join_text(username: Seq<char>) -> Seq<char> {
    username + " has joined the room\n"@
}

/// The broadcast line announcing that a user left.
pub open spec fn leave_text(username: Seq<char>) -> Seq<char> {
    username + " has left the room\n"@
}

/// Format a chat line as `"<user>: <text>\n"`.
pub fn gen_chat(username: &str, message: &str) -> (r: String)
    ensures
        r@ == chat_text(username@, message@),
{
    let mut r = username.to_owned();
    r.append(": ");
    r.append(message);
    r.append("\n");
    r
}

/// Format the join announcement for a user.
pub fn gen_join_msg(username: &str) -> (r: String)
    ensures
        r@ == join_text(username@),
{
    let mut r = username.to_owned();
    r.append(" has joined the room\n");
    r
}

/// Format the leave announcement for a user.
pub fn gen_leave_msg(username: &str) -> (r: String)
    ensures
        r@ == leave_text(username@),
{
    let mut r = username.to_owned();
    r.append(" has left the room\n");
    r
}

/// The formatted line that recording `e` for `username` yields.
pub open spec fn event_text(e: RoomEventModel, username: Seq<char>) -> Seq<char> {
    match e {
        RoomEventModel::Chat(message) => chat_text(username, message),
        RoomEventModel::Join => join_text(username),
        RoomEventModel::Leave => leave_text(username),
    }
}

/// Format the line that recording `event` for `username` appends to the
/// durable log and that is then fanned out to the room.
pub fn render_event(event: &RoomEvent, username: &str) -> (r: String)
    ensures
        r@ == event_text(event@, username@),
{
    match event {
        RoomEvent::Chat(message) => gen_chat(username, message.as_str()),
        RoomEvent::Join => gen_join_msg(username),
        RoomEvent::Leave => gen_leave_msg(username),
    }
}

} // verus!
