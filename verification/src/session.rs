use vstd::prelude::*;
use vstd::string::*;

use crate::command::{CmdModel, Command};
use crate::room::{error_text, RoomError, RoomEvent, RoomEventModel};
use crate::text::{joined_text, lines_model};

verus! {

/// The identity a connection carries: its remote address and the
/// username, which must be set before any room can be joined.
#[derive(Debug)]
pub struct User {
    pub addr: String,
    pub username: Option<String>,
}

/// The model of a user.
pub struct UserModel {
    pub addr: Seq<char>,
    pub username: Option<Seq<char>>,
}

impl View for User {
    type V = UserModel;

    open spec fn view(&self) -> UserModel {
        UserModel {
            addr: self.addr@,
            username: match &self.username {
                Some(u) => Some(u@),
                None => None,
            },
        }
    }
}

/// Whether the session is in a room, and which.
#[derive(Debug)]
pub enum Membership {
    Outside,
    Inside { room: String },
}

/// The model of a membership.
pub enum MembershipModel {
    Outside,
    Inside { room: Seq<char> },
}

impl View for Membership {
    type V = MembershipModel;

    open spec fn view(&self) -> MembershipModel {
        match self {
            Membership::Outside => MembershipModel::Outside,
            Membership::Inside { room } => MembershipModel::Inside { room: room@ },
        }
    }
}

/// What the session does once a leave it started has run its course:
/// stand idle, go on to join another room, or disconnect.
#[derive(Debug)]
pub enum AfterLeave {
    Stay,
    Join(String),
    Exit,
}

/// The model of an `AfterLeave`.
pub enum AfterLeaveModel {
    Stay,
    Join(Seq<char>),
    Exit,
}

impl View for AfterLeave {
    type V = AfterLeaveModel;

    open spec fn view(&self) -> AfterLeaveModel {
        match self {
            AfterLeave::Stay => AfterLeaveModel::Stay,
            AfterLeave::Join(r) => AfterLeaveModel::Join(r@),
            AfterLeave::Exit => AfterLeaveModel::Exit,
        }
    }
}

impl AfterLeave {
    fn dup(&self) -> (r: AfterLeave)
        ensures
            r@ == self@,
    {
        match self {
            AfterLeave::Stay => AfterLeave::Stay,
            AfterLeave::Join(s) => AfterLeave::Join(s.clone()),
            AfterLeave::Exit => AfterLeave::Exit,
        }
    }
}

/// Where the session stands inside the handling of one command. Each
/// command that needs the registry, the durable log or a broker walks
/// through its phases one round trip at a time; `Idle` accepts the
/// next command.
#[derive(Debug)]
pub enum Phase {
    Idle,
    JoinLookup { target: String },
    JoinAppend { target: String },
    JoinSend { target: String },
    JoinHistory { target: String },
    LeaveAppend { room: String, next: AfterLeave },
    LeaveSend { room: String, next: AfterLeave },
    ChatAppend { room: String },
    ChatSend { room: String },
    CreateWait { room: String },
    ListWait,
}

/// The model of a phase.
pub enum PhaseModel {
    Idle,
    JoinLookup { target: Seq<char> },
    JoinAppend { target: Seq<char> },
    JoinSend { target: Seq<char> },
    JoinHistory { target: Seq<char> },
    LeaveAppend { room: Seq<char>, next: AfterLeaveModel },
    LeaveSend { room: Seq<char>, next: AfterLeaveModel },
    ChatAppend { room: Seq<char> },
    ChatSend { room: Seq<char> },
    CreateWait { room: Seq<char> },
    ListWait,
}

impl View for Phase {
    type V = PhaseModel;

    open spec fn view(&self) -> PhaseModel {
        match self {
            Phase::Idle => PhaseModel::Idle,
            Phase::JoinLookup { target } => PhaseModel::JoinLookup { target: target@ },
            Phase::JoinAppend { target } => PhaseModel::JoinAppend { target: target@ },
            Phase::JoinSend { target } => PhaseModel::JoinSend { target: target@ },
            Phase::JoinHistory { target } => PhaseModel::JoinHistory { target: target@ },
            Phase::LeaveAppend { room, next } => PhaseModel::LeaveAppend {
                room: room@,
                next: next@,
            },
            Phase::LeaveSend { room, next } => PhaseModel::LeaveSend { room: room@, next: next@ },
            Phase::ChatAppend { room } => PhaseModel::ChatAppend { room: room@ },
            Phase::ChatSend { room } => PhaseModel::ChatSend { room: room@ },
            Phase::CreateWait { room } => PhaseModel::CreateWait { room: room@ },
            Phase::ListWait => PhaseModel::ListWait,
        }
    }
}

/// What the session observes: a parsed command from its connection, or
/// the outcome of the one outside round trip its current phase awaits.
#[derive(Debug)]
pub enum Input {
    Cmd(Command),
    Lookup { found: bool },
    Append { result: Result<String, RoomError> },
    Sent { ok: bool },
    History { result: Result<Vec<String>, RoomError> },
    Listing { result: Result<Vec<String>, RoomError> },
    Created { result: Result<(), RoomError> },
}

/// The model of an input.
pub enum InputModel {
    Cmd(CmdModel),
    Lookup { found: bool },
    Append { result: Result<Seq<char>, RoomError> },
    Sent { ok: bool },
    History { result: Result<Seq<Seq<char>>, RoomError> },
    Listing { result: Result<Seq<Seq<char>>, RoomError> },
    Created { result: Result<(), RoomError> },
}

impl View for Input {
    type V = InputModel;

    open spec fn view(&self) -> InputModel {
        match self {
            Input::Cmd(c) => InputModel::Cmd(c@),
            Input::Lookup { found } => InputModel::Lookup { found: *found },
            Input::Append { result } => InputModel::Append {
                result: match result {
                    Ok(m) => Ok(m@),
                    Err(e) => Err(*e),
                },
            },
            Input::Sent { ok } => InputModel::Sent { ok: *ok },
            Input::History { result } => InputModel::History {
                result: match result {
                    Ok(l) => Ok(lines_model(l@)),
                    Err(e) => Err(*e),
                },
            },
            Input::Listing { result } => InputModel::Listing {
                result: match result {
                    Ok(l) => Ok(lines_model(l@)),
                    Err(e) => Err(*e),
                },
            },
            Input::Created { result } => InputModel::Created { result: *result },
        }
    }
}

/// What the session asks its surroundings to do, in order: write a
/// line back to this connection, perform one round trip against the
/// registry, the durable log or a broker, or close the connection.
#[derive(Debug)]
pub enum Action {
    Reply(String),
    DoLookup { room: String },
    DoAppend { room: String, event: RoomEvent, user: String },
    DoSendJoin { room: String, user: String, msg: String },
    DoSendLeave { room: String, user: String, msg: String },
    DoSendChat { room: String, user: String, msg: String },
    DoFetchHistory { room: String },
    DoList,
    DoCreate { room: String },
    Disconnect,
}

/// The model of an action.
pub enum ActionModel {
    Reply(Seq<char>),
    DoLookup { room: Seq<char> },
    DoAppend { room: Seq<char>, event: RoomEventModel, user: Seq<char> },
    DoSendJoin { room: Seq<char>, user: Seq<char>, msg: Seq<char> },
    DoSendLeave { room: Seq<char>, user: Seq<char>, msg: Seq<char> },
    DoSendChat { room: Seq<char>, user: Seq<char>, msg: Seq<char> },
    DoFetchHistory { room: Seq<char> },
    DoList,
    DoCreate { room: Seq<char> },
    Disconnect,
}

impl View for Action {
    type V = ActionModel;

    open spec fn view(&self) -> ActionModel {
        match self {
            Action::Reply(s) => ActionModel::Reply(s@),
            Action::DoLookup { room } => ActionModel::DoLookup { room: room@ },
            Action::DoAppend { room, event, user } => ActionModel::DoAppend {
                room: room@,
                event: event@,
                user: user@,
            },
            Action::DoSendJoin { room, user, msg } => ActionModel::DoSendJoin {
                room: room@,
                user: user@,
                msg: msg@,
            },
            Action::DoSendLeave { room, user, msg } => ActionModel::DoSendLeave {
                room: room@,
                user: user@,
                msg: msg@,
            },
            Action::DoSendChat { room, user, msg } => ActionModel::DoSendChat {
                room: room@,
                user: user@,
                msg: msg@,
            },
            Action::DoFetchHistory { room } => ActionModel::DoFetchHistory { room: room@ },
            Action::DoList => ActionModel::DoList,
            Action::DoCreate { room } => ActionModel::DoCreate { room: room@ },
            Action::Disconnect => ActionModel::Disconnect,
        }
    }
}

/// A sequence of session actions, as models.
pub open spec fn actions_model(s: Seq<Action>) -> Seq<ActionModel> {
    s.map_values(|a: Action| a@)
}

/// The connect banner.
pub open spec fn greeting_text() -> Seq<char> {
    "Welcome to ChatsApp!\nEnter \">help\" for a list of commands and their usage.\n\n\n"@
}

/// The reply to an unknown command.
pub open spec fn invalid_text() -> Seq<char> {
    "Invalid command.\nEnter \">help\" for a list of commands and their usage.\n"@
}

/// The command summary.
pub open spec fn help_text() -> Seq<char> {
    "Commands:\n>help              - Display commands\n>exit              - Close connection\n>list              - List rooms\n>me                - Your user info\n>set-username name - Set username\n>create-room room  - Create room\n>join-room room    - Join room\n"@
}

/// The reply to a message or leave issued outside any room.
pub open spec fn not_in_room_text() -> Seq<char> {
    "You're not currently in a room.\n"@
}

/// The reply to a join naming an unknown room.
pub open spec fn room_not_found_text() -> Seq<char> {
    "Room not found\n"@
}

/// The reply to a join attempted before a username was set.
pub open spec fn set_username_text() -> Seq<char> {
    "You need to pick a username before joining a room\n"@
}

/// The connect banner, as written to the socket.
pub fn greeting_line() -> (r: String)
    ensures
        r@ == greeting_text(),
{
    "Welcome to ChatsApp!\nEnter \">help\" for a list of commands and their usage.\n\n\n".to_owned()
}

/// The reply to an unknown command, as written to the socket.
pub fn invalid_line() -> (r: String)
    ensures
        r@ == invalid_text(),
{
    "Invalid command.\nEnter \">help\" for a list of commands and their usage.\n".to_owned()
}

/// The command summary, as written to the socket.
pub fn help_line() -> (r: String)
    ensures
        r@ == help_text(),
{
    "Commands:\n>help              - Display commands\n>exit              - Close connection\n>list              - List rooms\n>me                - Your user info\n>set-username name - Set username\n>create-room room  - Create room\n>join-room room    - Join room\n".to_owned()
}

/// The not-in-a-room reply, as written to the socket.
pub fn not_in_room_line() -> (r: String)
    ensures
        r@ == not_in_room_text(),
{
    "You're not currently in a room.\n".to_owned()
}

/// The room-not-found reply, as written to the socket.
pub fn room_not_found_line() -> (r: String)
    ensures
        r@ == room_not_found_text(),
{
    "Room not found\n".to_owned()
}

/// The username-required reply, as written to the socket.
pub fn set_username_line() -> (r: String)
    ensures
        r@ == set_username_text(),
{
    "You need to pick a username before joining a room\n".to_owned()
}

/// How the username reads in the `>me` reply.
pub open spec fn username_text(u: Option<Seq<char>>) -> Seq<char> {
    match u {
        None => "None"@,
        Some(n) => "Some(\""@ + n + "\")"@,
    }
}

/// The `>me` reply for a user.
pub open spec fn user_info_text(u: UserModel) -> Seq<char> {
    "Username: "@ + username_text(u.username) + ", IP: "@ + u.addr + "\n"@
}

impl User {
    /// The `>me` reply: the username as set (or `None`) and the remote
    /// address.
    pub fn info(&self) -> (r: String)
        ensures
            r@ == user_info_text(self@),
    {
        let mut r = "Username: ".to_owned();
        match &self.username {
            None => r.append("None"),
            Some(n) => {
                r.append("Some(\"");
                r.append(n.as_str());
                r.append("\")");
            },
        }
        r.append(", IP: ");
        r.append(self.addr.as_str());
        r.append("\n");
        r
    }
}

/// The model of a whole session.
pub struct SessionModel {
    pub user: UserModel,
    pub membership: MembershipModel,
    pub phase: PhaseModel,
}

/// Phases that can only be reached once a username is set.
pub open spec fn phase_needs_user(p: PhaseModel) -> bool {
    !(p is Idle || p is ListWait || p is CreateWait)
}

/// The session invariant: inside a room, and in every phase past the
/// username check, a username is set.
pub open spec fn session_wf(s: SessionModel) -> bool {
    &&& (s.membership is Inside ==> s.user.username is Some)
    &&& (phase_needs_user(s.phase) ==> s.user.username is Some)
}

/// What a finished leave leads into: standing idle, starting the join
/// of `r`, or disconnecting.
pub open spec fn proceed_spec(s: SessionModel, next: AfterLeaveModel) -> (
    SessionModel,
    Seq<ActionModel>,
) {
    match next {
        AfterLeaveModel::Stay => (SessionModel { phase: PhaseModel::Idle, ..s }, Seq::empty()),
        AfterLeaveModel::Join(r) => (
            SessionModel { phase: PhaseModel::JoinLookup { target: r }, ..s },
            seq![ActionModel::DoLookup { room: r }],
        ),
        AfterLeaveModel::Exit => (
            SessionModel { phase: PhaseModel::Idle, ..s },
            seq![ActionModel::Disconnect],
        ),
    }
}

/// The session's step on a parsed command, taken only while idle.
pub open spec fn cmd_spec(s: SessionModel, c: CmdModel) -> (SessionModel, Seq<ActionModel>) {
    if !(s.phase is Idle) {
        (s, Seq::empty())
    } else {
        match c {
            CmdModel::Help => (s, seq![ActionModel::Reply(help_text())]),
            CmdModel::List => (
                SessionModel { phase: PhaseModel::ListWait, ..s },
                seq![ActionModel::DoList],
            ),
            CmdModel::Me => (s, seq![ActionModel::Reply(user_info_text(s.user))]),
            CmdModel::SetUsername(u) => (
                SessionModel { user: UserModel { username: Some(u), ..s.user }, ..s },
                Seq::empty(),
            ),
            CmdModel::CreateRoom(r) => (
                SessionModel { phase: PhaseModel::CreateWait { room: r }, ..s },
                seq![ActionModel::DoCreate { room: r }],
            ),
            CmdModel::JoinRoom(r) => {
                match s.user.username {
                    None => (s, seq![ActionModel::Reply(set_username_text())]),
                    Some(u) => {
                        match s.membership {
                            MembershipModel::Outside => (
                                SessionModel { phase: PhaseModel::JoinLookup { target: r }, ..s },
                                seq![ActionModel::DoLookup { room: r }],
                            ),
                            MembershipModel::Inside { room } => (
                                SessionModel {
                                    membership: MembershipModel::Outside,
                                    phase: PhaseModel::LeaveAppend {
                                        room,
                                        next: AfterLeaveModel::Join(r),
                                    },
                                    ..s
                                },
                                seq![
                                    ActionModel::DoAppend {
                                        room,
                                        event: RoomEventModel::Leave,
                                        user: u,
                                    },
                                ],
                            ),
                        }
                    },
                }
            },
            CmdModel::Message(m) => {
                match s.membership {
                    MembershipModel::Inside { room } => (
                        SessionModel { phase: PhaseModel::ChatAppend { room }, ..s },
                        seq![
                            ActionModel::DoAppend {
                                room,
                                event: RoomEventModel::Chat(m),
                                user: s.user.username->Some_0,
                            },
                        ],
                    ),
                    MembershipModel::Outside => (s, seq![ActionModel::Reply(not_in_room_text())]),
                }
            },
            CmdModel::Leave => {
                match s.membership {
                    MembershipModel::Inside { room } => (
                        SessionModel {
                            membership: MembershipModel::Outside,
                            phase: PhaseModel::LeaveAppend { room, next: AfterLeaveModel::Stay },
                            ..s
                        },
                        seq![
                            ActionModel::DoAppend {
                                room,
                                event: RoomEventModel::Leave,
                                user: s.user.username->Some_0,
                            },
                        ],
                    ),
                    MembershipModel::Outside => (s, seq![ActionModel::Reply(not_in_room_text())]),
                }
            },
            CmdModel::Invalid => (s, seq![ActionModel::Reply(invalid_text())]),
            CmdModel::Exit => {
                match s.membership {
                    MembershipModel::Inside { room } => (
                        SessionModel {
                            membership: MembershipModel::Outside,
                            phase: PhaseModel::LeaveAppend { room, next: AfterLeaveModel::Exit },
                            ..s
                        },
                        seq![
                            ActionModel::DoAppend {
                                room,
                                event: RoomEventModel::Leave,
                                user: s.user.username->Some_0,
                            },
                        ],
                    ),
                    MembershipModel::Outside => (s, seq![ActionModel::Disconnect]),
                }
            },
        }
    }
}

/// The session's step on the registry's answer to a join lookup: an
/// unknown room replies RoomNotFound and changes nothing else; a known
/// room goes on to record the join in the durable log.
pub open spec fn lookup_spec(s: SessionModel, found: bool) -> (SessionModel, Seq<ActionModel>) {
    match s.phase {
        PhaseModel::JoinLookup { target } => {
            if found {
                (
                    SessionModel { phase: PhaseModel::JoinAppend { target }, ..s },
                    seq![
                        ActionModel::DoAppend {
                            room: target,
                            event: RoomEventModel::Join,
                            user: s.user.username->Some_0,
                        },
                    ],
                )
            } else {
                (
                    SessionModel { phase: PhaseModel::Idle, ..s },
                    seq![ActionModel::Reply(room_not_found_text())],
                )
            }
        },
        _ => (s, Seq::empty()),
    }
}

/// The session's step on the durable log's answer to an append: a
/// failure is reported to this connection and the operation abandoned
/// (a failed leave still proceeds to what was to follow it); the
/// formatted line of a success is submitted to the room's broker.
pub open spec fn append_spec(s: SessionModel, result: Result<Seq<char>, RoomError>) -> (
    SessionModel,
    Seq<ActionModel>,
) {
    match s.phase {
        PhaseModel::JoinAppend { target } => {
            match result {
                Ok(m) => (
                    SessionModel { phase: PhaseModel::JoinSend { target }, ..s },
                    seq![
                        ActionModel::DoSendJoin {
                            room: target,
                            user: s.user.username->Some_0,
                            msg: m,
                        },
                    ],
                ),
                Err(e) => (
                    SessionModel { phase: PhaseModel::Idle, ..s },
                    seq![ActionModel::Reply(error_text(e))],
                ),
            }
        },
        PhaseModel::LeaveAppend { room, next } => {
            match result {
                Ok(m) => (
                    SessionModel { phase: PhaseModel::LeaveSend { room, next }, ..s },
                    seq![
                        ActionModel::DoSendLeave {
                            room,
                            user: s.user.username->Some_0,
                            msg: m,
                        },
                    ],
                ),
                Err(e) => {
                    let (s2, acts) = proceed_spec(s, next);
                    (s2, seq![ActionModel::Reply(error_text(e))] + acts)
                },
            }
        },
        PhaseModel::ChatAppend { room } => {
            match result {
                Ok(m) => (
                    SessionModel { phase: PhaseModel::ChatSend { room }, ..s },
                    seq![
                        ActionModel::DoSendChat {
                            room,
                            user: s.user.username->Some_0,
                            msg: m,
                        },
                    ],
                ),
                Err(e) => (
                    SessionModel { phase: PhaseModel::Idle, ..s },
                    seq![ActionModel::Reply(error_text(e))],
                ),
            }
        },
        _ => (s, Seq::empty()),
    }
}

/// The session's step on a broker submission's outcome. Only a
/// delivered join makes the session a member: it then fetches the
/// room's history. A failed send is reported; a leave proceeds to what
/// was to follow it either way.
pub open spec fn sent_spec(s: SessionModel, ok: bool) -> (SessionModel, Seq<ActionModel>) {
    match s.phase {
        PhaseModel::JoinSend { target } => {
            if ok {
                (
                    SessionModel {
                        membership: MembershipModel::Inside { room: target },
                        phase: PhaseModel::JoinHistory { target },
                        ..s
                    },
                    seq![ActionModel::DoFetchHistory { room: target }],
                )
            } else {
                (
                    SessionModel { phase: PhaseModel::Idle, ..s },
                    seq![ActionModel::Reply(error_text(RoomError::FailedToSend))],
                )
            }
        },
        PhaseModel::LeaveSend { room, next } => {
            let (s2, acts) = proceed_spec(s, next);
            if ok {
                (s2, acts)
            } else {
                (s2, seq![ActionModel::Reply(error_text(RoomError::FailedToSend))] + acts)
            }
        },
        PhaseModel::ChatSend { room } => {
            if ok {
                (SessionModel { phase: PhaseModel::Idle, ..s }, Seq::empty())
            } else {
                (
                    SessionModel { phase: PhaseModel::Idle, ..s },
                    seq![ActionModel::Reply(error_text(RoomError::FailedToSend))],
                )
            }
        },
        _ => (s, Seq::empty()),
    }
}

/// The session's step on the fetched history: the lines are written
/// back as they came (they already end in newlines); a failure is
/// reported, but the session joined when the broker took its join.
pub open spec fn history_spec(s: SessionModel, result: Result<Seq<Seq<char>>, RoomError>) -> (
    SessionModel,
    Seq<ActionModel>,
) {
    match s.phase {
        PhaseModel::JoinHistory { target } => {
            match result {
                Ok(l) => (
                    SessionModel { phase: PhaseModel::Idle, ..s },
                    seq![ActionModel::Reply(joined_text(l, false))],
                ),
                Err(e) => (
                    SessionModel { phase: PhaseModel::Idle, ..s },
                    seq![ActionModel::Reply(error_text(e))],
                ),
            }
        },
        _ => (s, Seq::empty()),
    }
}

/// The session's step on the room listing: names are written one per
/// line; a failure is reported.
pub open spec fn listing_spec(s: SessionModel, result: Result<Seq<Seq<char>>, RoomError>) -> (
    SessionModel,
    Seq<ActionModel>,
) {
    match s.phase {
        PhaseModel::ListWait => {
            match result {
                Ok(l) => (
                    SessionModel { phase: PhaseModel::Idle, ..s },
                    seq![ActionModel::Reply(joined_text(l, true))],
                ),
                Err(e) => (
                    SessionModel { phase: PhaseModel::Idle, ..s },
                    seq![ActionModel::Reply(error_text(e))],
                ),
            }
        },
        _ => (s, Seq::empty()),
    }
}

/// The session's step on the outcome of a room creation: a failure
/// (RoomNameTaken among them) is reported; success writes nothing.
pub open spec fn created_spec(s: SessionModel, result: Result<(), RoomError>) -> (
    SessionModel,
    Seq<ActionModel>,
) {
    match s.phase {
        PhaseModel::CreateWait { room } => {
            match result {
                Ok(_) => (SessionModel { phase: PhaseModel::Idle, ..s }, Seq::empty()),
                Err(e) => (
                    SessionModel { phase: PhaseModel::Idle, ..s },
                    seq![ActionModel::Reply(error_text(e))],
                ),
            }
        },
        _ => (s, Seq::empty()),
    }
}

/// The session state machine's whole behaviour on one observation: the
/// session after it, and the actions to perform, in order. An
/// observation that its phase does not await changes nothing.
pub open spec fn step_spec(s: SessionModel, i: InputModel) -> (SessionModel, Seq<ActionModel>) {
    match i {
        InputModel::Cmd(c) => cmd_spec(s, c),
        InputModel::Lookup { found } => lookup_spec(s, found),
        InputModel::Append { result } => append_spec(s, result),
        InputModel::Sent { ok } => sent_spec(s, ok),
        InputModel::History { result } => history_spec(s, result),
        InputModel::Listing { result } => listing_spec(s, result),
        InputModel::Created { result } => created_spec(s, result),
    }
}

/// The per-connection session state machine. It holds the identity and
/// membership of one connection and decides, one observation at a
/// time, what to write back and what to ask of the registry, the
/// durable log and the room brokers; the surrounding task performs the
/// round trips and feeds their outcomes back in.
#[derive(Debug)]
pub struct Session {
    pub user: User,
    pub membership: Membership,
    pub phase: Phase,
}

impl View for Session {
    type V = SessionModel;

    open spec fn view(&self) -> SessionModel {
        SessionModel { user: self.user@, membership: self.membership@, phase: self.phase@ }
    }
}

impl Session {
    /// A fresh session for a connection from `addr`: no username, in
    /// no room, awaiting its first command.
    pub fn new(addr: String) -> (s: Session)
        ensures
            s@.user.addr == addr@,
            s@.user.username is None,
            s@.membership is Outside,
            s@.phase is Idle,
            session_wf(s@),
    {
        Session {
            user: User { addr, username: None },
            membership: Membership::Outside,
            phase: Phase::Idle,
        }
    }

    fn current_user(&self) -> (r: String)
        requires
            self@.user.username is Some,
        ensures
            Some(r@) == self@.user.username,
    {
        match &self.user.username {
            Some(u) => u.clone(),
            None => String::new(),
        }
    }

    /// Feed one observation to the state machine; returns the actions
    /// to perform, in order, exactly as `step_spec` describes.
    pub fn step(&mut self, input: Input) -> (acts: Vec<Action>)
        requires
            session_wf(old(self)@),
        ensures
            final(self)@ == step_spec(old(self)@, input@).0,
            actions_model(acts@) == step_spec(old(self)@, input@).1,
            session_wf(final(self)@),
    {
        match input {
            Input::Cmd(c) => self.on_cmd(c),
            Input::Lookup { found } => self.on_lookup(found),
            Input::Append { result } => self.on_append(result),
            Input::Sent { ok } => self.on_sent(ok),
            Input::History { result } => self.on_history(result),
            Input::Listing { result } => self.on_listing(result),
            Input::Created { result } => self.on_created(result),
        }
    }

    fn on_cmd(&mut self, c: Command) -> (acts: Vec<Action>)
        requires
            session_wf(old(self)@),
        ensures
            final(self)@ == cmd_spec(old(self)@, c@).0,
            actions_model(acts@) == cmd_spec(old(self)@, c@).1,
            session_wf(final(self)@),
    {
        let ghost s0 = self@;
        let mut acts: Vec<Action> = Vec::new();
        let idle = matches!(self.phase, Phase::Idle);
        if !idle {
            proof {
                assert(actions_model(acts@) =~= cmd_spec(s0, c@).1);
            }
            return acts;
        }
        match c {
            Command::Help => {
                acts.push(Action::Reply(help_line()));
            },
            Command::List => {
                self.phase = Phase::ListWait;
                acts.push(Action::DoList);
            },
            Command::Me => {
                acts.push(Action::Reply(self.user.info()));
            },
            Command::SetUsername(u) => {
                self.user.username = Some(u);
            },
            Command::CreateRoom(r) => {
                self.phase = Phase::CreateWait { room: r.clone() };
                acts.push(Action::DoCreate { room: r });
            },
            Command::JoinRoom(r) => {
                if self.user.username.is_none() {
                    acts.push(Action::Reply(set_username_line()));
                } else {
                    match &self.membership {
                        Membership::Outside => {
                            self.phase = Phase::JoinLookup { target: r.clone() };
                            acts.push(Action::DoLookup { room: r });
                        },
                        Membership::Inside { room } => {
                            let cur = room.clone();
                            let u = self.current_user();
                            self.membership = Membership::Outside;
                            self.phase = Phase::LeaveAppend {
                                room: cur.clone(),
                                next: AfterLeave::Join(r),
                            };
                            acts.push(
                                Action::DoAppend { room: cur, event: RoomEvent::Leave, user: u },
                            );
                        },
                    }
                }
            },
            Command::Message(m) => {
                match &self.membership {
                    Membership::Inside { room } => {
                        let cur = room.clone();
                        let u = self.current_user();
                        self.phase = Phase::ChatAppend { room: cur.clone() };
                        acts.push(
                            Action::DoAppend { room: cur, event: RoomEvent::Chat(m), user: u },
                        );
                    },
                    Membership::Outside => {
                        acts.push(Action::Reply(not_in_room_line()));
                    },
                }
            },
            Command::Leave => {
                match &self.membership {
                    Membership::Inside { room } => {
                        let cur = room.clone();
                        let u = self.current_user();
                        self.membership = Membership::Outside;
                        self.phase = Phase::LeaveAppend {
                            room: cur.clone(),
                            next: AfterLeave::Stay,
                        };
                        acts.push(
                            Action::DoAppend { room: cur, event: RoomEvent::Leave, user: u },
                        );
                    },
                    Membership::Outside => {
                        acts.push(Action::Reply(not_in_room_line()));
                    },
                }
            },
            Command::Invalid => {
                acts.push(Action::Reply(invalid_line()));
            },
            Command::Exit => {
                match &self.membership {
                    Membership::Inside { room } => {
                        let cur = room.clone();
                        let u = self.current_user();
                        self.membership = Membership::Outside;
                        self.phase = Phase::LeaveAppend {
                            room: cur.clone(),
                            next: AfterLeave::Exit,
                        };
                        acts.push(
                            Action::DoAppend { room: cur, event: RoomEvent::Leave, user: u },
                        );
                    },
                    Membership::Outside => {
                        acts.push(Action::Disconnect);
                    },
                }
            },
        }
        proof {
            assert(actions_model(acts@) =~= cmd_spec(s0, c@).1);
        }
        acts
    }

    fn on_lookup(&mut self, found: bool) -> (acts: Vec<Action>)
        requires
            session_wf(old(self)@),
        ensures
            final(self)@ == lookup_spec(old(self)@, found).0,
            actions_model(acts@) == lookup_spec(old(self)@, found).1,
            session_wf(final(self)@),
    {
        let ghost s0 = self@;
        let mut acts: Vec<Action> = Vec::new();
        match &self.phase {
            Phase::JoinLookup { target } => {
                let t = target.clone();
                if found {
                    let u = self.current_user();
                    self.phase = Phase::JoinAppend { target: t.clone() };
                    acts.push(Action::DoAppend { room: t, event: RoomEvent::Join, user: u });
                } else {
                    self.phase = Phase::Idle;
                    acts.push(Action::Reply(room_not_found_line()));
                }
            },
            _ => {},
        }
        proof {
            assert(actions_model(acts@) =~= lookup_spec(s0, found).1);
        }
        acts
    }

    fn proceed_after_leave(&mut self, next: AfterLeave, acts: &mut Vec<Action>)
        requires
            session_wf(old(self)@),
            old(self)@.user.username is Some,
        ensures
            final(self)@ == proceed_spec(old(self)@, next@).0,
            actions_model(final(acts)@) == actions_model(old(acts)@) + proceed_spec(
                old(self)@,
                next@,
            ).1,
            session_wf(final(self)@),
    {
        let ghost a0 = acts@;
        match next {
            AfterLeave::Stay => {
                self.phase = Phase::Idle;
                proof {
                    assert(actions_model(acts@) =~= actions_model(a0) + proceed_spec(
                        old(self)@,
                        next@,
                    ).1);
                }
            },
            AfterLeave::Join(r) => {
                self.phase = Phase::JoinLookup { target: r.clone() };
                acts.push(Action::DoLookup { room: r });
                proof {
                    assert(actions_model(acts@) =~= actions_model(a0) + proceed_spec(
                        old(self)@,
                        next@,
                    ).1);
                }
            },
            AfterLeave::Exit => {
                self.phase = Phase::Idle;
                acts.push(Action::Disconnect);
                proof {
                    assert(actions_model(acts@) =~= actions_model(a0) + proceed_spec(
                        old(self)@,
                        next@,
                    ).1);
                }
            },
        }
    }

    fn on_append(&mut self, result: Result<String, RoomError>) -> (acts: Vec<Action>)
        requires
            session_wf(old(self)@),
        ensures
            final(self)@ == append_spec(old(self)@, match result {
                Ok(m) => Ok(m@),
                Err(e) => Err(e),
            }).0,
            actions_model(acts@) == append_spec(old(self)@, match result {
                Ok(m) => Ok(m@),
                Err(e) => Err(e),
            }).1,
            session_wf(final(self)@),
    {
        let ghost s0 = self@;
        let ghost rm: Result<Seq<char>, RoomError> = match &result {
            Ok(m) => Ok(m@),
            Err(e) => Err(*e),
        };
        let mut acts: Vec<Action> = Vec::new();
        match &self.phase {
            Phase::JoinAppend { target } => {
                let t = target.clone();
                match result {
                    Ok(m) => {
                        let u = self.current_user();
                        self.phase = Phase::JoinSend { target: t.clone() };
                        acts.push(Action::DoSendJoin { room: t, user: u, msg: m });
                    },
                    Err(e) => {
                        self.phase = Phase::Idle;
                        acts.push(Action::Reply(e.message()));
                    },
                }
            },
            Phase::LeaveAppend { room, next } => {
                let rr = room.clone();
                let nx = next.dup();
                match result {
                    Ok(m) => {
                        let u = self.current_user();
                        self.phase = Phase::LeaveSend { room: rr.clone(), next: nx };
                        acts.push(Action::DoSendLeave { room: rr, user: u, msg: m });
                    },
                    Err(e) => {
                        acts.push(Action::Reply(e.message()));
                        self.proceed_after_leave(nx, &mut acts);
                    },
                }
            },
            Phase::ChatAppend { room } => {
                let rr = room.clone();
                match result {
                    Ok(m) => {
                        let u = self.current_user();
                        self.phase = Phase::ChatSend { room: rr.clone() };
                        acts.push(Action::DoSendChat { room: rr, user: u, msg: m });
                    },
                    Err(e) => {
                        self.phase = Phase::Idle;
                        acts.push(Action::Reply(e.message()));
                    },
                }
            },
            _ => {},
        }
        proof {
            assert(actions_model(acts@) =~= append_spec(s0, rm).1);
        }
        acts
    }

    fn on_sent(&mut self, ok: bool) -> (acts: Vec<Action>)
        requires
            session_wf(old(self)@),
        ensures
            final(self)@ == sent_spec(old(self)@, ok).0,
            actions_model(acts@) == sent_spec(old(self)@, ok).1,
            session_wf(final(self)@),
    {
        let ghost s0 = self@;
        let mut acts: Vec<Action> = Vec::new();
        match &self.phase {
            Phase::JoinSend { target } => {
                let t = target.clone();
                if ok {
                    self.membership = Membership::Inside { room: t.clone() };
                    self.phase = Phase::JoinHistory { target: t.clone() };
                    acts.push(Action::DoFetchHistory { room: t });
                } else {
                    self.phase = Phase::Idle;
                    acts.push(Action::Reply(RoomError::FailedToSend.message()));
                }
            },
            Phase::LeaveSend { room, next } => {
                let nx = next.dup();
                if !ok {
                    acts.push(Action::Reply(RoomError::FailedToSend.message()));
                }
                self.proceed_after_leave(nx, &mut acts);
            },
            Phase::ChatSend { .. } => {
                self.phase = Phase::Idle;
                if !ok {
                    acts.push(Action::Reply(RoomError::FailedToSend.message()));
                }
            },
            _ => {},
        }
        proof {
            assert(actions_model(acts@) =~= sent_spec(s0, ok).1);
        }
        acts
    }

    fn on_history(&mut self, result: Result<Vec<String>, RoomError>) -> (acts: Vec<Action>)
        requires
            session_wf(old(self)@),
        ensures
            final(self)@ == history_spec(old(self)@, match result {
                Ok(l) => Ok(lines_model(l@)),
                Err(e) => Err(e),
            }).0,
            actions_model(acts@) == history_spec(old(self)@, match result {
                Ok(l) => Ok(lines_model(l@)),
                Err(e) => Err(e),
            }).1,
            session_wf(final(self)@),
    {
        let ghost s0 = self@;
        let ghost rm: Result<Seq<Seq<char>>, RoomError> = match &result {
            Ok(l) => Ok(lines_model(l@)),
            Err(e) => Err(*e),
        };
        let mut acts: Vec<Action> = Vec::new();
        match &self.phase {
            Phase::JoinHistory { .. } => {
                self.phase = Phase::Idle;
                match result {
                    Ok(l) => {
                        acts.push(Action::Reply(crate::text::join_lines(&l, false)));
                    },
                    Err(e) => {
                        acts.push(Action::Reply(e.message()));
                    },
                }
            },
            _ => {},
        }
        proof {
            assert(actions_model(acts@) =~= history_spec(s0, rm).1);
        }
        acts
    }

    fn on_listing(&mut self, result: Result<Vec<String>, RoomError>) -> (acts: Vec<Action>)
        requires
            session_wf(old(self)@),
        ensures
            final(self)@ == listing_spec(old(self)@, match result {
                Ok(l) => Ok(lines_model(l@)),
                Err(e) => Err(e),
            }).0,
            actions_model(acts@) == listing_spec(old(self)@, match result {
                Ok(l) => Ok(lines_model(l@)),
                Err(e) => Err(e),
            }).1,
            session_wf(final(self)@),
    {
        let ghost s0 = self@;
        let ghost rm: Result<Seq<Seq<char>>, RoomError> = match &result {
            Ok(l) => Ok(lines_model(l@)),
            Err(e) => Err(*e),
        };
        let mut acts: Vec<Action> = Vec::new();
        match &self.phase {
            Phase::ListWait => {
                self.phase = Phase::Idle;
                match result {
                    Ok(l) => {
                        acts.push(Action::Reply(crate::text::join_lines(&l, true)));
                    },
                    Err(e) => {
                        acts.push(Action::Reply(e.message()));
                    },
                }
            },
            _ => {},
        }
        proof {
            assert(actions_model(acts@) =~= listing_spec(s0, rm).1);
        }
        acts
    }

    fn on_created(&mut self, result: Result<(), RoomError>) -> (acts: Vec<Action>)
        requires
            session_wf(old(self)@),
        ensures
            final(self)@ == created_spec(old(self)@, result).0,
            actions_model(acts@) == created_spec(old(self)@, result).1,
            session_wf(final(self)@),
    {
        let ghost s0 = self@;
        let mut acts: Vec<Action> = Vec::new();
        match &self.phase {
            Phase::CreateWait { .. } => {
                self.phase = Phase::Idle;
                match result {
                    Ok(_) => {},
                    Err(e) => {
                        acts.push(Action::Reply(e.message()));
                    },
                }
            },
            _ => {},
        }
        proof {
            assert(actions_model(acts@) =~= created_spec(s0, result).1);
        }
        acts
    }
}

/// A join attempted with no username set is rejected with the
/// username-required reply alone: the session is left exactly as it
/// was, and nothing is asked of the registry, the durable log or any
/// broker.
pub proof fn lemma_join_needs_username(s: SessionModel, r: Seq<char>)
    requires
        s.phase is Idle,
        s.user.username is None,
    ensures
        step_spec(s, InputModel::Cmd(CmdModel::JoinRoom(r))).0 == s,
        step_spec(s, InputModel::Cmd(CmdModel::JoinRoom(r))).1 == seq![
            ActionModel::Reply(set_username_text()),
        ],
{
}

/// A join naming a room the registry does not know asks only the one
/// lookup, replies RoomNotFound, and returns the session to exactly
/// where it stood: same user, same membership, idle again. Nothing is
/// appended to the durable log and nothing reaches any broker.
pub proof fn lemma_join_room_not_found(s: SessionModel, r: Seq<char>)
    requires
        s.phase is Idle,
        s.membership is Outside,
        s.user.username is Some,
    ensures
        ({
            let (s1, a1) = step_spec(s, InputModel::Cmd(CmdModel::JoinRoom(r)));
            let (s2, a2) = step_spec(s1, InputModel::Lookup { found: false });
            &&& a1 == seq![ActionModel::DoLookup { room: r }]
            &&& a2 == seq![ActionModel::Reply(room_not_found_text())]
            &&& s2 == s
        }),
{
    let (s1, a1) = step_spec(s, InputModel::Cmd(CmdModel::JoinRoom(r)));
    let (s2, a2) = step_spec(s1, InputModel::Lookup { found: false });
    assert(s.phase == PhaseModel::Idle);
    assert(s2 == s);
}

/// Switching rooms: from inside room `a`, a join of room `b` records
/// and submits exactly one leave for `a`, then performs the join of
/// `b`; with every round trip successful the session ends inside `b`,
/// idle, with the same user. Over the whole exchange exactly one leave
/// event is submitted (to `a`'s broker) and exactly one join event (to
/// `b`'s): each trip's actions are the singletons below.
pub proof fn lemma_switch_rooms(
    s: SessionModel,
    a: Seq<char>,
    b: Seq<char>,
    leave_line: Seq<char>,
    join_line: Seq<char>,
    history: Seq<Seq<char>>,
)
    requires
        s.phase is Idle,
        s.membership == (MembershipModel::Inside { room: a }),
        s.user.username is Some,
    ensures
        ({
            let u = s.user.username->Some_0;
            let (s1, a1) = step_spec(s, InputModel::Cmd(CmdModel::JoinRoom(b)));
            let (s2, a2) = step_spec(s1, InputModel::Append { result: Ok(leave_line) });
            let (s3, a3) = step_spec(s2, InputModel::Sent { ok: true });
            let (s4, a4) = step_spec(s3, InputModel::Lookup { found: true });
            let (s5, a5) = step_spec(s4, InputModel::Append { result: Ok(join_line) });
            let (s6, a6) = step_spec(s5, InputModel::Sent { ok: true });
            let (s7, a7) = step_spec(s6, InputModel::History { result: Ok(history) });
            &&& a1 == seq![
                ActionModel::DoAppend { room: a, event: RoomEventModel::Leave, user: u },
            ]
            &&& a2 == seq![ActionModel::DoSendLeave { room: a, user: u, msg: leave_line }]
            &&& a3 == seq![ActionModel::DoLookup { room: b }]
            &&& a4 == seq![ActionModel::DoAppend { room: b, event: RoomEventModel::Join, user: u }]
            &&& a5 == seq![ActionModel::DoSendJoin { room: b, user: u, msg: join_line }]
            &&& a6 == seq![ActionModel::DoFetchHistory { room: b }]
            &&& a7 == seq![ActionModel::Reply(joined_text(history, false))]
            &&& s7.membership == (MembershipModel::Inside { room: b })
            &&& s7.phase is Idle
            &&& s7.user == s.user
        }),
{
}

} // verus!
