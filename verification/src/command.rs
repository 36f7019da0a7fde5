use vstd::prelude::*;
use vstd::string::*;

use crate::text::str_eq;

verus! {

/// A parsed client command. Any line that does not start with `>` is a
/// plain chat message; a line starting with `>` that matches no known
/// command shape is `Invalid`.
#[derive(Debug)]
pub enum Command {
    Help,
    List,
    Me,
    SetUsername(String),
    CreateRoom(String),
    JoinRoom(String),
    Message(String),
    Leave,
    Invalid,
    Exit,
}

/// The mathematical model of a command: the same shape over character
/// sequences.
pub enum CmdModel {
    Help,
    List,
    Me,
    SetUsername(Seq<char>),
    CreateRoom(Seq<char>),
    JoinRoom(Seq<char>),
    Message(Seq<char>),
    Leave,
    Invalid,
    Exit,
}

impl View for Command {
    type V = CmdModel;

    open spec fn view(&self) -> CmdModel {
        match self {
            Command::Help => CmdModel::Help,
            Command::List => CmdModel::List,
            Command::Me => CmdModel::Me,
            Command::SetUsername(s) => CmdModel::SetUsername(s@),
            Command::CreateRoom(s) => CmdModel::CreateRoom(s@),
            Command::JoinRoom(s) => CmdModel::JoinRoom(s@),
            Command::Message(s) => CmdModel::Message(s@),
            Command::Leave => CmdModel::Leave,
            Command::Invalid => CmdModel::Invalid,
            Command::Exit => CmdModel::Exit,
        }
    }
}

impl PartialEq for Command {
    fn eq(&self, other: &Self) -> bool {
        match (self, other) {
            (Command::Help, Command::Help) => true,
            (Command::List, Command::List) => true,
            (Command::Me, Command::Me) => true,
            (Command::SetUsername(a), Command::SetUsername(b)) => *a == *b,
            (Command::CreateRoom(a), Command::CreateRoom(b)) => *a == *b,
            (Command::JoinRoom(a), Command::JoinRoom(b)) => *a == *b,
            (Command::Message(a), Command::Message(b)) => *a == *b,
            (Command::Leave, Command::Leave) => true,
            (Command::Invalid, Command::Invalid) => true,
            (Command::Exit, Command::Exit) => true,
            _ => false,
        }
    }
}

impl vstd::std_specs::cmp::PartialEqSpecImpl for Command {
    open spec fn obeys_eq_spec() -> bool {
        true
    }

    open spec fn eq_spec(&self, other: &Command) -> bool {
        self@ == other@
    }
}

/// The index of the first space character of `s`, if any.
pub open spec fn first_space(s: Seq<char>) -> Option<int>
    decreases s.len(),
{
    if s.len() == 0 {
        None
    } else if s[0] == ' ' {
        Some(0int)
    } else {
        match first_space(s.skip(1)) {
            Some(i) => Some(i + 1),
            None => None,
        }
    }
}

/// What `Command::parse` yields on any line.
pub open spec fn parse_model(s: Seq<char>) -> CmdModel {
    if s.len() == 0 || s[0] != '>' {
        CmdModel::Message(s)
    } else if s == ">help"@ {
        CmdModel::Help
    } else if s == ">exit"@ {
        CmdModel::Exit
    } else if s == ">list"@ {
        CmdModel::List
    } else if s == ">leave"@ {
        CmdModel::Leave
    } else if s == ">me"@ {
        CmdModel::Me
    } else {
        match first_space(s) {
            None => CmdModel::Invalid,
            Some(i) => {
                let cmd = s.subrange(0, i);
                let rest = s.subrange(i + 1, s.len() as int);
                if cmd == ">set-username"@ {
                    CmdModel::SetUsername(rest)
                } else if cmd == ">create-room"@ {
                    CmdModel::CreateRoom(rest)
                } else if cmd == ">join-room"@ {
                    CmdModel::JoinRoom(rest)
                } else {
                    CmdModel::Invalid
                }
            },
        }
    }
}

proof fn lemma_first_space_at(s: Seq<char>, i: int)
    requires
        0 <= i < s.len(),
        s[i] == ' ',
        forall|j: int| 0 <= j < i ==> s[j] != ' ',
    ensures
        first_space(s) == Some(i),
    decreases i,
{
    if i == 0 {
    } else {
        assert(s[0] != ' ');
        let t = s.skip(1);
        assert(t[i - 1] == ' ');
        assert(forall|j: int| 0 <= j < i - 1 ==> t[j] == s[j + 1] && t[j] != ' ');
        lemma_first_space_at(t, i - 1);
    }
}

proof fn lemma_first_space_none(s: Seq<char>)
    requires
        forall|j: int| 0 <= j < s.len() ==> s[j] != ' ',
    ensures
        first_space(s) == None::<int>,
    decreases s.len(),
{
    if s.len() == 0 {
    } else {
        let t = s.skip(1);
        assert(forall|j: int| 0 <= j < t.len() ==> t[j] == s[j + 1] && t[j] != ' ');
        lemma_first_space_none(t);
    }
}

/// The index of the first space of `s`, searched left to right.
fn find_space(s: &str) -> (r: Option<usize>)
    ensures
        match r {
            Some(i) => first_space(s@) == Some(i as int) && i < s@.len(),
            None => first_space(s@) is None,
        },
{
    let n = s.unicode_len();
    let mut k: usize = 0;
    while k < n
        invariant
            0 <= k <= n,
            n == s@.len(),
            forall|j: int| 0 <= j < k ==> s@[j] != ' ',
        decreases n - k,
    {
        if s.get_char(k) == ' ' {
            proof {
                lemma_first_space_at(s@, k as int);
            }
            return Some(k);
        }
        k += 1;
    }
    proof {
        lemma_first_space_none(s@);
    }
    None
}

impl Command {
    /// Parse one input line into a command, exactly as `parse_model`
    /// describes: lines not starting with `>` are chat messages; the
    /// bare commands match whole; the three commands with an argument
    /// split at the first space.
    pub fn parse(s: String) -> (c: Command)
        ensures
            c@ == parse_model(s@),
    {
        let n = s.as_str().unicode_len();
        if n == 0 || s.as_str().get_char(0) != '>' {
            return Command::Message(s);
        }
        if str_eq(s.as_str(), ">help") {
            return Command::Help;
        }
        if str_eq(s.as_str(), ">exit") {
            return Command::Exit;
        }
        if str_eq(s.as_str(), ">list") {
            return Command::List;
        }
        if str_eq(s.as_str(), ">leave") {
            return Command::Leave;
        }
        if str_eq(s.as_str(), ">me") {
            return Command::Me;
        }
        match find_space(s.as_str()) {
            None => Command::Invalid,
            Some(i) => {
                let cmd = s.as_str().substring_char(0, i);
                let rest = s.as_str().substring_char(i + 1, n).to_owned();
                if str_eq(cmd, ">set-username") {
                    Command::SetUsername(rest)
                } else if str_eq(cmd, ">create-room") {
                    Command::CreateRoom(rest)
                } else if str_eq(cmd, ">join-room") {
                    Command::JoinRoom(rest)
                } else {
                    Command::Invalid
                }
            },
        }
    }
}

} // verus!
