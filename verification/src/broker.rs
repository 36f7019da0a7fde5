use vstd::prelude::*;

use crate::text::str_eq;

verus! {

/// One live room membership as the broker records it: the member's
/// username and the id of the bounded delivery queue (and its task)
/// that carries this member's outgoing lines.
pub struct Member {
    pub user: String,
    pub writer: u64,
}

/// The model of a membership entry.
pub struct MemberModel {
    pub user: Seq<char>,
    pub writer: u64,
}

impl View for Member {
    type V = MemberModel;

    open spec fn view(&self) -> MemberModel {
        MemberModel { user: self.user@, writer: self.writer }
    }
}

/// An event submitted to a room's broker. `writer` identifies the
/// joining connection's socket writer; the broker binds the member's
/// delivery queue to it.
pub enum BrokerEvent {
    JoinRoom { user: String, writer: u64, msg: String },
    LeaveRoom { user: String, msg: String },
    Message { user: String, msg: String },
}

/// The model of a broker event.
pub enum BrokerEventModel {
    JoinRoom { user: Seq<char>, writer: u64, msg: Seq<char> },
    LeaveRoom { user: Seq<char>, msg: Seq<char> },
    Message { user: Seq<char>, msg: Seq<char> },
}

impl View for BrokerEvent {
    type V = BrokerEventModel;

    open spec fn view(&self) -> BrokerEventModel {
        match self {
            BrokerEvent::JoinRoom { user, writer, msg } => BrokerEventModel::JoinRoom {
                user: user@,
                writer: *writer,
                msg: msg@,
            },
            BrokerEvent::LeaveRoom { user, msg } => BrokerEventModel::LeaveRoom {
                user: user@,
                msg: msg@,
            },
            BrokerEvent::Message { user, msg } => BrokerEventModel::Message {
                user: user@,
                msg: msg@,
            },
        }
    }
}

/// What the broker asks its surroundings to do after one event:
/// `Spawn` starts a delivery task draining the fresh queue `writer`;
/// `Close` drops a queue's send handle, which ends its task;
/// `Deliver` enqueues one line on a member's queue (a full or closed
/// queue is logged and skipped, never propagated).
pub enum BrokerAction {
    Spawn { writer: u64 },
    Close { writer: u64 },
    Deliver { writer: u64, msg: String },
}

/// The model of a broker action.
pub enum BrokerActionModel {
    Spawn { writer: u64 },
    Close { writer: u64 },
    Deliver { writer: u64, msg: Seq<char> },
}

impl View for BrokerAction {
    type V = BrokerActionModel;

    open spec fn view(&self) -> BrokerActionModel {
        match self {
            BrokerAction::Spawn { writer } => BrokerActionModel::Spawn { writer: *writer },
            BrokerAction::Close { writer } => BrokerActionModel::Close { writer: *writer },
            BrokerAction::Deliver { writer, msg } => BrokerActionModel::Deliver {
                writer: *writer,
                msg: msg@,
            },
        }
    }
}

/// A sequence of actions, as models.
pub open spec fn acts_model(s: Seq<BrokerAction>) -> Seq<BrokerActionModel> {
    s.map_values(|a: BrokerAction| a@)
}

/// The index of `user`'s membership entry, if any.
pub open spec fn find_member(ms: Seq<MemberModel>, user: Seq<char>) -> Option<int>
    decreases ms.len(),
{
    if ms.len() == 0 {
        None
    } else if ms[0].user == user {
        Some(0int)
    } else {
        match find_member(ms.skip(1), user) {
            Some(i) => Some(i + 1),
            None => None,
        }
    }
}

/// Usernames and delivery queues are both held by at most one member.
pub open spec fn members_wf(ms: Seq<MemberModel>) -> bool {
    forall|i: int, j: int|
        0 <= i < j < ms.len() ==> ms[i].user != ms[j].user && ms[i].writer != ms[j].writer
}

/// A join event must carry a queue id that no current member holds.
pub open spec fn event_writer_fresh(ms: Seq<MemberModel>, ev: BrokerEventModel) -> bool {
    match ev {
        BrokerEventModel::JoinRoom { writer, .. } => forall|i: int|
            0 <= i < ms.len() ==> ms[i].writer != writer,
        _ => true,
    }
}

/// The fan-out of one line: a `Deliver` to every member but the
/// sender, in member order.
pub open spec fn fan(ms: Seq<MemberModel>, sender: Seq<char>, msg: Seq<char>) -> Seq<
    BrokerActionModel,
>
    decreases ms.len(),
{
    if ms.len() == 0 {
        Seq::empty()
    } else {
        let rest = fan(ms.drop_last(), sender, msg);
        if ms.last().user == sender {
            rest
        } else {
            rest.push(BrokerActionModel::Deliver { writer: ms.last().writer, msg })
        }
    }
}

/// The broker's whole behaviour on one event: the member set after it,
/// and the actions it emits, in order.
///
/// A join with a known username replaces the stored queue id, closing
/// the stale queue, so that a rejoining connection's lines go to its
/// live socket; a fresh username is appended. Either way the join line
/// is fanned to every current member but the joiner. A leave removes
/// the member and closes their queue before fanning the leave line to
/// the rest; a chat line is fanned to everyone but the sender.
pub open spec fn broker_step(ms: Seq<MemberModel>, ev: BrokerEventModel) -> (
    Seq<MemberModel>,
    Seq<BrokerActionModel>,
) {
    match ev {
        BrokerEventModel::JoinRoom { user, writer, msg } => {
            match find_member(ms, user) {
                Some(i) => {
                    let ms2 = ms.update(i, MemberModel { user, writer });
                    (
                        ms2,
                        seq![
                            BrokerActionModel::Close { writer: ms[i].writer },
                            BrokerActionModel::Spawn { writer },
                        ] + fan(ms2, user, msg),
                    )
                },
                None => {
                    let ms2 = ms.push(MemberModel { user, writer });
                    (ms2, seq![BrokerActionModel::Spawn { writer }] + fan(ms2, user, msg))
                },
            }
        },
        BrokerEventModel::LeaveRoom { user, msg } => {
            match find_member(ms, user) {
                Some(i) => {
                    let ms2 = ms.remove(i);
                    (
                        ms2,
                        seq![BrokerActionModel::Close { writer: ms[i].writer }] + fan(
                            ms2,
                            user,
                            msg,
                        ),
                    )
                },
                None => (ms, fan(ms, user, msg)),
            }
        },
        BrokerEventModel::Message { user, msg } => (ms, fan(ms, user, msg)),
    }
}

proof fn lemma_find_member_at(ms: Seq<MemberModel>, user: Seq<char>, i: int)
    requires
        0 <= i < ms.len(),
        ms[i].user == user,
        forall|j: int| 0 <= j < i ==> ms[j].user != user,
    ensures
        find_member(ms, user) == Some(i),
    decreases i,
{
    if i == 0 {
    } else {
        let t = ms.skip(1);
        assert(forall|j: int| 0 <= j < i - 1 ==> t[j] == ms[j + 1] && t[j].user != user);
        assert(t[i - 1] == ms[i]);
        lemma_find_member_at(t, user, i - 1);
    }
}

proof fn lemma_find_member_none(ms: Seq<MemberModel>, user: Seq<char>)
    requires
        forall|i: int| 0 <= i < ms.len() ==> ms[i].user != user,
    ensures
        find_member(ms, user) is None,
    decreases ms.len(),
{
    if ms.len() == 0 {
    } else {
        let t = ms.skip(1);
        assert(forall|j: int| 0 <= j < t.len() ==> t[j] == ms[j + 1] && t[j].user != user);
        lemma_find_member_none(t, user);
    }
}

/// Where `find_member` points, that entry carries the username looked
/// for, and no earlier entry does.
pub proof fn lemma_find_member_is(ms: Seq<MemberModel>, user: Seq<char>)
    requires
        find_member(ms, user) is Some,
    ensures
        ({
            let i = find_member(ms, user)->Some_0;
            &&& 0 <= i < ms.len()
            &&& ms[i].user == user
            &&& forall|j: int| 0 <= j < i ==> ms[j].user != user
        }),
    decreases ms.len(),
{
    if ms.len() == 0 {
    } else if ms[0].user == user {
    } else {
        let t = ms.skip(1);
        assert(forall|j: int| 0 <= j < t.len() ==> t[j] == ms[j + 1]);
        lemma_find_member_is(t, user);
        let i = find_member(ms, user)->Some_0;
        assert(ms[i] == t[i - 1]);
        assert forall|j: int| 0 < j < i implies ms[j].user != user by {
            assert(ms[j] == t[j - 1]);
            assert(t[j - 1].user != user);
        }
    }
}

/// The per-room broker core: the sole owner of its room's member set.
/// It consumes one event at a time and decides the membership change
/// and the deliveries; the surrounding task performs them.
pub struct Broker {
    members: Vec<Member>,
}

impl View for Broker {
    type V = Seq<MemberModel>;

    closed spec fn view(&self) -> Seq<MemberModel> {
        self.members@.map_values(|m: Member| m@)
    }
}

proof fn lemma_acts_push(s: Seq<BrokerAction>, a: BrokerAction)
    ensures
        acts_model(s.push(a)) == acts_model(s).push(a@),
{
    assert(acts_model(s.push(a)) =~= acts_model(s).push(a@));
}

impl Broker {
    /// A broker for a freshly created room: no members.
    pub fn new() -> (b: Broker)
        ensures
            b@ == Seq::<MemberModel>::empty(),
            members_wf(b@),
    {
        Broker { members: Vec::new() }
    }

    /// How many members the room has.
    pub fn member_count(&self) -> (n: usize)
        ensures
            n == self@.len(),
    {
        self.members.len()
    }

    fn find(&self, user: &str) -> (r: Option<usize>)
        ensures
            match r {
                Some(i) => find_member(self@, user@) == Some(i as int) && i < self@.len(),
                None => find_member(self@, user@) is None,
            },
    {
        let n = self.members.len();
        let mut k: usize = 0;
        while k < n
            invariant
                0 <= k <= n,
                n == self.members.len(),
                forall|j: int| 0 <= j < k ==> self@[j].user != user@,
            decreases n - k,
        {
            if str_eq(self.members[k].user.as_str(), user) {
                proof {
                    lemma_find_member_at(self@, user@, k as int);
                }
                return Some(k);
            }
            k += 1;
        }
        proof {
            lemma_find_member_none(self@, user@);
        }
        None
    }

    fn fan_out(&self, sender: &str, msg: &String, acts: &mut Vec<BrokerAction>)
        ensures
            acts_model(final(acts)@) == acts_model(old(acts)@) + fan(self@, sender@, msg@),
    {
        let n = self.members.len();
        let mut k: usize = 0;
        proof {
            assert(fan(self@.take(0), sender@, msg@) =~= Seq::<BrokerActionModel>::empty());
            assert(acts_model(acts@) =~= acts_model(acts@) + fan(self@.take(0), sender@, msg@));
        }
        while k < n
            invariant
                0 <= k <= n,
                n == self.members.len(),
                acts_model(acts@) == acts_model(old(acts)@) + fan(
                    self@.take(k as int),
                    sender@,
                    msg@,
                ),
            decreases n - k,
        {
            let ghost pre = acts@;
            if !str_eq(self.members[k].user.as_str(), sender) {
                let a = BrokerAction::Deliver { writer: self.members[k].writer, msg: msg.clone() };
                acts.push(a);
                proof {
                    lemma_acts_push(pre, a);
                }
            }
            proof {
                let t = self@.take(k + 1 as int);
                assert(t.drop_last() =~= self@.take(k as int));
                assert(t.last() == self@[k as int]);
                assert(acts_model(acts@) =~= acts_model(old(acts)@) + fan(t, sender@, msg@));
            }
            k += 1;
        }
        proof {
            assert(self@.take(n as int) =~= self@);
        }
    }

    /// Consume one event: apply the membership change and return the
    /// actions to perform, exactly as `broker_step` describes.
    pub fn handle(&mut self, ev: BrokerEvent) -> (acts: Vec<BrokerAction>)
        requires
            members_wf(old(self)@),
            event_writer_fresh(old(self)@, ev@),
        ensures
            final(self)@ == broker_step(old(self)@, ev@).0,
            acts_model(acts@) == broker_step(old(self)@, ev@).1,
            members_wf(final(self)@),
    {
        let ghost ms0 = self@;
        let mut acts: Vec<BrokerAction> = Vec::new();
        match ev {
            BrokerEvent::JoinRoom { user, writer, msg } => {
                match self.find(user.as_str()) {
                    Some(i) => {
                        proof {
                            lemma_find_member_is(ms0, user@);
                        }
                        let old_writer = self.members[i].writer;
                        acts.push(BrokerAction::Close { writer: old_writer });
                        acts.push(BrokerAction::Spawn { writer });
                        self.members.set(i, Member { user, writer });
                        proof {
                            let ev_user = self.members@[i as int].user@;
                            assert(self@ =~= ms0.update(
                                i as int,
                                MemberModel { user: ev_user, writer },
                            ));
                            assert(members_wf(self@));
                            assert(acts_model(acts@) =~= seq![
                                BrokerActionModel::Close { writer: ms0[i as int].writer },
                                BrokerActionModel::Spawn { writer },
                            ]);
                        }
                        let sender = self.members[i].user.clone();
                        self.fan_out(sender.as_str(), &msg, &mut acts);
                    },
                    None => {
                        proof {
                            lemma_find_member_none_all(ms0, user@);
                        }
                        acts.push(BrokerAction::Spawn { writer });
                        let ghost u = user@;
                        self.members.push(Member { user, writer });
                        proof {
                            assert(self@ =~= ms0.push(MemberModel { user: u, writer }));
                            assert(members_wf(self@));
                            assert(acts_model(acts@) =~= seq![
                                BrokerActionModel::Spawn { writer },
                            ]);
                        }
                        let n = self.members.len();
                        let sender = self.members[n - 1].user.clone();
                        self.fan_out(sender.as_str(), &msg, &mut acts);
                    },
                }
            },
            BrokerEvent::LeaveRoom { user, msg } => {
                match self.find(user.as_str()) {
                    Some(i) => {
                        proof {
                            lemma_find_member_is(ms0, user@);
                        }
                        let removed = self.members.remove(i);
                        acts.push(BrokerAction::Close { writer: removed.writer });
                        proof {
                            assert(self@ =~= ms0.remove(i as int));
                            assert(members_wf(self@));
                            assert(acts_model(acts@) =~= seq![
                                BrokerActionModel::Close { writer: ms0[i as int].writer },
                            ]);
                        }
                        self.fan_out(user.as_str(), &msg, &mut acts);
                    },
                    None => {
                        proof {
                            assert(acts_model(acts@) =~= Seq::<BrokerActionModel>::empty());
                        }
                        self.fan_out(user.as_str(), &msg, &mut acts);
                        proof {
                            assert(acts_model(acts@) =~= broker_step(ms0, ev@).1);
                        }
                    },
                }
            },
            BrokerEvent::Message { user, msg } => {
                proof {
                    assert(acts_model(acts@) =~= Seq::<BrokerActionModel>::empty());
                }
                self.fan_out(user.as_str(), &msg, &mut acts);
                proof {
                    assert(acts_model(acts@) =~= broker_step(ms0, ev@).1);
                }
            },
        }
        acts
    }
}

/// The queue an action delivers to, if it is a delivery.
pub open spec fn deliver_writer(a: BrokerActionModel) -> Option<u64> {
    match a {
        BrokerActionModel::Deliver { writer, .. } => Some(writer),
        _ => None,
    }
}

/// Whether some action in `acts` delivers a line to queue `w`.
pub open spec fn delivers_to(acts: Seq<BrokerActionModel>, w: u64) -> bool {
    exists|k: int| 0 <= k < acts.len() && deliver_writer(acts[k]) == Some(w)
}

/// Every line the fan-out emits goes to the queue of some member whose
/// name differs from the sender, and carries the fanned message.
proof fn lemma_fan_sound(ms: Seq<MemberModel>, sender: Seq<char>, msg: Seq<char>)
    ensures
        forall|k: int|
            0 <= k < fan(ms, sender, msg).len() ==> exists|i: int|
                0 <= i < ms.len() && (#[trigger] ms[i]).user != sender && #[trigger] fan(
                    ms,
                    sender,
                    msg,
                )[k] == (BrokerActionModel::Deliver { writer: ms[i].writer, msg }),
    decreases ms.len(),
{
    if ms.len() == 0 {
    } else {
        let t = ms.drop_last();
        lemma_fan_sound(t, sender, msg);
        let f = fan(ms, sender, msg);
        let rest = fan(t, sender, msg);
        assert forall|k: int| #![trigger f[k]] 0 <= k < f.len() implies exists|i: int|
            0 <= i < ms.len() && (#[trigger] ms[i]).user != sender && f[k]
                == (BrokerActionModel::Deliver { writer: ms[i].writer, msg }) by {
            if k < rest.len() {
                assert(f[k] == rest[k]);
                let i = choose|i: int|
                    0 <= i < t.len() && (#[trigger] t[i]).user != sender && rest[k]
                        == (BrokerActionModel::Deliver { writer: t[i].writer, msg });
                assert(ms[i] == t[i]);
            } else {
                assert(ms.last().user != sender);
                assert(f[k] == BrokerActionModel::Deliver { writer: ms.last().writer, msg });
                assert(ms[ms.len() - 1].user != sender);
            }
        }
    }
}

/// Every member other than the sender is handed the fanned line.
proof fn lemma_fan_complete(ms: Seq<MemberModel>, sender: Seq<char>, msg: Seq<char>)
    ensures
        forall|i: int|
            0 <= i < ms.len() && ms[i].user != sender ==> fan(ms, sender, msg).contains(
                BrokerActionModel::Deliver { writer: ms[i].writer, msg },
            ),
    decreases ms.len(),
{
    if ms.len() == 0 {
    } else {
        let t = ms.drop_last();
        lemma_fan_complete(t, sender, msg);
        let f = fan(ms, sender, msg);
        let rest = fan(t, sender, msg);
        assert forall|i: int| 0 <= i < ms.len() && ms[i].user != sender implies f.contains(
            BrokerActionModel::Deliver { writer: ms[i].writer, msg },
        ) by {
            let a = BrokerActionModel::Deliver { writer: ms[i].writer, msg };
            if i < ms.len() - 1 {
                assert(ms[i] == t[i]);
                assert(rest.contains(BrokerActionModel::Deliver { writer: t[i].writer, msg }));
                let k = choose|k: int| 0 <= k < rest.len() && rest[k] == a;
                assert(f[k] == a);
            } else {
                assert(f[f.len() - 1] == a);
            }
        }
    }
}

/// Under a well-formed member set, one fan-out delivers to no queue
/// twice: together with `lemma_fan_complete`, every recipient observes
/// the fanned line exactly once.
pub proof fn lemma_fan_once(ms: Seq<MemberModel>, sender: Seq<char>, msg: Seq<char>)
    requires
        members_wf(ms),
    ensures
        forall|k1: int, k2: int|
            0 <= k1 < k2 < fan(ms, sender, msg).len() ==> deliver_writer(
                #[trigger] fan(ms, sender, msg)[k1],
            ) != deliver_writer(#[trigger] fan(ms, sender, msg)[k2]),
    decreases ms.len(),
{
    if ms.len() == 0 {
    } else {
        let t = ms.drop_last();
        assert(members_wf(t)) by {
            assert(forall|i: int| 0 <= i < t.len() ==> t[i] == ms[i]);
        }
        lemma_fan_once(t, sender, msg);
        lemma_fan_sound(t, sender, msg);
        let f = fan(ms, sender, msg);
        let rest = fan(t, sender, msg);
        if ms.last().user != sender {
            let w = ms.last().writer;
            assert forall|k1: int, k2: int| 0 <= k1 < k2 < f.len() implies deliver_writer(
                #[trigger] f[k1],
            ) != deliver_writer(#[trigger] f[k2]) by {
                if k2 < rest.len() {
                    assert(f[k1] == rest[k1] && f[k2] == rest[k2]);
                } else {
                    assert(f[k2] == (BrokerActionModel::Deliver { writer: w, msg }));
                    assert(f[k1] == rest[k1]);
                    let i = choose|i: int|
                        0 <= i < t.len() && (#[trigger] t[i]).user != sender && rest[k1]
                            == (BrokerActionModel::Deliver { writer: t[i].writer, msg });
                    assert(t[i] == ms[i]);
                    assert(ms[i].writer != w);
                }
            }
        }
    }
}

/// A chat line from `sender` leaves the member set as it is, reaches
/// the queue of every current member whose name differs from the
/// sender, and never reaches a queue held under the sender's name.
pub proof fn lemma_chat_delivery(ms: Seq<MemberModel>, sender: Seq<char>, msg: Seq<char>)
    requires
        members_wf(ms),
    ensures
        broker_step(ms, BrokerEventModel::Message { user: sender, msg }).0 == ms,
        forall|i: int|
            0 <= i < ms.len() && ms[i].user != sender ==> broker_step(
                ms,
                BrokerEventModel::Message { user: sender, msg },
            ).1.contains(BrokerActionModel::Deliver { writer: ms[i].writer, msg }),
        forall|i: int|
            0 <= i < ms.len() && ms[i].user == sender ==> !delivers_to(
                broker_step(ms, BrokerEventModel::Message { user: sender, msg }).1,
                ms[i].writer,
            ),
{
    let acts = broker_step(ms, BrokerEventModel::Message { user: sender, msg }).1;
    lemma_fan_complete(ms, sender, msg);
    lemma_fan_sound(ms, sender, msg);
    assert forall|i: int| 0 <= i < ms.len() && ms[i].user == sender implies !delivers_to(
        acts,
        ms[i].writer,
    ) by {
        if delivers_to(acts, ms[i].writer) {
            let k = choose|k: int|
                0 <= k < acts.len() && deliver_writer(acts[k]) == Some(ms[i].writer);
            let j = choose|j: int|
                0 <= j < ms.len() && ms[j].user != sender && acts[k] == BrokerActionModel::Deliver {
                    writer: ms[j].writer,
                    msg,
                };
            assert(ms[j].writer == ms[i].writer);
            assert(i == j);
        }
    }
}

/// After a leave for `u`, a later chat in the room, whoever sends it,
/// is never delivered to the queue `u` held before leaving.
pub proof fn lemma_leave_then_chat(
    ms: Seq<MemberModel>,
    u: Seq<char>,
    leave_msg: Seq<char>,
    v: Seq<char>,
    chat_msg: Seq<char>,
)
    requires
        members_wf(ms),
        find_member(ms, u) is Some,
    ensures
        ({
            let i = find_member(ms, u)->Some_0;
            let w = ms[i].writer;
            let ms2 = broker_step(ms, BrokerEventModel::LeaveRoom { user: u, msg: leave_msg }).0;
            let acts = broker_step(ms2, BrokerEventModel::Message { user: v, msg: chat_msg }).1;
            !delivers_to(acts, w)
        }),
{
    lemma_find_member_is(ms, u);
    let i = find_member(ms, u)->Some_0;
    let w = ms[i].writer;
    let ms2 = broker_step(ms, BrokerEventModel::LeaveRoom { user: u, msg: leave_msg }).0;
    assert(ms2 == ms.remove(i));
    let acts = broker_step(ms2, BrokerEventModel::Message { user: v, msg: chat_msg }).1;
    lemma_fan_sound(ms2, v, chat_msg);
    assert forall|j: int| 0 <= j < ms2.len() implies ms2[j].writer != w by {
        if j < i {
            assert(ms2[j] == ms[j]);
        } else {
            assert(ms2[j] == ms[j + 1]);
        }
    }
    if delivers_to(acts, w) {
        let k = choose|k: int| 0 <= k < acts.len() && deliver_writer(acts[k]) == Some(w);
        let j = choose|j: int|
            0 <= j < ms2.len() && ms2[j].user != v && acts[k] == BrokerActionModel::Deliver {
                writer: ms2[j].writer,
                msg: chat_msg,
            };
        assert(ms2[j].writer == w);
        assert(false);
    }
}

proof fn lemma_delivers_concat(pre: Seq<BrokerActionModel>, f: Seq<BrokerActionModel>, w: u64)
    ensures
        delivers_to(pre + f, w) <==> delivers_to(pre, w) || delivers_to(f, w),
{
    if delivers_to(pre + f, w) {
        let k = choose|k: int| 0 <= k < (pre + f).len() && deliver_writer((pre + f)[k]) == Some(w);
        if k < pre.len() {
            assert((pre + f)[k] == pre[k]);
        } else {
            assert((pre + f)[k] == f[k - pre.len()]);
        }
    }
    if delivers_to(pre, w) {
        let k = choose|k: int| 0 <= k < pre.len() && deliver_writer(pre[k]) == Some(w);
        assert((pre + f)[k] == pre[k]);
    }
    if delivers_to(f, w) {
        let k = choose|k: int| 0 <= k < f.len() && deliver_writer(f[k]) == Some(w);
        assert((pre + f)[k + pre.len()] == f[k]);
    }
}

proof fn lemma_contains_concat(pre: Seq<BrokerActionModel>, f: Seq<BrokerActionModel>, a: BrokerActionModel)
    requires
        f.contains(a),
    ensures
        (pre + f).contains(a),
{
    let k = choose|k: int| 0 <= k < f.len() && f[k] == a;
    assert((pre + f)[k + pre.len()] == a);
}

/// The join line reaches the queue of every current member other than
/// the joiner, and never the joiner's own fresh queue: a joiner does
/// not see their own join announced.
pub proof fn lemma_join_fanout(ms: Seq<MemberModel>, user: Seq<char>, writer: u64, msg: Seq<char>)
    requires
        members_wf(ms),
        forall|i: int| 0 <= i < ms.len() ==> ms[i].writer != writer,
    ensures
        ({
            let (ms2, acts) = broker_step(ms, BrokerEventModel::JoinRoom { user, writer, msg });
            &&& forall|i: int|
                0 <= i < ms2.len() && ms2[i].user != user ==> acts.contains(
                    BrokerActionModel::Deliver { writer: ms2[i].writer, msg },
                )
            &&& !delivers_to(acts, writer)
        }),
{
    let ev = BrokerEventModel::JoinRoom { user, writer, msg };
    let ms2 = broker_step(ms, ev).0;
    let acts = broker_step(ms, ev).1;
    lemma_fan_complete(ms2, user, msg);
    lemma_fan_sound(ms2, user, msg);
    let f = fan(ms2, user, msg);
    match find_member(ms, user) {
        Some(i) => {
            lemma_find_member_is(ms, user);
            let pre = seq![
                BrokerActionModel::Close { writer: ms[i].writer },
                BrokerActionModel::Spawn { writer },
            ];
            assert(acts == pre + f);
            assert forall|j: int| 0 <= j < ms2.len() && ms2[j].user != user implies acts.contains(
                BrokerActionModel::Deliver { writer: ms2[j].writer, msg },
            ) by {
                lemma_contains_concat(pre, f, BrokerActionModel::Deliver {
                    writer: ms2[j].writer,
                    msg,
                });
            }
            lemma_delivers_concat(pre, f, writer);
            assert(!delivers_to(pre, writer)) by {
                assert(deliver_writer(pre[0]) is None);
                assert(deliver_writer(pre[1]) is None);
            }
            if delivers_to(f, writer) {
                let k = choose|k: int| 0 <= k < f.len() && deliver_writer(f[k]) == Some(writer);
                let j = choose|j: int|
                    0 <= j < ms2.len() && (#[trigger] ms2[j]).user != user && f[k]
                        == (BrokerActionModel::Deliver { writer: ms2[j].writer, msg });
                assert(ms2[j].writer == writer);
                if j != i {
                    assert(ms2[j] == ms[j]);
                }
                assert(false);
            }
        },
        None => {
            lemma_find_member_none_all(ms, user);
            let pre = seq![BrokerActionModel::Spawn { writer }];
            assert(acts == pre + f);
            assert forall|j: int| 0 <= j < ms2.len() && ms2[j].user != user implies acts.contains(
                BrokerActionModel::Deliver { writer: ms2[j].writer, msg },
            ) by {
                lemma_contains_concat(pre, f, BrokerActionModel::Deliver {
                    writer: ms2[j].writer,
                    msg,
                });
            }
            lemma_delivers_concat(pre, f, writer);
            assert(!delivers_to(pre, writer)) by {
                assert(deliver_writer(pre[0]) is None);
            }
            if delivers_to(f, writer) {
                let k = choose|k: int| 0 <= k < f.len() && deliver_writer(f[k]) == Some(writer);
                let j = choose|j: int|
                    0 <= j < ms2.len() && (#[trigger] ms2[j]).user != user && f[k]
                        == (BrokerActionModel::Deliver { writer: ms2[j].writer, msg });
                assert(ms2[j].writer == writer);
                if j != ms2.len() - 1 {
                    assert(ms2[j] == ms[j]);
                }
                assert(false);
            }
        },
    }
}

/// The leave line reaches the queue of every member that remains after
/// the leaver is removed.
pub proof fn lemma_leave_fanout(ms: Seq<MemberModel>, user: Seq<char>, msg: Seq<char>)
    requires
        members_wf(ms),
    ensures
        ({
            let (ms2, acts) = broker_step(ms, BrokerEventModel::LeaveRoom { user, msg });
            forall|i: int|
                0 <= i < ms2.len() ==> acts.contains(
                    BrokerActionModel::Deliver { writer: ms2[i].writer, msg },
                )
        }),
{
    let ev = BrokerEventModel::LeaveRoom { user, msg };
    let ms2 = broker_step(ms, ev).0;
    let acts = broker_step(ms, ev).1;
    lemma_fan_complete(ms2, user, msg);
    let f = fan(ms2, user, msg);
    match find_member(ms, user) {
        Some(i) => {
            lemma_find_member_is(ms, user);
            assert forall|j: int| 0 <= j < ms2.len() implies ms2[j].user != user by {
                if j < i {
                    assert(ms2[j] == ms[j]);
                } else {
                    assert(ms2[j] == ms[j + 1]);
                }
            }
            let pre = seq![BrokerActionModel::Close { writer: ms[i].writer }];
            assert(acts == pre + f);
            assert forall|j: int| 0 <= j < ms2.len() implies acts.contains(
                BrokerActionModel::Deliver { writer: ms2[j].writer, msg },
            ) by {
                lemma_contains_concat(pre, f, BrokerActionModel::Deliver {
                    writer: ms2[j].writer,
                    msg,
                });
            }
        },
        None => {
            lemma_find_member_none_all(ms, user);
            assert(acts == f);
        },
    }
}

proof fn lemma_find_member_none_all(ms: Seq<MemberModel>, user: Seq<char>)
    requires
        find_member(ms, user) is None,
    ensures
        forall|i: int| 0 <= i < ms.len() ==> ms[i].user != user,
    decreases ms.len(),
{
    if ms.len() == 0 {
    } else {
        assert(ms[0].user != user);
        let t = ms.skip(1);
        lemma_find_member_none_all(t, user);
        assert(forall|i: int| 0 < i < ms.len() ==> ms[i] == t[i - 1]);
    }
}

} // verus!
