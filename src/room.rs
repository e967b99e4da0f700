use vstd::prelude::*;
use vstd::string::StringExecFns;

use crate::clock::Timestamp;
use crate::messages::{ChatMessage, ChatEvent, EventModel, WebSocketMessage, envelope_of, strs};
use crate::wire::{encode_envelope, envelope_text};

verus! {

/// One live connection: its identifier and, once it has announced itself,
/// its username.
#[derive(Clone, Debug, PartialEq, Eq)]
pub struct ChatRoomConnection {
    pub id: u64,
    pub username: Option<String>,
}

/// The model of a connection record.
pub type RecordModel = (u64, Option<Seq<char>>);

impl ChatRoomConnection {
    pub open spec fn view(&self) -> RecordModel {
        (
            self.id,
            match self.username {
                Some(n) => Some(n@),
                None => None,
            },
        )
    }
}

/// The identifiers of the records, in registry order.
pub open spec fn ids(v: Seq<RecordModel>) -> Seq<u64> {
    v.map_values(|r: RecordModel| r.0)
}

/// The set of identifiers present.
pub open spec fn members(v: Seq<RecordModel>) -> Set<u64> {
    Set::new(|x: u64| exists|i: int| 0 <= i < v.len() && v[i].0 == x)
}

/// No identifier occurs twice.
pub open spec fn unique_ids(v: Seq<RecordModel>) -> bool {
    forall|i: int, j: int| 0 <= i < j < v.len() ==> v[i].0 != v[j].0
}

/// The known usernames, in registry order; anonymous records are skipped.
pub open spec fn names(v: Seq<RecordModel>) -> Seq<Seq<char>>
    decreases v.len(),
{
    if v.len() == 0 {
        Seq::empty()
    } else {
        match v.last().1 {
            Some(n) => names(v.drop_last()).push(n),
            None => names(v.drop_last()),
        }
    }
}

/// One frame, sent to each of a list of connections.
#[derive(Clone, Debug, PartialEq, Eq)]
pub struct Broadcast {
    pub frame: String,
    pub targets: Vec<u64>,
}

/// The model of a broadcast: frame text and recipients.
pub type BroadcastModel = (Seq<char>, Seq<u64>);

impl Broadcast {
    pub open spec fn view(&self) -> BroadcastModel {
        (self.frame@, self.targets@)
    }
}

/// The views of a list of broadcasts.
pub open spec fn broadcasts(v: Seq<Broadcast>) -> Seq<BroadcastModel> {
    v.map_values(|b: Broadcast| b@)
}

/// An event, encoded once, for every member of the registry.
pub open spec fn broadcast_of(v: Seq<RecordModel>, e: EventModel) -> BroadcastModel {
    (envelope_text(envelope_of(e)), ids(v))
}

/// The single deliveries of a broadcast: one per recipient, each with the
/// broadcast's frame.
pub open spec fn deliveries(b: BroadcastModel) -> Seq<(u64, Seq<char>)> {
    b.1.map_values(|t: u64| (t, b.0))
}

/// The announcement that a user joined, as the system writes it.
pub open spec fn join_message(name: Seq<char>, at: Seq<char>) -> EventModel {
    EventModel::NewMessage((name + " joins the chat"@, "System"@, at))
}

/// The registry of live connections. Every change goes through `&mut self`,
/// so a caller that holds the room under one lock sees each change whole.
pub struct ChatRoom {
    connections: Vec<ChatRoomConnection>,
}

impl ChatRoom {
    pub closed spec fn view(&self) -> Seq<RecordModel> {
        self.connections@.map_values(|c: ChatRoomConnection| c@)
    }

    pub open spec fn wf(&self) -> bool {
        unique_ids(self@)
    }

    /// An empty room.
    pub fn new() -> (r: ChatRoom)
        ensures
            r.wf(),
            r@ == Seq::<RecordModel>::empty(),
    {
        let r = ChatRoom { connections: Vec::new() };
        assert(r@ =~= Seq::<RecordModel>::empty());
        r
    }

    /// The number of live connections.
    pub fn len(&self) -> (r: usize)
        ensures
            r == self@.len(),
    {
        self.connections.len()
    }

    /// Whether a connection with this identifier is registered.
    pub fn contains(&self, id: u64) -> (r: bool)
        ensures
            r == members(self@).contains(id),
    {
        let mut i: usize = 0;
        while i < self.connections.len()
            invariant
                i <= self@.len(),
                self@.len() == self.connections@.len(),
                forall|j: int| 0 <= j < i ==> self@[j].0 != id,
            decreases self@.len() - i,
        {
            if self.connections[i].id == id {
                assert(self@[i as int].0 == id);
                return true;
            }
            i = i + 1;
        }
        false
    }

    /// Registers a connection that is not yet present, at the end of the
    /// registry.
    pub fn register(&mut self, id: u64, username: Option<String>)
        requires
            old(self).wf(),
            !members(old(self)@).contains(id),
        ensures
            final(self).wf(),
            final(self)@ == old(self)@.push(
                (
                    id,
                    match username {
                        Some(n) => Some(n@),
                        None => None,
                    },
                ),
            ),
            members(final(self)@) == members(old(self)@).insert(id),
    {
        let c = ChatRoomConnection { id, username };
        self.connections.push(c);
        assert(self@ =~= old(self)@.push(c@));
        proof {
            lemma_members_push(old(self)@, c@);
        }
    }

    /// Removes the connection with this identifier; nothing happens where it
    /// is absent.
    pub fn remove(&mut self, id: u64)
        requires
            old(self).wf(),
        ensures
            final(self).wf(),
            members(final(self)@) == members(old(self)@).remove(id),
            forall|k: int|
                0 <= k < old(self)@.len() && #[trigger] old(self)@[k].0 == id ==> final(self)@
                    == old(self)@.remove(k),
            !members(old(self)@).contains(id) ==> final(self)@ == old(self)@,
    {
        let mut i: usize = 0;
        while i < self.connections.len()
            invariant
                i <= self@.len(),
                self@.len() == self.connections@.len(),
                forall|j: int| 0 <= j < i ==> self@[j].0 != id,
                self@ == old(self)@,
                old(self).wf(),
            decreases self@.len() - i,
        {
            if self.connections[i].id == id {
                let ghost before = self@;
                assert forall|k: int|
                    0 <= k < before.len() && #[trigger] before[k].0 == id implies k == i by {
                    if k > i {
                        assert(before[i as int].0 != before[k].0);
                    }
                }
                assert(before[i as int].0 == id);
                self.connections.remove(i);
                assert(self@ =~= before.remove(i as int));
                proof {
                    lemma_members_remove(before, i as int);
                }
                return;
            }
            i = i + 1;
        }
        assert(!members(self@).contains(id));
        assert(members(old(self)@).remove(id) =~= members(old(self)@));
    }

    /// The usernames of the registered connections, in registry order.
    pub fn usernames(&self) -> (r: Vec<String>)
        ensures
            strs(r@) == names(self@),
    {
        let mut out: Vec<String> = Vec::new();
        let mut i: usize = 0;
        while i < self.connections.len()
            invariant
                i <= self@.len(),
                self@.len() == self.connections@.len(),
                strs(out@) == names(self@.subrange(0, i as int)),
            decreases self@.len() - i,
        {
            let ghost sub = self@.subrange(0, i + 1);
            assert(sub.drop_last() =~= self@.subrange(0, i as int));
            assert(sub.last() == self.connections@[i as int]@);
            match &self.connections[i].username {
                Some(n) => {
                    let ghost prev = out@;
                    out.push(n.clone());
                    assert(strs(out@) =~= strs(prev).push(n@));
                },
                None => {},
            }
            i = i + 1;
        }
        assert(self@.subrange(0, self@.len() as int) =~= self@);
        out
    }

    /// The identifiers of the registered connections, in registry order.
    pub fn member_ids(&self) -> (r: Vec<u64>)
        ensures
            r@ == ids(self@),
    {
        let mut out: Vec<u64> = Vec::new();
        let mut i: usize = 0;
        while i < self.connections.len()
            invariant
                i <= self@.len(),
                self@.len() == self.connections@.len(),
                out@ =~= ids(self@.subrange(0, i as int)),
            decreases self@.len() - i,
        {
            out.push(self.connections[i].id);
            i = i + 1;
            assert(out@ =~= ids(self@.subrange(0, i as int)));
        }
        assert(self@.subrange(0, self@.len() as int) =~= self@);
        out
    }

    /// Encodes the event once and addresses it to every member.
    fn broadcast_event(&self, e: ChatEvent) -> (r: Broadcast)
        ensures
            r@ == broadcast_of(self@, e@),
    {
        let env = WebSocketMessage::from_event(e);
        let frame = encode_envelope(&env);
        Broadcast { frame, targets: self.member_ids() }
    }

    /// A chat message, for every member (the author included).
    pub fn broadcast_message(&self, chat_message: ChatMessage) -> (r: Broadcast)
        ensures
            r@ == broadcast_of(self@, EventModel::NewMessage(chat_message@)),
    {
        self.broadcast_event(ChatEvent::NewMessage(chat_message))
    }

    /// The list of known usernames, for every member.
    pub fn broadcast_users(&self) -> (r: Broadcast)
        ensures
            r@ == broadcast_of(self@, EventModel::UserList(names(self@))),
    {
        let users = self.usernames();
        self.broadcast_event(ChatEvent::UserList(users))
    }

    /// Registers a named connection and announces it to every member, the
    /// newcomer included.
    pub fn add(&mut self, id: u64, username: String, created_at: Timestamp) -> (r: Broadcast)
        requires
            old(self).wf(),
            !members(old(self)@).contains(id),
        ensures
            final(self).wf(),
            final(self)@ == old(self)@.push((id, Some(username@))),
            members(final(self)@) == members(old(self)@).insert(id),
            r@ == broadcast_of(final(self)@, join_message(username@, created_at@)),
    {
        let text = username.clone().concat(" joins the chat");
        let announcement = ChatMessage::new(text, String::from_str("System"), created_at);
        self.register(id, Some(username));
        self.broadcast_message(announcement)
    }
}

impl Default for ChatRoom {
    fn default() -> (r: ChatRoom)
        ensures
            r.wf(),
            r@ == Seq::<RecordModel>::empty(),
    {
        ChatRoom::new()
    }
}

/// What a send to one recipient came to.
#[derive(Clone, Copy, Debug, PartialEq, Eq, Structural)]
pub enum SendOutcome {
    Delivered,
    /// The send failed, maybe for a while only.
    Failed,
    /// The transport reports the connection closed for good.
    Closed,
}

/// The members after a send's outcome is taken into account: a recipient
/// leaves only where its transport reports it closed.
pub open spec fn members_after_send(m: Set<u64>, id: u64, outcome: SendOutcome) -> Set<u64> {
    match outcome {
        SendOutcome::Closed => m.remove(id),
        _ => m,
    }
}

impl ChatRoom {
    /// Takes the outcome of one send into account. Delivery is best effort: a
    /// failed send changes nothing, and only a closed transport removes its
    /// connection.
    pub fn after_send(&mut self, id: u64, outcome: SendOutcome)
        requires
            old(self).wf(),
        ensures
            final(self).wf(),
            members(final(self)@) == members_after_send(members(old(self)@), id, outcome),
            outcome != SendOutcome::Closed ==> final(self)@ == old(self)@,
    {
        match outcome {
            SendOutcome::Closed => self.remove(id),
            _ => {},
        }
    }
}

/// A change of the registry.
pub enum RegistryOp {
    Register(u64, Option<Seq<char>>),
    Remove(u64),
}

/// The members that a sequence of changes leaves, applied in order to `start`.
pub open spec fn net_members(start: Set<u64>, ops: Seq<RegistryOp>) -> Set<u64>
    decreases ops.len(),
{
    if ops.len() == 0 {
        start
    } else {
        match ops.last() {
            RegistryOp::Register(id, _) => net_members(start, ops.drop_last()).insert(id),
            RegistryOp::Remove(id) => net_members(start, ops.drop_last()).remove(id),
        }
    }
}

/// What `register` and `remove` promise of one change, from `before` to
/// `after`.
pub open spec fn applies(before: Seq<RecordModel>, op: RegistryOp, after: Seq<RecordModel>) -> bool {
    match op {
        RegistryOp::Register(id, n) => !members(before).contains(id) && after == before.push((id, n))
            && members(after) == members(before).insert(id),
        RegistryOp::Remove(id) => members(after) == members(before).remove(id),
    }
}

/// For every sequence of registrations and removals, the members at the end
/// are the net effect of the changes taken in order: none is lost.
pub proof fn lemma_membership_is_net_effect(states: Seq<Seq<RecordModel>>, ops: Seq<RegistryOp>)
    requires
        states.len() == ops.len() + 1,
        forall|i: int| 0 <= i < ops.len() ==> applies(states[i], #[trigger] ops[i], states[i + 1]),
    ensures
        members(states.last()) == net_members(members(states[0]), ops),
    decreases ops.len(),
{
    if ops.len() > 0 {
        let n = ops.len() - 1;
        lemma_membership_is_net_effect(states.drop_last(), ops.drop_last());
        assert(applies(states[n], ops[n], states[n + 1]));
        assert(states.drop_last().last() == states[n]);
    }
}

/// A broadcast to a registry of N members makes exactly N delivery attempts,
/// one per member, each with the same frame.
pub proof fn lemma_one_attempt_per_member(v: Seq<RecordModel>, e: EventModel)
    requires
        unique_ids(v),
    ensures
        deliveries(broadcast_of(v, e)).len() == v.len(),
        forall|i: int|
            0 <= i < v.len() ==> #[trigger] deliveries(broadcast_of(v, e))[i] == (
                v[i].0,
                envelope_text(envelope_of(e)),
            ),
        forall|i: int, j: int|
            0 <= i < j < v.len() ==> deliveries(broadcast_of(v, e))[i].0 != deliveries(
                broadcast_of(v, e),
            )[j].0,
{
}

/// A failed send leaves every other member in the registry, and the failing
/// one too unless its transport is closed; the frame addressed to each other
/// recipient of the broadcast is the same whatever came of it.
pub proof fn lemma_failure_isolated(
    v: Seq<RecordModel>,
    e: EventModel,
    failed: u64,
    outcome: SendOutcome,
    other: int,
)
    requires
        unique_ids(v),
        outcome != SendOutcome::Delivered,
        0 <= other < v.len(),
        v[other].0 != failed,
    ensures
        members_after_send(members(v), failed, outcome).contains(v[other].0),
        outcome == SendOutcome::Failed ==> members_after_send(members(v), failed, outcome)
            == members(v),
        deliveries(broadcast_of(v, e))[other] == (v[other].0, envelope_text(envelope_of(e))),
{
    assert(members(v).contains(v[other].0));
}

/// Over a whole fan-out, whatever the outcomes of the sends, every member
/// whose own transport was not reported closed is still a member at the end.
pub proof fn lemma_failures_isolated_over_fan_out(
    states: Seq<Set<u64>>,
    outcomes: Seq<(u64, SendOutcome)>,
    x: u64,
)
    requires
        states.len() == outcomes.len() + 1,
        forall|i: int|
            0 <= i < outcomes.len() ==> states[i + 1] == members_after_send(
                states[i],
                (#[trigger] outcomes[i]).0,
                outcomes[i].1,
            ),
        states[0].contains(x),
        forall|i: int| 0 <= i < outcomes.len() ==> #[trigger] outcomes[i] != (x, SendOutcome::Closed),
    ensures
        states.last().contains(x),
    decreases outcomes.len(),
{
    if outcomes.len() > 0 {
        let n = outcomes.len() - 1;
        lemma_failures_isolated_over_fan_out(states.drop_last(), outcomes.drop_last(), x);
        assert(states.drop_last().last() == states[n]);
        assert(outcomes[n] != (x, SendOutcome::Closed));
        assert(states[n + 1] == members_after_send(states[n], outcomes[n].0, outcomes[n].1));
    }
}

/// Once a named connection is registered, the list of names that the room
/// then sends holds the newcomer's name, and the newcomer is among the
/// recipients.
pub proof fn lemma_user_list_includes_newcomer(v: Seq<RecordModel>, id: u64, name: Seq<char>)
    ensures
        names(v.push((id, Some(name)))) == names(v).push(name),
        broadcast_of(v.push((id, Some(name))), EventModel::UserList(names(v.push((id, Some(name))))))
            == (
            envelope_text(envelope_of(EventModel::UserList(names(v).push(name)))),
            ids(v).push(id),
        ),
        ids(v.push((id, Some(name)))).contains(id),
{
    let w = v.push((id, Some(name)));
    assert(w.drop_last() =~= v);
    assert(ids(w) =~= ids(v).push(id));
    assert(ids(w)[v.len() as int] == id);
}

pub proof fn lemma_members_push(v: Seq<RecordModel>, r: RecordModel)
    ensures
        members(v.push(r)) == members(v).insert(r.0),
{
    let w = v.push(r);
    assert forall|x: u64| members(w).contains(x) <==> members(v).insert(r.0).contains(x) by {
        if members(v).contains(x) {
            let i = choose|i: int| 0 <= i < v.len() && v[i].0 == x;
            assert(w[i] == v[i]);
        }
        if x == r.0 {
            assert(w[v.len() as int] == r);
        }
        if members(w).contains(x) && x != r.0 {
            let i = choose|i: int| 0 <= i < w.len() && w[i].0 == x;
            assert(i < v.len());
            assert(v[i] == w[i]);
        }
    }
    assert(members(w) =~= members(v).insert(r.0));
}

pub proof fn lemma_members_remove(v: Seq<RecordModel>, k: int)
    requires
        0 <= k < v.len(),
        unique_ids(v),
    ensures
        members(v.remove(k)) == members(v).remove(v[k].0),
        unique_ids(v.remove(k)),
{
    let w = v.remove(k);
    let id = v[k].0;
    assert forall|x: u64| members(w).contains(x) <==> members(v).remove(id).contains(x) by {
        if members(w).contains(x) {
            let i = choose|i: int| 0 <= i < w.len() && w[i].0 == x;
            if i < k {
                assert(w[i] == v[i]);
            } else {
                assert(w[i] == v[i + 1]);
            }
        }
        if members(v).contains(x) && x != id {
            let i = choose|i: int| 0 <= i < v.len() && v[i].0 == x;
            assert(i != k);
            if i < k {
                assert(w[i] == v[i]);
            } else {
                assert(w[i - 1] == v[i]);
            }
        }
    }
    assert(members(w) =~= members(v).remove(id));
    assert forall|i: int, j: int| 0 <= i < j < w.len() implies w[i].0 != w[j].0 by {
        let a = if i < k { i } else { i + 1 };
        let b = if j < k { j } else { j + 1 };
        assert(w[i] == v[a]);
        assert(w[j] == v[b]);
    }
}

} // verus!
