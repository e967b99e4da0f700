use vstd::prelude::*;

use crate::clock::Timestamp;
use crate::messages::{ChatEvent, EnvelopeModel, EventModel, WebSocketMessage, event_of};
use crate::room::{
    Broadcast, BroadcastModel, ChatRoom, RecordModel, broadcast_of, broadcasts, join_message,
    members, names, unique_ids,
};

verus! {

/// The event of an inbound frame: `None` for a frame that is not text, that
/// did not decode, or whose kind's payload is missing.
pub open spec fn frame_event(frame: Option<EnvelopeModel>) -> Option<EventModel> {
    match frame {
        Some(env) => event_of(env),
        None => None,
    }
}

/// In steady state only a chat message is passed on; user lists and
/// announcements from a client are ignored, as is anything unreadable.
pub open spec fn steady_reply(v: Seq<RecordModel>, ev: Option<EventModel>) -> Seq<BroadcastModel> {
    match ev {
        Some(EventModel::NewMessage(m)) => seq![broadcast_of(v, EventModel::NewMessage(m))],
        _ => Seq::empty(),
    }
}

/// The registry after a frame, and the broadcasts that it calls for.
///
/// The first frame of a connection registers it: under the announced name,
/// with a join notice and the new list of names, where it is `NewUser`;
/// anonymously otherwise, after which it is handled as any later frame.
pub open spec fn dispatch(
    v: Seq<RecordModel>,
    frame: Option<EnvelopeModel>,
    awaiting_identity: bool,
    id: u64,
    now: Seq<char>,
) -> (Seq<RecordModel>, Seq<BroadcastModel>) {
    let ev = frame_event(frame);
    if awaiting_identity {
        match ev {
            Some(EventModel::NewUser(n)) => {
                let w = v.push((id, Some(n)));
                (
                    w,
                    seq![
                        broadcast_of(w, join_message(n, now)),
                        broadcast_of(w, EventModel::UserList(names(w))),
                    ],
                )
            },
            _ => {
                let w = v.push((id, None));
                (w, steady_reply(w, ev))
            },
        }
    } else {
        (v, steady_reply(v, ev))
    }
}

pub open spec fn frame_model(frame: Option<WebSocketMessage>) -> Option<EnvelopeModel> {
    match frame {
        Some(w) => Some(w@),
        None => None,
    }
}

fn steady(room: &ChatRoom, ev: Option<ChatEvent>) -> (r: Vec<Broadcast>)
    ensures
        broadcasts(r@) == steady_reply(
            room@,
            match ev {
                Some(e) => Some(e@),
                None => None,
            },
        ),
{
    let mut out: Vec<Broadcast> = Vec::new();
    match ev {
        Some(ChatEvent::NewMessage(m)) => {
            out.push(room.broadcast_message(m));
        },
        _ => {},
    }
    assert(broadcasts(out@) =~= steady_reply(
        room@,
        match ev {
            Some(e) => Some(e@),
            None => None,
        },
    ));
    out
}

/// Handles one inbound frame of a connection: `None` stands for a frame that
/// is not text or did not decode. Returns the broadcasts to send, in order.
pub fn handle_incoming_message(
    room: &mut ChatRoom,
    frame: Option<WebSocketMessage>,
    awaiting_identity: bool,
    connection_id: u64,
    now: Timestamp,
) -> (r: Vec<Broadcast>)
    requires
        old(room).wf(),
        awaiting_identity ==> !members(old(room)@).contains(connection_id),
    ensures
        final(room).wf(),
        (final(room)@, broadcasts(r@)) == dispatch(
            old(room)@,
            frame_model(frame),
            awaiting_identity,
            connection_id,
            now@,
        ),
{
    let ev = match frame {
        Some(w) => w.into_event(),
        None => None,
    };
    if awaiting_identity {
        match ev {
            Some(ChatEvent::NewUser(name)) => {
                let joined = room.add(connection_id, name, now);
                let users = room.broadcast_users();
                let mut out: Vec<Broadcast> = Vec::new();
                out.push(joined);
                out.push(users);
                assert(broadcasts(out@) =~= seq![joined@, users@]);
                out
            },
            other => {
                room.register(connection_id, None);
                steady(room, other)
            },
        }
    } else {
        steady(room, ev)
    }
}

/// A frame that is not text, or that does not decode, changes nothing and
/// sends nothing once a connection is registered.
pub proof fn lemma_unreadable_frame_ignored(v: Seq<RecordModel>, id: u64, now: Seq<char>)
    ensures
        dispatch(v, None, false, id, now) == (v, Seq::<BroadcastModel>::empty()),
{
}

/// Right after a connection announces its name, the list of names that the
/// room sends holds that name, and goes to the newcomer too.
pub proof fn lemma_announce_then_user_list(
    v: Seq<RecordModel>,
    env: EnvelopeModel,
    id: u64,
    now: Seq<char>,
)
    requires
        unique_ids(v),
        frame_event(Some(env)) matches Some(EventModel::NewUser(n)),
    ensures
        ({
            let (w, out) = dispatch(v, Some(env), true, id, now);
            let n = env.username.unwrap();
            &&& out.len() == 2
            &&& out[1].0 == broadcast_of(w, EventModel::UserList(names(w))).0
            &&& names(w).contains(n)
            &&& out[1].1.contains(id)
        }),
{
    let n = env.username.unwrap();
    crate::room::lemma_user_list_includes_newcomer(v, id, n);
    let w = v.push((id, Some(n)));
    assert(names(w).last() == n);
    assert(names(w)[names(w).len() - 1] == n);
}

} // verus!
