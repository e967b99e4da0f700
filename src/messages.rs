use vstd::prelude::*;

use crate::clock::Timestamp;

verus! {

/// The kind tag of an envelope.
#[derive(Clone, Copy, Debug, PartialEq, Eq, Structural)]
pub enum MessageType {
    NewMessage,
    UserList,
    NewUser,
}

/// A chat message. The body's field keeps the wire's spelling, `messsage`.
#[derive(Clone, Debug, PartialEq, Eq)]
pub struct ChatMessage {
    pub messsage: String,
    pub author: String,
    pub created_at: Timestamp,
}

/// The model of a chat message: body, author and time text.
pub type MessageModel = (Seq<char>, Seq<char>, Seq<char>);

impl ChatMessage {
    pub open spec fn view(&self) -> MessageModel {
        (self.messsage@, self.author@, self.created_at@)
    }

    pub fn new(messsage: String, author: String, created_at: Timestamp) -> (r: ChatMessage)
        ensures
            r@ == (messsage@, author@, created_at@),
    {
        ChatMessage { messsage, author, created_at }
    }
}

/// The views of a sequence of strings.
pub open spec fn strs(v: Seq<String>) -> Seq<Seq<char>> {
    v.map_values(|s: String| s@)
}

/// The tagged union that travels between peers and the hub. Exactly one of
/// the payload fields belongs to the kind; the others are absent.
#[derive(Clone, Debug, PartialEq, Eq)]
pub struct WebSocketMessage {
    pub message_type: MessageType,
    pub message: Option<ChatMessage>,
    pub users: Option<Vec<String>>,
    pub username: Option<String>,
}

/// The model of an envelope.
pub struct EnvelopeModel {
    pub kind: MessageType,
    pub message: Option<MessageModel>,
    pub users: Option<Seq<Seq<char>>>,
    pub username: Option<Seq<char>>,
}

/// A logical event: what an envelope means.
#[derive(Clone, Debug, PartialEq, Eq)]
pub enum ChatEvent {
    NewMessage(ChatMessage),
    UserList(Vec<String>),
    NewUser(String),
}

/// The model of an event.
pub enum EventModel {
    NewMessage(MessageModel),
    UserList(Seq<Seq<char>>),
    NewUser(Seq<char>),
}

impl ChatEvent {
    pub open spec fn view(&self) -> EventModel {
        match self {
            ChatEvent::NewMessage(m) => EventModel::NewMessage(m@),
            ChatEvent::UserList(u) => EventModel::UserList(strs(u@)),
            ChatEvent::NewUser(n) => EventModel::NewUser(n@),
        }
    }
}

/// The envelope that carries an event: its kind, its one payload, nothing else.
pub open spec fn envelope_of(e: EventModel) -> EnvelopeModel {
    match e {
        EventModel::NewMessage(m) => EnvelopeModel {
            kind: MessageType::NewMessage,
            message: Some(m),
            users: None,
            username: None,
        },
        EventModel::UserList(u) => EnvelopeModel {
            kind: MessageType::UserList,
            message: None,
            users: Some(u),
            username: None,
        },
        EventModel::NewUser(n) => EnvelopeModel {
            kind: MessageType::NewUser,
            message: None,
            users: None,
            username: Some(n),
        },
    }
}

/// What an envelope means: the event of its kind where the kind's payload is
/// present, and nothing (the envelope is ignored) where it is missing.
pub open spec fn event_of(env: EnvelopeModel) -> Option<EventModel> {
    match env.kind {
        MessageType::NewMessage => match env.message {
            Some(m) => Some(EventModel::NewMessage(m)),
            None => None,
        },
        MessageType::UserList => match env.users {
            Some(u) => Some(EventModel::UserList(u)),
            None => None,
        },
        MessageType::NewUser => match env.username {
            Some(n) => Some(EventModel::NewUser(n)),
            None => None,
        },
    }
}

impl WebSocketMessage {
    pub open spec fn view(&self) -> EnvelopeModel {
        EnvelopeModel {
            kind: self.message_type,
            message: match self.message {
                Some(m) => Some(m@),
                None => None,
            },
            users: match self.users {
                Some(u) => Some(strs(u@)),
                None => None,
            },
            username: match self.username {
                Some(n) => Some(n@),
                None => None,
            },
        }
    }

    /// Wraps an event in the envelope of its kind.
    pub fn from_event(e: ChatEvent) -> (r: WebSocketMessage)
        ensures
            r@ == envelope_of(e@),
    {
        match e {
            ChatEvent::NewMessage(m) => WebSocketMessage {
                message_type: MessageType::NewMessage,
                message: Some(m),
                users: None,
                username: None,
            },
            ChatEvent::UserList(u) => WebSocketMessage {
                message_type: MessageType::UserList,
                message: None,
                users: Some(u),
                username: None,
            },
            ChatEvent::NewUser(n) => WebSocketMessage {
                message_type: MessageType::NewUser,
                message: None,
                users: None,
                username: Some(n),
            },
        }
    }

    /// The event that the envelope carries, or `None` where the payload of
    /// its kind is missing.
    pub fn into_event(self) -> (r: Option<ChatEvent>)
        ensures
            match r {
                Some(e) => event_of(self@) == Some(e@),
                None => event_of(self@) is None,
            },
    {
        match self.message_type {
            MessageType::NewMessage => match self.message {
                Some(m) => Some(ChatEvent::NewMessage(m)),
                None => None,
            },
            MessageType::UserList => match self.users {
                Some(u) => Some(ChatEvent::UserList(u)),
                None => None,
            },
            MessageType::NewUser => match self.username {
                Some(n) => Some(ChatEvent::NewUser(n)),
                None => None,
            },
        }
    }
}

/// Wrapping an event in its envelope and reading the envelope back gives the
/// same event, for each of the three kinds.
pub proof fn lemma_envelope_round_trip(e: EventModel)
    ensures
        event_of(envelope_of(e)) == Some(e),
{
}

/// An envelope whose kind's payload is missing is ignored, whatever the other
/// fields hold.
pub proof fn lemma_missing_payload_ignored(env: EnvelopeModel)
    requires
        match env.kind {
            MessageType::NewMessage => env.message is None,
            MessageType::UserList => env.users is None,
            MessageType::NewUser => env.username is None,
        },
    ensures
        event_of(env) is None,
{
}

} // verus!
