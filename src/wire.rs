use vstd::prelude::*;
use vstd::string::StringExecFns;

use crate::messages::{
    ChatMessage, EnvelopeModel, MessageModel, MessageType, WebSocketMessage, strs,
};

verus! {

/// The JSON string literal of a text: quotes and escapes included.
pub uninterp spec fn json_quoted(s: Seq<char>) -> Seq<char>;

/// Relies on `serde_json::to_string` on a `str`, which writes the text as a
/// JSON string literal. Writing a `str` into memory does not fail.
#[verifier::external_body]
fn quote(s: &str) -> (r: String)
    ensures
        r@ == json_quoted(s@),
{
    match serde_json::to_string(s) {
        Ok(t) => t,
        Err(_) => String::new(),
    }
}

/// `{"messsage":..,"author":..,"created_at":..}`
pub open spec fn message_text(m: MessageModel) -> Seq<char> {
    "{\"messsage\":"@ + json_quoted(m.0) + ",\"author\":"@ + json_quoted(m.1)
        + ",\"created_at\":"@ + json_quoted(m.2) + "}"@
}

/// The quoted names, separated by commas.
pub open spec fn joined(us: Seq<Seq<char>>) -> Seq<char>
    decreases us.len(),
{
    if us.len() == 0 {
        Seq::empty()
    } else if us.len() == 1 {
        json_quoted(us[0])
    } else {
        joined(us.drop_last()) + ","@ + json_quoted(us.last())
    }
}

/// `["a","b",..]`
pub open spec fn users_text(us: Seq<Seq<char>>) -> Seq<char> {
    "["@ + joined(us) + "]"@
}

pub open spec fn kind_text(k: MessageType) -> Seq<char> {
    match k {
        MessageType::NewMessage => "\"NewMessage\""@,
        MessageType::UserList => "\"UserList\""@,
        MessageType::NewUser => "\"NewUser\""@,
    }
}

/// The text of a frame: one JSON object with the kind and the three payload
/// fields, each `null` where absent.
pub open spec fn envelope_text(env: EnvelopeModel) -> Seq<char> {
    "{\"message_type\":"@ + kind_text(env.kind) + ",\"message\":"@ + match env.message {
        Some(m) => message_text(m),
        None => "null"@,
    } + ",\"users\":"@ + match env.users {
        Some(u) => users_text(u),
        None => "null"@,
    } + ",\"username\":"@ + match env.username {
        Some(n) => json_quoted(n),
        None => "null"@,
    } + "}"@
}

fn push_message(out: &mut String, m: &ChatMessage)
    ensures
        final(out)@ == old(out)@ + message_text(m@),
{
    out.append("{\"messsage\":");
    out.append(quote(m.messsage.as_str()).as_str());
    out.append(",\"author\":");
    out.append(quote(m.author.as_str()).as_str());
    out.append(",\"created_at\":");
    out.append(quote(m.created_at.iso.as_str()).as_str());
    out.append("}");
}

fn push_users(out: &mut String, users: &Vec<String>)
    ensures
        final(out)@ == old(out)@ + users_text(strs(users@)),
{
    let ghost start = out@;
    out.append("[");
    let mut i: usize = 0;
    while i < users.len()
        invariant
            i <= users@.len(),
            out@ == start + "["@ + joined(strs(users@.subrange(0, i as int))),
        decreases users@.len() - i,
    {
        let ghost before = strs(users@.subrange(0, i as int));
        let ghost after = strs(users@.subrange(0, i + 1));
        assert(after.drop_last() =~= before);
        assert(after.last() == users@[i as int]@);
        if i > 0 {
            out.append(",");
        }
        out.append(quote(users[i].as_str()).as_str());
        i = i + 1;
        assert(out@ =~= start + "["@ + joined(after));
    }
    assert(users@.subrange(0, users@.len() as int) =~= users@);
    out.append("]");
}

/// The frame text of an envelope.
pub fn encode_envelope(env: &WebSocketMessage) -> (r: String)
    ensures
        r@ == envelope_text(env@),
{
    let mut out = String::from_str("{\"message_type\":");
    match env.message_type {
        MessageType::NewMessage => out.append("\"NewMessage\""),
        MessageType::UserList => out.append("\"UserList\""),
        MessageType::NewUser => out.append("\"NewUser\""),
    }
    out.append(",\"message\":");
    match &env.message {
        Some(m) => push_message(&mut out, m),
        None => out.append("null"),
    }
    out.append(",\"users\":");
    match &env.users {
        Some(u) => push_users(&mut out, u),
        None => out.append("null"),
    }
    out.append(",\"username\":");
    match &env.username {
        Some(n) => out.append(quote(n.as_str()).as_str()),
        None => out.append("null"),
    }
    out.append("}");
    out
}

} // verus!
