use chat_hub::clock::{now, Timestamp};
use chat_hub::dispatch::handle_incoming_message;
use chat_hub::messages::{ChatEvent, ChatMessage, MessageType, WebSocketMessage};
use chat_hub::room::{Broadcast, ChatRoom, SendOutcome};
use chat_hub::wire::encode_envelope;

fn at() -> Timestamp {
    Timestamp::from_iso("2024-05-01T12:30:00".to_string())
}

fn msg(body: &str, author: &str) -> ChatMessage {
    ChatMessage::new(body.to_string(), author.to_string(), at())
}

fn new_user(name: &str) -> Option<WebSocketMessage> {
    Some(WebSocketMessage::from_event(ChatEvent::NewUser(name.to_string())))
}

fn new_message(body: &str, author: &str) -> Option<WebSocketMessage> {
    Some(WebSocketMessage::from_event(ChatEvent::NewMessage(msg(body, author))))
}

fn parse(b: &Broadcast) -> serde_json::Value {
    serde_json::from_str(&b.frame).expect("frame is JSON")
}

#[test]
fn user_list_frame_is_exact() {
    let env = WebSocketMessage::from_event(ChatEvent::UserList(vec![
        "A".to_string(),
        "B".to_string(),
    ]));
    assert_eq!(
        encode_envelope(&env),
        r#"{"message_type":"UserList","message":null,"users":["A","B"],"username":null}"#
    );
}

#[test]
fn empty_user_list_frame() {
    let env = WebSocketMessage::from_event(ChatEvent::UserList(vec![]));
    assert_eq!(
        encode_envelope(&env),
        r#"{"message_type":"UserList","message":null,"users":[],"username":null}"#
    );
}

#[test]
fn new_user_frame_is_exact() {
    let env = WebSocketMessage::from_event(ChatEvent::NewUser("zoe".to_string()));
    assert_eq!(
        encode_envelope(&env),
        r#"{"message_type":"NewUser","message":null,"users":null,"username":"zoe"}"#
    );
}

#[test]
fn message_frame_is_exact() {
    let env = WebSocketMessage::from_event(ChatEvent::NewMessage(msg("hi", "A")));
    assert_eq!(
        encode_envelope(&env),
        r#"{"message_type":"NewMessage","message":{"messsage":"hi","author":"A","created_at":"2024-05-01T12:30:00"},"users":null,"username":null}"#
    );
}

#[test]
fn frame_text_is_escaped() {
    let env = WebSocketMessage::from_event(ChatEvent::NewMessage(msg("say \"hi\"\n", "A\\B")));
    let text = encode_envelope(&env);
    assert!(text.contains(r#""messsage":"say \"hi\"\n""#));
    let v: serde_json::Value = serde_json::from_str(&text).unwrap();
    assert_eq!(v["message"]["messsage"], "say \"hi\"\n");
    assert_eq!(v["message"]["author"], "A\\B");
}

#[test]
fn envelope_round_trip_each_kind() {
    let events = vec![
        ChatEvent::NewMessage(msg("hi", "A")),
        ChatEvent::UserList(vec!["A".to_string(), "B".to_string()]),
        ChatEvent::NewUser("C".to_string()),
    ];
    for e in events {
        let env = WebSocketMessage::from_event(e.clone());
        assert_eq!(env.clone().into_event(), Some(e));
    }
}

#[test]
fn missing_payload_is_ignored() {
    for kind in [MessageType::NewMessage, MessageType::UserList, MessageType::NewUser] {
        let env = WebSocketMessage {
            message_type: kind,
            message: None,
            users: None,
            username: None,
        };
        assert_eq!(env.into_event(), None);
    }
    let mismatched = WebSocketMessage {
        message_type: MessageType::NewMessage,
        message: None,
        users: Some(vec!["A".to_string()]),
        username: Some("A".to_string()),
    };
    assert_eq!(mismatched.into_event(), None);
}

#[test]
fn register_and_remove() {
    let mut room = ChatRoom::new();
    assert_eq!(room.len(), 0);
    room.register(7, Some("A".to_string()));
    room.register(9, None);
    room.register(3, Some("C".to_string()));
    assert!(room.contains(9));
    assert_eq!(room.member_ids(), vec![7, 9, 3]);
    assert_eq!(room.usernames(), vec!["A".to_string(), "C".to_string()]);
    room.remove(9);
    room.remove(9);
    room.remove(42);
    assert!(!room.contains(9));
    assert_eq!(room.member_ids(), vec![7, 3]);
    room.register(9, Some("B".to_string()));
    assert_eq!(room.member_ids(), vec![7, 3, 9]);
}

#[test]
fn broadcast_one_attempt_per_member() {
    let mut room = ChatRoom::default();
    for id in [1u64, 2, 3] {
        room.register(id, None);
    }
    let b = room.broadcast_message(msg("hello", "X"));
    assert_eq!(b.targets, vec![1, 2, 3]);
    let v = parse(&b);
    assert_eq!(v["message_type"], "NewMessage");
    assert_eq!(v["message"]["messsage"], "hello");
}

#[test]
fn broadcast_to_empty_room() {
    let room = ChatRoom::new();
    let b = room.broadcast_users();
    assert!(b.targets.is_empty());
    assert_eq!(parse(&b)["users"], serde_json::Value::Array(vec![]));
}

#[test]
fn failed_send_keeps_everyone() {
    let mut room = ChatRoom::new();
    for id in [1u64, 2, 3] {
        room.register(id, None);
    }
    room.after_send(2, SendOutcome::Failed);
    room.after_send(3, SendOutcome::Delivered);
    assert_eq!(room.member_ids(), vec![1, 2, 3]);
    room.after_send(2, SendOutcome::Closed);
    assert_eq!(room.member_ids(), vec![1, 3]);
}

#[test]
fn add_announces_join_to_everyone() {
    let mut room = ChatRoom::new();
    room.register(1, Some("A".to_string()));
    let b = room.add(2, "B".to_string(), at());
    assert_eq!(b.targets, vec![1, 2]);
    let v = parse(&b);
    assert_eq!(v["message_type"], "NewMessage");
    assert_eq!(v["message"]["messsage"], "B joins the chat");
    assert_eq!(v["message"]["author"], "System");
    assert_eq!(v["message"]["created_at"], "2024-05-01T12:30:00");
}

#[test]
fn first_frame_new_user_registers_and_lists() {
    let mut room = ChatRoom::new();
    let out = handle_incoming_message(&mut room, new_user("A"), true, 10, at());
    assert_eq!(out.len(), 2);
    assert_eq!(parse(&out[0])["message"]["messsage"], "A joins the chat");
    let list = parse(&out[1]);
    assert_eq!(list["message_type"], "UserList");
    assert_eq!(list["users"], serde_json::Value::Array(vec!["A".into()]));
    assert_eq!(out[1].targets, vec![10]);
}

#[test]
fn first_frame_other_registers_anonymously() {
    let mut room = ChatRoom::new();
    let out = handle_incoming_message(&mut room, new_message("yo", "anon"), true, 5, at());
    assert!(room.contains(5));
    assert!(room.usernames().is_empty());
    assert_eq!(out.len(), 1);
    assert_eq!(out[0].targets, vec![5]);
    let mut room2 = ChatRoom::new();
    let out2 = handle_incoming_message(&mut room2, None, true, 6, at());
    assert!(out2.is_empty());
    assert_eq!(room2.member_ids(), vec![6]);
}

#[test]
fn steady_state_ignores_client_announcements() {
    let mut room = ChatRoom::new();
    handle_incoming_message(&mut room, new_user("A"), true, 1, at());
    let forged = Some(WebSocketMessage::from_event(ChatEvent::UserList(vec!["X".to_string()])));
    assert!(handle_incoming_message(&mut room, forged, false, 1, at()).is_empty());
    assert!(handle_incoming_message(&mut room, new_user("B"), false, 1, at()).is_empty());
    assert!(handle_incoming_message(&mut room, None, false, 1, at()).is_empty());
    assert_eq!(room.usernames(), vec!["A".to_string()]);
    assert_eq!(room.member_ids(), vec![1]);
}

#[test]
fn three_users_chat_and_one_leaves() {
    let mut room = ChatRoom::new();
    handle_incoming_message(&mut room, new_user("A"), true, 100, at());
    handle_incoming_message(&mut room, new_user("B"), true, 200, at());
    let out = handle_incoming_message(&mut room, new_user("C"), true, 300, at());
    let list = parse(&out[1]);
    let mut users: Vec<String> = list["users"]
        .as_array()
        .unwrap()
        .iter()
        .map(|u| u.as_str().unwrap().to_string())
        .collect();
    users.sort();
    assert_eq!(users, vec!["A", "B", "C"]);
    let mut targets = out[1].targets.clone();
    targets.sort();
    assert_eq!(targets, vec![100, 200, 300]);

    let sent = handle_incoming_message(&mut room, new_message("hi", "A"), false, 100, at());
    assert_eq!(sent.len(), 1);
    let mut targets = sent[0].targets.clone();
    targets.sort();
    assert_eq!(targets, vec![100, 200, 300]);
    let v = parse(&sent[0]);
    assert_eq!(v["message_type"], "NewMessage");
    assert_eq!(v["message"]["author"], "A");
    assert_eq!(v["message"]["messsage"], "hi");

    room.remove(200);
    let sent = handle_incoming_message(&mut room, new_message("bye", "C"), false, 300, at());
    let mut targets = sent[0].targets.clone();
    targets.sort();
    assert_eq!(targets, vec![100, 300]);
    let list = parse(&room.broadcast_users());
    let mut users: Vec<String> = list["users"]
        .as_array()
        .unwrap()
        .iter()
        .map(|u| u.as_str().unwrap().to_string())
        .collect();
    users.sort();
    assert_eq!(users, vec!["A", "C"]);
}

#[test]
fn clock_gives_iso_text() {
    let t = now();
    assert!(t.iso.contains('T'));
    assert!(t.iso.len() >= 19);
}
