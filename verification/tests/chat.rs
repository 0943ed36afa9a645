use kolloquy::chat::{
    make_icon_key, make_snapshot_key, settle, snapshot_text, Bucket, Chat, ChatEffect, ChatQuery,
    Fetched, LoadError, Message, StoreError,
};
use kolloquy::codec::{pack_text, unpack_text, unpack_text_lossy};
use kolloquy::time::Moment;
use kolloquy::user::User;
use serde_json::Value;
use std::collections::HashMap;

fn user(id: &str, rooms: &[&str]) -> User {
    User {
        email: format!("{}@example.com", id),
        handle: id.to_string(),
        password: "p".to_string(),
        age: 30,
        country: "NULL".to_string(),
        preferences: "{}".to_string(),
        suspended: false,
        age_verified: false,
        user_id: id.to_string(),
        phone_number: String::new(),
        joined: Moment::default(),
        description: String::new(),
        last_agent: String::new(),
        last_approx_country: String::new(),
        avatar_url: format!("{}.svg.br", id),
        email_verified: false,
        last_login: Moment::default(),
        failed_login_attempts: 0,
        locked_until: Moment::default(),
        timezone: "NULL".to_string(),
        enrolled_chats: rooms.iter().map(|r| r.to_string()).collect(),
    }
}

fn message(text: &str, id: u64) -> Message {
    Message::new(
        text.to_string(),
        "u1".to_string(),
        Moment { seconds: 1_700_000_000, nanos: 123_456_789 },
        id,
    )
}

#[test]
fn keys_are_derived_from_the_id() {
    assert_eq!(make_snapshot_key("ab12cde"), "/ab12cde.json.br");
    assert_eq!(make_icon_key("ab12cde"), "/chats/ab12cde.svg.br");
    let chat = Chat::with_id("Test Chat".to_string(), "ab12cde".to_string());
    assert_eq!(chat.name(), "Test Chat");
    assert_eq!(chat.id(), "ab12cde");
    assert_eq!(chat.icon_url(), "/chats/ab12cde.svg.br");
    assert_eq!(chat.remote_url(), "/ab12cde.json.br");
    assert!(chat.messages().is_empty());
}

#[test]
fn a_new_room_is_empty_and_has_a_seven_character_id() {
    let (chat, icon) = Chat::new("Test Chat".to_string(), 8).expect("randomness");
    assert_eq!(chat.name(), "Test Chat");
    assert!(chat.messages().is_empty());
    assert_eq!(chat.id().chars().count(), 7);
    assert_eq!(chat.icon_url(), &format!("/chats/{}.svg.br", chat.id()));
    assert_eq!(chat.remote_url(), &format!("/{}.json.br", chat.id()));
    assert_eq!(icon.branches.len(), 3);
    assert!(Chat::new("x".to_string(), 0).is_none());
}

#[test]
fn appended_message_comes_first() {
    let mut chat = Chat::with_id("r".to_string(), "ab12cde".to_string());
    chat.add_message(message("first", 1));
    chat.add_message(message("second", 2));
    chat.add_message(message("third", 3));
    let ids: Vec<u64> = chat.messages().iter().map(|m| m.id).collect();
    assert_eq!(ids, vec![3, 2, 1]);
    assert_eq!(chat.messages()[0].current_text(), "third");
    assert_eq!(chat.messages()[2].current_text(), "first");
}

#[test]
fn message_has_one_revision_on_display() {
    let m = message("hello", 9);
    assert_eq!(m.content, vec!["hello".to_string()]);
    assert_eq!(m.author, "u1");
    assert_eq!(m.sent, Moment { seconds: 1_700_000_000, nanos: 123_456_789 });
    assert_eq!(m.id, 9);
    assert_eq!(m.current_text(), "hello");
}

#[test]
fn a_revision_goes_in_front_of_the_history() {
    let mut m = message("first", 1);
    m.revise("second".to_string());
    m.revise("third".to_string());
    assert_eq!(m.content, vec!["third", "second", "first"]);
    assert_eq!(m.current_text(), "third");
    assert_eq!(m.id, 1);
    assert_eq!(m.author, "u1");
}

#[test]
fn add_then_remove_restores_enrolment() {
    let chat = Chat::with_id("r".to_string(), "r1".to_string());
    let mut u = user("u1", &["r0", "r2"]);
    chat.add_participant(&mut u);
    assert_eq!(u.enrolled_chats, vec!["r0", "r2", "r1"]);
    chat.remove_participant(&mut u);
    assert_eq!(u.enrolled_chats, vec!["r0", "r2"]);
}

#[test]
fn remove_takes_every_occurrence() {
    let chat = Chat::with_id("r".to_string(), "r1".to_string());
    let mut u = user("u1", &["r1", "r0", "r1"]);
    chat.remove_participant(&mut u);
    assert_eq!(u.enrolled_chats, vec!["r0"]);
    chat.remove_participant(&mut u);
    assert_eq!(u.enrolled_chats, vec!["r0"]);
}

#[test]
fn a_user_is_enrolled_once() {
    let chat = Chat::with_id("r".to_string(), "r1".to_string());
    let mut u = user("u1", &["r0"]);
    chat.add_participant(&mut u);
    assert_eq!(u.enrolled_chats, vec!["r0", "r1"]);
    chat.add_participant(&mut u);
    assert_eq!(u.enrolled_chats, vec!["r0", "r1"]);
    let mut first = user("u2", &["r1", "r2"]);
    chat.add_participant(&mut first);
    assert_eq!(first.enrolled_chats, vec!["r1", "r2"]);
}

#[test]
fn rebuilding_checks_the_keys_and_the_messages() {
    let ok = Chat::from_remote(
        "n".to_string(),
        "id1".to_string(),
        "/chats/id1.svg.br".to_string(),
        vec![message("a", 1)],
        "/id1.json.br".to_string(),
    );
    assert!(ok.is_some());
    assert_eq!(ok.unwrap().messages().len(), 1);
    let wrong_icon = Chat::from_remote(
        "n".to_string(),
        "id1".to_string(),
        "/chats/other.svg.br".to_string(),
        vec![],
        "/id1.json.br".to_string(),
    );
    assert!(wrong_icon.is_none());
    let wrong_remote = Chat::from_remote(
        "n".to_string(),
        "id1".to_string(),
        "/chats/id1.svg.br".to_string(),
        vec![],
        "id1.json.br".to_string(),
    );
    assert!(wrong_remote.is_none());
    let empty_message = Message { content: vec![], author: "a".to_string(), sent: Moment::default(), id: 0 };
    let bad_message = Chat::from_remote(
        "n".to_string(),
        "id1".to_string(),
        "/chats/id1.svg.br".to_string(),
        vec![message("a", 1), empty_message],
        "/id1.json.br".to_string(),
    );
    assert!(bad_message.is_none());
}

#[test]
fn snapshot_round_trip() {
    let chat = Chat::with_id("Test Chat".to_string(), "ab12cde".to_string());
    let json = r#"{"name":"Test Chat","id":"ab12cde","icon_url":"/chats/ab12cde.svg.br","messages":[],"remote_url":"/ab12cde.json.br"}"#;
    match chat.put_request(json) {
        ChatEffect::Put { bucket, key, body } => {
            assert_eq!(bucket, Bucket::Chats);
            assert_eq!(key, "/ab12cde.json.br");
            assert_ne!(body, json.as_bytes());
            assert_eq!(snapshot_text(Fetched::Found(body)), Ok(json.to_string()));
        }
        _ => panic!("expected a write"),
    }
}

#[test]
fn load_errors() {
    assert_eq!(snapshot_text(Fetched::Missing), Err(LoadError::NotFound));
    assert_eq!(snapshot_text(Fetched::Failed), Err(LoadError::StorageRead));
    assert_eq!(
        snapshot_text(Fetched::Found(b"this is not brotli, not at all".to_vec())),
        Err(LoadError::Deserialization)
    );
}

#[test]
fn execute_applies_each_query() {
    let mut chat = Chat::with_id("r".to_string(), "r1".to_string());
    assert!(matches!(chat.execute(ChatQuery::AddMessage(message("m", 1))), ChatEffect::Nothing));
    assert_eq!(chat.messages().len(), 1);
    match chat.execute(ChatQuery::AddParticipant(user("u1", &[]))) {
        ChatEffect::UpdateUser(u) => assert_eq!(u.enrolled_chats, vec!["r1"]),
        _ => panic!("expected an update"),
    }
    match chat.execute(ChatQuery::RemoveParticipant(user("u1", &["r1", "r2"]))) {
        ChatEffect::UpdateUser(u) => assert_eq!(u.enrolled_chats, vec!["r2"]),
        _ => panic!("expected an update"),
    }
    match chat.execute(ChatQuery::PutIcon("<svg/>".to_string())) {
        ChatEffect::Put { bucket, key, body } => {
            assert_eq!(bucket, Bucket::Avatars);
            assert_eq!(key, "/chats/r1.svg.br");
            assert_eq!(unpack_text(&body), Some("<svg/>".to_string()));
        }
        _ => panic!("expected a write"),
    }
    match chat.execute(ChatQuery::PutChat("{}".to_string())) {
        ChatEffect::Put { bucket, key, body } => {
            assert_eq!(bucket, Bucket::Chats);
            assert_eq!(key, "/r1.json.br");
            assert_eq!(unpack_text_lossy(&body), Some("{}".to_string()));
        }
        _ => panic!("expected a write"),
    }
    match chat.execute(ChatQuery::Delete) {
        ChatEffect::Remove { bucket, key } => {
            assert_eq!(bucket, Bucket::Chats);
            assert_eq!(key, "/r1.json.br");
        }
        _ => panic!("expected a removal"),
    }
    assert_eq!(chat.messages().len(), 1);
}

#[test]
fn bucket_names() {
    assert_eq!(Bucket::Chats.name(), "kolloquy-chats");
    assert_eq!(Bucket::Avatars.name(), "kolloquy-user-avatars");
}

#[test]
fn packing_compresses_and_unpacking_restores() {
    let text = "héllo wörld ".repeat(50);
    let blob = pack_text(&text).expect("compresses");
    assert!(blob.len() < text.len());
    assert_eq!(unpack_text(&blob), Some(text.clone()));
    assert_eq!(unpack_text_lossy(&blob), Some(text));
    assert_eq!(unpack_text(&[1u8, 2, 3, 4, 5, 6, 7, 8].to_vec()), None);
    assert_eq!(unpack_text_lossy(&[1u8, 2, 3, 4, 5, 6, 7, 8].to_vec()), None);
}

#[test]
fn strict_reading_refuses_bytes_that_are_not_text() {
    // Brotli of the two bytes 0xff 0xfe, which are not UTF-8.
    let blob = kolloquy_test_blob(&[0xff, 0xfe]);
    assert_eq!(unpack_text(&blob), None);
    assert_eq!(unpack_text_lossy(&blob), Some("\u{fffd}\u{fffd}".to_string()));
}

fn kolloquy_test_blob(bytes: &[u8]) -> Vec<u8> {
    let mut input = std::io::Cursor::new(bytes);
    let mut output = Vec::new();
    brotli::BrotliCompress(&mut input, &mut output, &Default::default()).unwrap();
    output
}

fn snapshot_of(chat: &Chat) -> String {
    let mut record = serde_json::Map::new();
    record.insert("name".to_string(), Value::String(chat.name().clone()));
    record.insert("id".to_string(), Value::String(chat.id().clone()));
    record.insert("icon_url".to_string(), Value::String(chat.icon_url().clone()));
    let messages = chat
        .messages()
        .iter()
        .map(|m| {
            let mut one = serde_json::Map::new();
            let content = m.content.iter().map(|c| Value::String(c.clone())).collect();
            one.insert("content".to_string(), Value::Array(content));
            one.insert("author".to_string(), Value::String(m.author.clone()));
            one.insert("seconds".to_string(), Value::from(m.sent.seconds));
            one.insert("nanos".to_string(), Value::from(m.sent.nanos));
            one.insert("id".to_string(), Value::from(m.id));
            Value::Object(one)
        })
        .collect();
    record.insert("messages".to_string(), Value::Array(messages));
    record.insert("remote_url".to_string(), Value::String(chat.remote_url().clone()));
    serde_json::to_string(&Value::Object(record)).unwrap()
}

fn chat_of(snapshot: &str) -> Option<Chat> {
    let value: Value = serde_json::from_str(snapshot).ok()?;
    let text = |field: &str| value.get(field)?.as_str().map(str::to_string);
    let messages = value
        .get("messages")?
        .as_array()?
        .iter()
        .map(|m| {
            Some(Message {
                content: m
                    .get("content")?
                    .as_array()?
                    .iter()
                    .map(|c| c.as_str().map(str::to_string))
                    .collect::<Option<Vec<String>>>()?,
                author: m.get("author")?.as_str()?.to_string(),
                sent: Moment {
                    seconds: m.get("seconds")?.as_i64()?,
                    nanos: m.get("nanos")?.as_u64()? as u32,
                },
                id: m.get("id")?.as_u64()?,
            })
        })
        .collect::<Option<Vec<Message>>>()?;
    Chat::from_remote(text("name")?, text("id")?, text("icon_url")?, messages, text("remote_url")?)
}

#[test]
fn test_upload_retrieve() {
    let mut store: HashMap<String, Vec<u8>> = HashMap::new();

    let (mut chat, _) = Chat::new("Test Chat".to_string(), 64).unwrap();

    match chat.execute(ChatQuery::PutChat(snapshot_of(&chat))) {
        ChatEffect::Put { key, body, .. } => {
            store.insert(key, body);
        }
        _ => panic!("expected a write"),
    }

    println!("{chat:?}");

    let fetched = match store.get(&make_snapshot_key(chat.id())) {
        Some(blob) => Fetched::Found(blob.clone()),
        None => Fetched::Missing,
    };
    let loaded = chat_of(&snapshot_text(fetched).unwrap()).unwrap();

    println!("{loaded:?}");

    assert_eq!(loaded.name(), "Test Chat");
    assert!(loaded.messages().is_empty());
    assert_eq!(loaded.id(), chat.id());
    assert_eq!(loaded.icon_url(), chat.icon_url());
    assert_eq!(loaded.remote_url(), chat.remote_url());
    assert!(matches!(
        snapshot_text(match store.get("/nothing.json.br") {
            Some(blob) => Fetched::Found(blob.clone()),
            None => Fetched::Missing,
        }),
        Err(LoadError::NotFound)
    ));
}

#[test]
fn a_room_with_messages_survives_storing_and_loading() {
    let mut chat = Chat::with_id("r\u{e9}sum\u{e9} \"quoted\"".to_string(), "ab12cde".to_string());
    chat.add_message(message("first", 1));
    let mut edited = message("second, edited", 2);
    edited.content.push("second".to_string());
    chat.add_message(edited);
    let body = match chat.put_request(&snapshot_of(&chat)) {
        ChatEffect::Put { body, .. } => body,
        _ => panic!("expected a write"),
    };
    let loaded = chat_of(&snapshot_text(Fetched::Found(body)).unwrap()).unwrap();
    assert_eq!(loaded.name(), chat.name());
    assert_eq!(loaded.messages().len(), 2);
    for (a, b) in loaded.messages().iter().zip(chat.messages()) {
        assert_eq!(a.content, b.content);
        assert_eq!(a.author, b.author);
        assert_eq!(a.sent, b.sent);
        assert_eq!(a.id, b.id);
    }
}

#[test]
fn failures_of_the_stores_are_reported_as_they_are() {
    let chat = Chat::with_id("r".to_string(), "r1".to_string());
    let put = chat.put_request("{}");
    assert_eq!(settle(&put, true), Ok(()));
    assert_eq!(settle(&put, false), Err(StoreError::StorageWrite));
    let remove = chat.delete_request();
    assert_eq!(settle(&remove, true), Ok(()));
    assert_eq!(settle(&remove, false), Err(StoreError::StorageDelete));
    let update = ChatEffect::UpdateUser(user("u1", &[]));
    assert_eq!(settle(&update, true), Ok(()));
    assert_eq!(settle(&update, false), Err(StoreError::ConsistencyGap));
    assert_eq!(settle(&ChatEffect::Nothing, false), Ok(()));
    assert_eq!(settle(&ChatEffect::Failed, true), Err(StoreError::Unwritable));
}
