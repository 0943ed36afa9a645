use kolloquy::api::ApiError;
use kolloquy::chat::{Bucket, Chat, ChatEffect, CreateChatBody, LoadError, Message};
use kolloquy::codec::unpack_text;
use kolloquy::data::QueryError;
use kolloquy::flows::{
    authenticate, chat_keys, plan_room, register, room_effects, summaries, visit_room, Entry, Visit,
};
use kolloquy::routes::new_user;
use kolloquy::session::{ServerState, SessionLookup};
use kolloquy::time::Moment;
use kolloquy::user::{AuthenticateBody, RegisterBody, User, UserQuery};

fn hash() -> String {
    format!("{}=", "a".repeat(43))
}

fn body() -> RegisterBody {
    RegisterBody {
        email: "owner@ljpprojects.org".to_string(),
        handle: "ljpprojects".to_string(),
        age: 20,
        password: hash(),
    }
}

fn user(id: &str) -> User {
    new_user(body(), id.to_string(), Moment { seconds: 5, nanos: 0 })
}

fn login(password: &str) -> AuthenticateBody {
    AuthenticateBody {
        email: "owner@ljpprojects.org".to_string(),
        password: password.to_string(),
        redirect: "https://example.com/account".to_string(),
    }
}

#[test]
fn registration_step_by_step() {
    let mut state = ServerState::new();
    let step = register(body(), "ab12cde".to_string(), Moment { seconds: 1, nanos: 0 }).ok().unwrap();
    assert!(matches!(step.query(), UserQuery::GetByEmail(e) if e == "owner@ljpprojects.org"));
    let step = step.answered(&Err(QueryError::NotFound)).ok().unwrap();
    assert!(matches!(step.query(), UserQuery::GetByHandle(h) if h == "ljpprojects"));
    let step = step.answered(&Err(QueryError::NotFound), "<svg/>".to_string()).ok().unwrap();
    match step.upload() {
        UserQuery::UploadAvatar(u, image) => {
            assert_eq!(u.user_id, "ab12cde");
            assert_eq!(u.avatar_url, "ab12cde.svg.br");
            assert_eq!(image, "<svg/>");
        }
        _ => panic!("expected an upload"),
    }
    let step = step.uploaded(true).ok().unwrap();
    assert!(matches!(step.query(), UserQuery::PutToDB(u) if u.user_id == "ab12cde"));
    let step = step.answered(&Ok(None)).ok().unwrap();
    let welcome = step.finish(&mut state, "sid".to_string(), 2_000);
    assert_eq!(welcome.id, "ab12cde");
    assert_eq!(welcome.avatar, "<svg/>");
    assert_eq!(welcome.cookie.name, "SSID");
    assert_eq!(welcome.cookie.value, "sid");
    assert_eq!(welcome.cookie.max_age_secs, 1800);
    assert!(welcome.cookie.http_only && welcome.cookie.same_site_strict);
    match state.get("sid", 2_000) {
        SessionLookup::Active { user, started } => {
            assert_eq!(user.user_id, "ab12cde");
            assert_eq!(started, 2_000);
        }
        _ => panic!("expected an open session"),
    }
}

#[test]
fn registration_stops_at_the_first_fault() {
    let mut bad = body();
    bad.email = "owne@r@ljpprojects.org".to_string();
    assert!(matches!(register(bad, "id".to_string(), Moment::default()), Err(ApiError::InvalidEmail)));
    let mut bad = body();
    bad.handle = "no".to_string();
    assert!(matches!(register(bad, "id".to_string(), Moment::default()), Err(ApiError::InvalidHandle)));
    let mut bad = body();
    bad.password = "plain".to_string();
    assert!(matches!(register(bad, "id".to_string(), Moment::default()), Err(ApiError::InvalidPassword)));

    let step = register(body(), "id".to_string(), Moment::default()).ok().unwrap();
    assert!(matches!(step.answered(&Ok(Some(user("u1")))), Err(ApiError::EmailTaken)));
    let step = register(body(), "id".to_string(), Moment::default()).ok().unwrap();
    assert!(matches!(step.answered(&Err(QueryError::ServerError)), Err(ApiError::Database(_))));
    let step = register(body(), "id".to_string(), Moment::default()).ok().unwrap();
    let step = step.answered(&Err(QueryError::NotFound)).ok().unwrap();
    assert!(matches!(
        step.answered(&Ok(Some(user("u1"))), String::new()),
        Err(ApiError::HandleTaken)
    ));
}

#[test]
fn registration_stops_where_the_stores_fail() {
    let accepted = || {
        let step = register(body(), "id".to_string(), Moment::default()).ok().unwrap();
        let step = step.answered(&Err(QueryError::NotFound)).ok().unwrap();
        step.answered(&Err(QueryError::NotFound), "<svg/>".to_string()).ok().unwrap()
    };
    match accepted().uploaded(false) {
        Err(e) => {
            assert!(matches!(&e, ApiError::Storage(why) if why == "StorageWrite"));
            assert_eq!(e.status(), 500);
        }
        Ok(_) => panic!("expected a failure"),
    }
    let step = accepted().uploaded(true).ok().unwrap();
    assert!(matches!(
        step.answered(&Err(QueryError::ServerError)),
        Err(ApiError::Database(why)) if why == "ServerError"
    ));
    let step = accepted().uploaded(true).ok().unwrap();
    assert!(step.answered(&Ok(Some(user("u1")))).is_ok());
}

#[test]
fn authentication_step_by_step() {
    let mut state = ServerState::new();
    let step = match authenticate(login(&hash()), &mut state, None, 0) {
        Entry::Check(step) => step,
        _ => panic!("expected a lookup"),
    };
    assert!(matches!(step.query(), UserQuery::GetByEmail(e) if e == "owner@ljpprojects.org"));
    let signed = step.answered(Ok(Some(user("u1")))).ok().unwrap();
    let cookie = signed.finish(&mut state, "sid".to_string(), 10);
    assert_eq!(cookie.value, "sid");
    assert!(matches!(state.get("sid", 10), SessionLookup::Active { .. }));
    assert!(matches!(
        authenticate(login(&hash()), &mut state, Some("SSID=sid"), 20),
        Entry::SignedIn
    ));
    assert!(matches!(
        authenticate(login(&hash()), &mut state, Some("SSID=%22sid%22"), 20),
        Entry::SignedIn
    ));
    assert!(matches!(
        authenticate(login(&hash()), &mut state, Some("SSID=sid"), 1_800_010),
        Entry::Check(_)
    ));
    assert_eq!(state.len(), 0);
    state.open("a/b".to_string(), user("u1"), 0);
    assert!(matches!(
        authenticate(login(&hash()), &mut state, Some("SSID=a%2Fb"), 1),
        Entry::SignedIn
    ));
    assert!(matches!(visit_room(&mut state, Some("SSID=a%2Fb"), 1, "r1"), Visit::Refused(_)));
}

#[test]
fn authentication_is_refused() {
    let mut state = ServerState::new();
    let mut bad = login(&hash());
    bad.redirect = "nowhere".to_string();
    assert!(matches!(
        authenticate(bad, &mut state, None, 0),
        Entry::Rejected(ApiError::InvalidRedirect)
    ));
    assert!(matches!(
        authenticate(login("plain"), &mut state, None, 0),
        Entry::Rejected(ApiError::InvalidPassword)
    ));
    let check = |found| match authenticate(login(&hash()), &mut ServerState::new(), None, 0) {
        Entry::Check(step) => step.answered(found).err(),
        _ => panic!("expected a lookup"),
    };
    let mut other = user("u1");
    other.password = format!("{}=", "b".repeat(43));
    assert!(matches!(check(Ok(Some(other))), Some(ApiError::WrongPassword)));
    assert!(matches!(check(Err(QueryError::NotFound)), Some(ApiError::NoSuchEmail)));
    assert!(matches!(check(Err(QueryError::ServerError)), Some(ApiError::Database(_))));
}

#[test]
fn a_room_is_created_in_order() {
    let body = CreateChatBody {
        participants: vec!["@alice".to_string(), "bob".to_string()],
        name: "Test Chat".to_string(),
    };
    let plan = plan_room(&body).ok().unwrap();
    let handles: Vec<String> = plan
        .lookups()
        .iter()
        .map(|q| match q {
            UserQuery::GetByHandle(h) => h.clone(),
            _ => panic!("expected a lookup by handle"),
        })
        .collect();
    assert_eq!(handles, vec!["alice", "bob"]);
    let mut second = user("u2");
    second.enrolled_chats = vec!["r1".to_string()];
    let roster = plan.answered(&vec![Ok(Some(user("u1"))), Ok(Some(second))]).ok().unwrap();
    let (chat, mut others) = roster.found("r9".to_string());
    assert_eq!(chat.name(), "Test&#32;Chat");
    assert_eq!(chat.id(), "r9");
    assert!(chat.messages().is_empty());

    let mut creator = user("u0");
    let effects = room_effects(&chat, "{\"name\":1}", "<svg/>", &mut creator, &mut others);
    assert_eq!(creator.enrolled_chats, vec!["r9"]);
    assert_eq!(others[0].enrolled_chats, vec!["r9"]);
    assert_eq!(others[1].enrolled_chats, vec!["r1", "r9"]);
    assert_eq!(effects.len(), 5);
    let mut effects = effects.into_iter();
    match effects.next().unwrap() {
        ChatEffect::Put { bucket, key, body } => {
            assert_eq!(bucket, Bucket::Chats);
            assert_eq!(key, "/r9.json.br");
            assert_eq!(unpack_text(&body), Some("{\"name\":1}".to_string()));
        }
        _ => panic!("expected the room to be written first"),
    }
    match effects.next().unwrap() {
        ChatEffect::Put { bucket, key, body } => {
            assert_eq!(bucket, Bucket::Avatars);
            assert_eq!(key, "/chats/r9.svg.br");
            assert_eq!(unpack_text(&body), Some("<svg/>".to_string()));
        }
        _ => panic!("expected the icon to be written second"),
    }
    let written: Vec<(String, Vec<String>)> = effects
        .map(|e| match e {
            ChatEffect::UpdateUser(u) => (u.user_id, u.enrolled_chats),
            _ => panic!("expected an update"),
        })
        .collect();
    assert_eq!(
        written,
        vec![
            ("u0".to_string(), vec!["r9".to_string()]),
            ("u1".to_string(), vec!["r9".to_string()]),
            ("u2".to_string(), vec!["r1".to_string(), "r9".to_string()]),
        ]
    );
    let long = CreateChatBody { participants: vec![], name: "x".repeat(21) };
    assert!(matches!(plan_room(&long), Err(ApiError::ChatNameTooLong)));
}

#[test]
fn a_room_is_not_created_without_its_participants() {
    let body = CreateChatBody {
        participants: vec!["alice".to_string(), "bob".to_string(), "carol".to_string()],
        name: "n".to_string(),
    };
    let plan = || plan_room(&body).ok().unwrap();
    assert!(matches!(
        plan().answered(&vec![Ok(Some(user("u1"))), Err(QueryError::NotFound), Ok(None)]),
        Err(ApiError::NoSuchHandle)
    ));
    assert!(matches!(
        plan().answered(&vec![Ok(Some(user("u1"))), Ok(None), Err(QueryError::ServerError)]),
        Err(ApiError::NoSuchHandle)
    ));
    assert!(matches!(
        plan().answered(&vec![
            Err(QueryError::ServerError),
            Err(QueryError::NotFound),
            Ok(Some(user("u3")))
        ]),
        Err(ApiError::Database(why)) if why == "ServerError"
    ));
    let none = CreateChatBody { participants: vec![], name: "n".to_string() };
    let roster = plan_room(&none).ok().unwrap().answered(&vec![]).ok().unwrap();
    assert!(roster.found("r1".to_string()).1.is_empty());
}

#[test]
fn a_room_is_shown_to_its_members_only() {
    let mut state = ServerState::new();
    let mut member = user("u1");
    member.enrolled_chats = vec!["r1".to_string()];
    state.open("sid".to_string(), member, 0);
    assert!(matches!(visit_room(&mut state, None, 1, "r1"), Visit::Login));
    assert!(matches!(visit_room(&mut state, Some("SSID=nope"), 1, "r1"), Visit::Login));
    assert!(matches!(
        visit_room(&mut state, Some("SSID=sid"), 1, "r2"),
        Visit::Refused(ApiError::NotInChat)
    ));
    let visit = match visit_room(&mut state, Some("SSID=sid"), 1, "r1") {
        Visit::Load(visit) => visit,
        _ => panic!("expected the room to be loaded"),
    };
    assert_eq!(visit.snapshot(), "/r1.json.br");
    let mut chat = Chat::with_id("n".to_string(), "r1".to_string());
    chat.add_message(Message::new("old".to_string(), "u2".to_string(), Moment::default(), 1));
    chat.add_message(Message::new("new".to_string(), "u1".to_string(), Moment::default(), 2));
    let page = visit.loaded(Ok(chat)).ok().unwrap();
    assert_eq!(page.id, "r1");
    assert_eq!(page.viewer_id, "u1");
    assert_eq!(page.viewer_handle, "ljpprojects");
    assert_eq!(page.lines.len(), 2);
    assert!(page.lines[0].is_sender);
    assert_eq!(page.lines[0].content, "new");
    assert!(!page.lines[1].is_sender);
    assert_eq!(page.lines[1].author, "u2");
    assert_eq!(page.lines[1].content, "old");

    let visit = match visit_room(&mut state, Some("SSID=sid"), 1, "r1") {
        Visit::Load(visit) => visit,
        _ => panic!("expected the room to be loaded"),
    };
    assert!(matches!(visit.loaded(Err(LoadError::NotFound)), Err(ApiError::NoSuchChat)));
    for (reason, details) in
        [(LoadError::StorageRead, "StorageRead"), (LoadError::Deserialization, "Deserialization")]
    {
        let visit = match visit_room(&mut state, Some("SSID=sid"), 1, "r1") {
            Visit::Load(visit) => visit,
            _ => panic!("expected the room to be loaded"),
        };
        match visit.loaded(Err(reason)) {
            Err(e) => {
                assert!(matches!(&e, ApiError::Storage(why) if why == details));
                assert_eq!(e.status(), 500);
                assert_eq!(e.code(), 301);
                assert_eq!(e.message(), "Could not access storage.");
                assert_eq!(e.details(), Some(details.to_string()));
            }
            Ok(_) => panic!("expected a failure"),
        }
    }
    assert!(matches!(visit_room(&mut state, Some("SSID=sid"), 1_800_000, "r1"), Visit::Login));
}

#[test]
fn the_list_of_rooms_is_whole_or_empty() {
    let mut u = user("u1");
    u.enrolled_chats = vec!["r1".to_string(), "r2".to_string()];
    assert_eq!(chat_keys(&u), vec!["/r1.json.br", "/r2.json.br"]);
    let rooms = || {
        let mut first = Chat::with_id("one".to_string(), "r1".to_string());
        first.add_message(Message::new("hello".to_string(), "u1".to_string(), Moment::default(), 1));
        vec![Ok(first), Ok(Chat::with_id("two".to_string(), "r2".to_string()))]
    };
    let icons = vec![Some("<svg>1</svg>".to_string()), Some("<svg>2</svg>".to_string())];
    let list = summaries(&rooms(), &icons);
    assert_eq!(list.len(), 2);
    assert_eq!(list[0].name, "one");
    assert_eq!(list[0].messages, vec!["hello"]);
    assert_eq!(list[0].icon, "<svg>1</svg>");
    assert_eq!(list[1].name, "two");
    assert!(list[1].messages.is_empty());
    assert_eq!(list[1].icon, "<svg>2</svg>");
    let mut missing = rooms();
    missing[1] = Err(LoadError::NotFound);
    assert!(summaries(&missing, &icons).is_empty());
    missing[1] = Err(LoadError::StorageRead);
    assert!(summaries(&missing, &icons).is_empty());
    assert!(summaries(&rooms(), &vec![Some("<svg>1</svg>".to_string()), None]).is_empty());
    assert!(summaries(&rooms(), &vec![Some("<svg>1</svg>".to_string())]).is_empty());
    assert!(summaries(&vec![], &vec![]).is_empty());
}
