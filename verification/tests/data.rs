use base64::Engine;
use kolloquy::chat::Bucket;
use kolloquy::codec::unpack_text;
use kolloquy::data::{
    DBQuery, DbResponse, KolloquyDB, KolloquyR2, Query, QueryError, R2Query, R2QueryKind, UserRow,
};
use kolloquy::icon::{create_avatar, render};
use kolloquy::time::Moment;
use kolloquy::user::{User, UserQuery};

fn user(id: &str) -> User {
    User {
        email: format!("{}@example.com", id),
        handle: id.to_string(),
        password: "hash".to_string(),
        age: 30,
        country: "NZ".to_string(),
        preferences: "{}".to_string(),
        suspended: false,
        age_verified: true,
        user_id: id.to_string(),
        phone_number: "".to_string(),
        joined: Moment { seconds: 1_745_291_614, nanos: 76_305_001 },
        description: "about me".to_string(),
        last_agent: "agent".to_string(),
        last_approx_country: "NZ".to_string(),
        avatar_url: format!("{}.svg.br", id),
        email_verified: false,
        last_login: Moment::default(),
        failed_login_attempts: 2,
        locked_until: Moment { seconds: -1, nanos: 999_000_000 },
        timezone: "UTC".to_string(),
        enrolled_chats: vec!["r1".to_string(), "r2".to_string()],
    }
}

fn row() -> UserRow {
    UserRow {
        email: "u1@example.com".to_string(),
        handle: "u1".to_string(),
        password: "hash".to_string(),
        age: 30,
        country: "NZ".to_string(),
        preferences: "{}".to_string(),
        suspended: 0,
        age_verified: 1,
        userid: "u1".to_string(),
        phone_number: "".to_string(),
        joined: "2025-04-22T03:13:34.076305+00:00".to_string(),
        description: "d".to_string(),
        last_agent: "agent".to_string(),
        last_approx_country: "NZ".to_string(),
        avatar_url: "u1.svg.br".to_string(),
        email_verified: 2,
        last_login: "1970-01-01T00:00:00+00:00".to_string(),
        failed_login_attempts: 2,
        locked_until: "1970-01-01 13:00:00+13:00".to_string(),
        timezone: "UTC".to_string(),
        enrolled_chats: "r1,r2".to_string(),
    }
}

#[test]
fn lookups_are_single_parameter_selects() {
    let q = UserQuery::GetByEmail("a@b.c".to_string());
    assert_eq!(
        q.to_sql_query_string(),
        Some(("SELECT * FROM users WHERE email = ?".to_string(), vec!["a@b.c".to_string()]))
    );
    let q = UserQuery::GetByHandle("h".to_string());
    assert_eq!(
        q.to_sql_query_string(),
        Some(("SELECT * FROM users WHERE handle = ?".to_string(), vec!["h".to_string()]))
    );
    let q = UserQuery::GetByID("i".to_string());
    assert_eq!(
        q.to_sql_query_string(),
        Some(("SELECT * FROM users WHERE userid = ?".to_string(), vec!["i".to_string()]))
    );
}

#[test]
fn insert_has_twenty_one_parameters() {
    let (sql, params) = UserQuery::PutToDB(user("u1")).to_sql_query_string().unwrap();
    assert_eq!(
        sql,
        "INSERT INTO users VALUES (?, ?, ?, ?, ?, ?, ?, ?, ?, ?, ?, ?, ?, ?, ?, ?, ?, ?, ?, ?, ?)"
    );
    assert_eq!(params.len(), 21);
    assert_eq!(params[0], "u1@example.com");
    assert_eq!(params[1], "u1");
    assert_eq!(params[2], "hash");
    assert_eq!(params[3], "30");
    assert_eq!(params[4], "NZ");
    assert_eq!(params[5], "{}");
    assert_eq!(params[6], "0");
    assert_eq!(params[7], "1");
    assert_eq!(params[8], "u1");
    assert_eq!(params[9], "");
    assert_eq!(params[10], "2025-04-22T03:13:34.076305001+00:00");
    assert_eq!(params[12], "agent");
    assert_eq!(params[13], "NZ");
    assert_eq!(params[14], "u1.svg.br");
    assert_eq!(params[15], "0");
    assert_eq!(params[16], "1970-01-01T00:00:00+00:00");
    assert_eq!(params[17], "2");
    assert_eq!(params[18], "1969-12-31T23:59:59.999+00:00");
    assert_eq!(params[19], "UTC");
    assert_eq!(params[20], "r1,r2");
}

#[test]
fn description_is_stored_compressed_in_base64() {
    let (_, params) = UserQuery::PutToDB(user("u1")).to_sql_query_string().unwrap();
    let alphabet = base64::alphabet::Alphabet::new(
        "abcdefghijklmnopqrstuvwxyzABCDEFGHIJKLMNOPQRSTUVWXYZ1234567890+/",
    )
    .unwrap();
    let engine = base64::engine::GeneralPurpose::new(&alphabet, Default::default());
    let blob = engine.decode(&params[11]).unwrap();
    assert_eq!(unpack_text(&blob), Some("about me".to_string()));
}

#[test]
fn update_repeats_the_id_at_the_end() {
    let (sql, params) = UserQuery::UpdateRemote(user("u1")).to_sql_query_string().unwrap();
    assert!(sql.starts_with("UPDATE users\nSET email = ?, handle = ?"));
    assert!(sql.ends_with("enrolled_chats = ?\nWHERE userid = ?;"));
    assert_eq!(sql.matches('?').count(), 22);
    assert_eq!(params.len(), 22);
    assert_eq!(params[21], "u1");
    let (_, insert) = UserQuery::PutToDB(user("u1")).to_sql_query_string().unwrap();
    assert_eq!(&params[..21], &insert[..]);
}

#[test]
fn a_time_out_of_range_cannot_be_written() {
    let mut u = user("u1");
    u.joined = Moment { seconds: i64::MAX, nanos: 0 };
    assert_eq!(UserQuery::PutToDB(u).to_sql_query_string(), None);
}

#[test]
fn which_queries_have_a_result() {
    assert!(UserQuery::GetByEmail("a".to_string()).has_result());
    assert!(UserQuery::GetByHandle("a".to_string()).has_result());
    assert!(UserQuery::GetByID("a".to_string()).has_result());
    assert!(UserQuery::GetAvatar(user("u1")).has_result());
    assert!(!UserQuery::PutToDB(user("u1")).has_result());
    assert!(!UserQuery::UpdateRemote(user("u1")).has_result());
    assert!(!UserQuery::UploadAvatar(user("u1"), "<svg/>".to_string()).has_result());
}

#[test]
fn avatar_queries_name_the_object() {
    let get = UserQuery::GetAvatar(user("u1"));
    assert_eq!(get.path(), "/u1.svg.br");
    assert!(matches!(get.kind(), Some(R2QueryKind::GetObject)));
    let put = UserQuery::UploadAvatar(user("u1"), "<svg>avatar</svg>".to_string());
    assert_eq!(put.path(), "/u1.svg.br");
    match put.kind() {
        Some(R2QueryKind::PutObject(bytes)) => {
            assert_eq!(unpack_text(&bytes), Some("<svg>avatar</svg>".to_string()));
        }
        _ => panic!("expected a write"),
    }
    let r2 = KolloquyR2::new(Bucket::Avatars);
    let request = r2.execute(&get).unwrap();
    assert_eq!(request.bucket, Bucket::Avatars);
    assert_eq!(request.path, "/u1.svg.br");
    assert!(matches!(request.kind, R2QueryKind::GetObject));
}

#[test]
fn database_request_and_address() {
    let db = KolloquyDB::new();
    let request = db.execute(&UserQuery::GetByHandle("ljpprojects".to_string())).unwrap();
    assert_eq!(request.sql, "SELECT * FROM users WHERE handle = ?");
    assert_eq!(request.params, vec!["ljpprojects".to_string()]);
    assert_eq!(
        db.url("acc", "db"),
        "https://api.cloudflare.com/client/v4/accounts/acc/d1/database/db/query"
    );
}

#[test]
fn rows_are_decoded() {
    let user = row().decode().unwrap();
    assert_eq!(user.email, "u1@example.com");
    assert_eq!(user.age, 30);
    assert!(!user.suspended);
    assert!(user.age_verified);
    assert!(!user.email_verified);
    assert_eq!(user.user_id, "u1");
    assert_eq!(user.joined, Moment { seconds: 1_745_291_614, nanos: 76_305_000 });
    assert_eq!(user.last_login, Moment::default());
    assert_eq!(user.locked_until, Moment { seconds: 0, nanos: 0 });
    assert_eq!(user.failed_login_attempts, 2);
    assert_eq!(user.enrolled_chats, vec!["r1", "r2"]);
    let mut empty = row();
    empty.enrolled_chats = String::new();
    assert!(empty.decode().unwrap().enrolled_chats.is_empty());
    let mut gap = row();
    gap.enrolled_chats = "r1,,r2,".to_string();
    assert_eq!(gap.decode().unwrap().enrolled_chats, vec!["r1", "", "r2", ""]);
    let mut cut = row();
    cut.age = (1u64 << 32) + 7;
    cut.suspended = (1u64 << 32) + 1;
    let user = cut.decode().unwrap();
    assert_eq!(user.age, 7);
    assert!(user.suspended);
    let mut bad = row();
    bad.joined = "yesterday".to_string();
    assert!(bad.decode().is_none());
}

#[test]
fn answers_of_the_store() {
    let db = KolloquyDB::new();
    let get = UserQuery::GetByID("u1".to_string());
    let put = UserQuery::PutToDB(user("u1"));
    let reply =
        |success: bool, result: Vec<Vec<Option<UserRow>>>| DbResponse::Reply { success, result };
    assert!(matches!(
        db.interpret(&get, DbResponse::Unreachable("timeout".to_string())),
        Err(QueryError::Other(why)) if why == "timeout"
    ));
    assert!(matches!(db.interpret(&get, reply(false, vec![vec![Some(row())]])), Err(QueryError::ServerError)));
    assert!(matches!(db.interpret(&put, reply(true, vec![])), Ok(None)));
    assert!(matches!(db.interpret(&put, reply(true, vec![vec![Some(row())]])), Ok(None)));
    assert!(matches!(db.interpret(&get, reply(true, vec![])), Err(QueryError::NotFound)));
    assert!(matches!(db.interpret(&get, reply(true, vec![vec![]])), Err(QueryError::NotFound)));
    assert!(matches!(
        db.interpret(&get, reply(true, vec![vec![None, Some(row())]])),
        Err(QueryError::ServerError)
    ));
    match db.interpret(&get, reply(true, vec![vec![Some(row()), None], vec![None]])) {
        Ok(Some(user)) => assert_eq!(user.user_id, "u1"),
        other => panic!("expected a user, got {:?}", other.map(|u| u.map(|u| u.user_id))),
    }
    let mut bad = row();
    bad.last_login = String::new();
    assert!(matches!(db.interpret(&get, reply(true, vec![vec![Some(bad)]])), Err(QueryError::ServerError)));
}

#[test]
fn get_user() {
    let handle = "ljpprojects";

    let db = KolloquyDB::new();
    let query = UserQuery::GetByHandle(handle.parse().unwrap());

    println!("{:#?}", db.execute(&query).map(|request| (request.sql, request.params)))
}

#[test]
fn errors_are_copied_and_described() {
    let e = QueryError::Other("why".to_string());
    assert!(matches!(e.duplicate(), QueryError::Other(w) if w == "why"));
    assert!(matches!(QueryError::NotFound.duplicate(), QueryError::NotFound));
    assert_eq!(e.describe(), "Other(why)");
    assert_eq!(QueryError::ServerError.describe(), "ServerError");
    assert_eq!(QueryError::InvalidQuery.describe(), "InvalidQuery");
    assert_eq!(QueryError::NotFound.describe(), "NotFound");
}

#[test]
fn try_upload_file() -> Result<(), Box<dyn std::error::Error>> {
    let user = User {
        email: "".to_string(),
        handle: "".to_string(),
        password: "".to_string(),
        age: 0,
        country: "".to_string(),
        preferences: "".to_string(),
        suspended: false,
        age_verified: false,
        user_id: "TEST".to_string(),
        phone_number: "".to_string(),
        joined: Default::default(),
        description: "".to_string(),
        last_agent: "".to_string(),
        last_approx_country: "".to_string(),
        avatar_url: "".to_string(),
        email_verified: false,
        last_login: Default::default(),
        failed_login_attempts: 0,
        locked_until: Default::default(),
        timezone: "".to_string(),
        enrolled_chats: vec![],
    };

    let avatar = render(&create_avatar().ok_or("no randomness")?);
    let query = UserQuery::UploadAvatar(user, avatar.clone());

    let r2 = KolloquyR2::new(Bucket::Avatars);

    let request = r2.execute(&query).ok_or("the avatar does not compress")?;
    assert_eq!(request.bucket.name(), "kolloquy-user-avatars");
    assert_eq!(request.path, "/");
    match request.kind {
        R2QueryKind::PutObject(bytes) => assert_eq!(unpack_text(&bytes), Some(avatar)),
        _ => panic!("expected a write"),
    }

    Ok(())
}

fn row_of(params: &[String]) -> UserRow {
    UserRow {
        email: params[0].clone(),
        handle: params[1].clone(),
        password: params[2].clone(),
        age: params[3].parse().unwrap(),
        country: params[4].clone(),
        preferences: params[5].clone(),
        suspended: params[6].parse().unwrap(),
        age_verified: params[7].parse().unwrap(),
        userid: params[8].clone(),
        phone_number: params[9].clone(),
        joined: params[10].clone(),
        description: params[11].clone(),
        last_agent: params[12].clone(),
        last_approx_country: params[13].clone(),
        avatar_url: params[14].clone(),
        email_verified: params[15].parse().unwrap(),
        last_login: params[16].clone(),
        failed_login_attempts: params[17].parse().unwrap(),
        locked_until: params[18].clone(),
        timezone: params[19].clone(),
        enrolled_chats: params[20].clone(),
    }
}

#[test]
fn a_user_without_rooms_is_read_back_without_rooms() {
    let mut u = user("u1");
    u.enrolled_chats = vec![];
    let (_, params) = UserQuery::PutToDB(u).to_sql_query_string().unwrap();
    assert_eq!(params[20], "");
    let read = row_of(&params).decode().unwrap();
    assert!(read.enrolled_chats.is_empty());
}

#[test]
fn rooms_and_times_survive_the_record() {
    let mut u = user("u1");
    u.enrolled_chats = vec!["ab12cde".to_string(), "r2".to_string(), "x".to_string()];
    u.last_login = Moment { seconds: 1_700_000_000, nanos: 1 };
    u.locked_until = Moment { seconds: -86_400, nanos: 999_999_999 };
    let (_, params) = UserQuery::UpdateRemote(u.clone()).to_sql_query_string().unwrap();
    assert_eq!(params[20], "ab12cde,r2,x");
    let read = row_of(&params).decode().unwrap();
    assert_eq!(read.enrolled_chats, u.enrolled_chats);
    assert_eq!(read.joined, u.joined);
    assert_eq!(read.last_login, u.last_login);
    assert_eq!(read.locked_until, u.locked_until);
    assert_eq!(read.age, u.age);
    assert_eq!(read.age_verified, u.age_verified);
    assert_eq!(read.user_id, u.user_id);
}

#[test]
fn a_leap_second_is_kept() {
    // 2016-12-31T23:59:60Z
    let leap = Moment { seconds: 1_483_228_799, nanos: 1_500_000_000 };
    let mut u = user("u1");
    u.joined = leap;
    let (_, params) = UserQuery::PutToDB(u).to_sql_query_string().unwrap();
    assert_eq!(params[10], "2016-12-31T23:59:60.500+00:00");
    assert_eq!(row_of(&params).decode().unwrap().joined, leap);
}
