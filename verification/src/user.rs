//! The user record and the request bodies that create and authenticate one.

use crate::codec::{encode_bytes, encoded, pack_text, packed, ID_ALPHABET};
use crate::data::{DBQuery, KindView, Query, R2Query, R2QueryKind};
use crate::text::{clone_strings, decimal, decimal_text, join, joined, texts};
use crate::time::{rfc3339_of, written, Moment};
use vstd::prelude::*;

verus! {

/// A user as the relational store keeps it. `enrolled_chats` lists the ids
/// of the rooms the user belongs to.
#[derive(Debug, Clone)]
pub struct User {
    pub email: String,
    pub handle: String,
    pub password: String,
    pub age: i32,
    pub country: String,
    pub preferences: String,
    pub suspended: bool,
    pub age_verified: bool,
    pub user_id: String,
    pub phone_number: String,
    pub joined: Moment,
    pub description: String,
    pub last_agent: String,
    pub last_approx_country: String,
    pub avatar_url: String,
    pub email_verified: bool,
    pub last_login: Moment,
    pub failed_login_attempts: i32,
    pub locked_until: Moment,
    pub timezone: String,
    pub enrolled_chats: Vec<String>,
}

/// The mathematical value of a [`User`].
pub ghost struct UserView {
    pub email: Seq<char>,
    pub handle: Seq<char>,
    pub password: Seq<char>,
    pub age: int,
    pub country: Seq<char>,
    pub preferences: Seq<char>,
    pub suspended: bool,
    pub age_verified: bool,
    pub user_id: Seq<char>,
    pub phone_number: Seq<char>,
    pub joined: Moment,
    pub description: Seq<char>,
    pub last_agent: Seq<char>,
    pub last_approx_country: Seq<char>,
    pub avatar_url: Seq<char>,
    pub email_verified: bool,
    pub last_login: Moment,
    pub failed_login_attempts: int,
    pub locked_until: Moment,
    pub timezone: Seq<char>,
    pub enrolled_chats: Seq<Seq<char>>,
}

impl View for User {
    type V = UserView;

    open spec fn view(&self) -> UserView {
        UserView {
            email: self.email@,
            handle: self.handle@,
            password: self.password@,
            age: self.age as int,
            country: self.country@,
            preferences: self.preferences@,
            suspended: self.suspended,
            age_verified: self.age_verified,
            user_id: self.user_id@,
            phone_number: self.phone_number@,
            joined: self.joined,
            description: self.description@,
            last_agent: self.last_agent@,
            last_approx_country: self.last_approx_country@,
            avatar_url: self.avatar_url@,
            email_verified: self.email_verified,
            last_login: self.last_login,
            failed_login_attempts: self.failed_login_attempts as int,
            locked_until: self.locked_until,
            timezone: self.timezone@,
            enrolled_chats: texts(self.enrolled_chats@),
        }
    }
}

impl User {
    /// A copy with the same value.
    pub fn duplicate(&self) -> (r: User)
        ensures
            r@ == self@,
    {
        User {
            email: self.email.clone(),
            handle: self.handle.clone(),
            password: self.password.clone(),
            age: self.age,
            country: self.country.clone(),
            preferences: self.preferences.clone(),
            suspended: self.suspended,
            age_verified: self.age_verified,
            user_id: self.user_id.clone(),
            phone_number: self.phone_number.clone(),
            joined: self.joined,
            description: self.description.clone(),
            last_agent: self.last_agent.clone(),
            last_approx_country: self.last_approx_country.clone(),
            avatar_url: self.avatar_url.clone(),
            email_verified: self.email_verified,
            last_login: self.last_login,
            failed_login_attempts: self.failed_login_attempts,
            locked_until: self.locked_until,
            timezone: self.timezone.clone(),
            enrolled_chats: clone_strings(&self.enrolled_chats),
        }
    }

    /// Whether the user belongs to the room `id`.
    pub open spec fn enrolled_in(&self, id: Seq<char>) -> bool {
        self@.enrolled_chats.contains(id)
    }
}

/// The body of a registration request.
pub struct RegisterBody {
    pub email: String,
    pub handle: String,
    pub age: u8,
    pub password: String,
}

/// The body of an authentication request.
pub struct AuthenticateBody {
    pub email: String,
    pub password: String,
    pub redirect: String,
}


/// A query about a user.
pub enum UserQuery {
    GetByEmail(String),
    GetByHandle(String),
    GetByID(String),
    PutToDB(User),
    /// Store the avatar of the user; the text is the image.
    UploadAvatar(User, String),
    GetAvatar(User),
    UpdateRemote(User),
}

/// How a description is written into a record: compressed, then in base64
/// under [`ID_ALPHABET`].
pub open spec fn stored_description(description: Seq<char>) -> Option<Seq<char>> {
    match packed(description) {
        Some(blob) => encoded(ID_ALPHABET@, blob),
        None => None,
    }
}

/// How a flag is written into a record.
pub open spec fn flag_text(b: bool) -> Seq<char> {
    decimal_text(if b { 1int } else { 0int })
}

/// The 21 fields of a record as the statement's parameters, or `None` where
/// the description or one of the three times cannot be written down.
pub open spec fn record_params(u: UserView) -> Option<Seq<Seq<char>>> {
    match (
        stored_description(u.description),
        written(u.joined),
        written(u.last_login),
        written(u.locked_until),
    ) {
        (Some(description), Some(joined_at), Some(last_login), Some(locked_until)) => Some(
            seq![
                u.email,
                u.handle,
                u.password,
                decimal_text(u.age),
                u.country,
                u.preferences,
                flag_text(u.suspended),
                flag_text(u.age_verified),
                u.user_id,
                u.phone_number,
                joined_at,
                description,
                u.last_agent,
                u.last_approx_country,
                u.avatar_url,
                flag_text(u.email_verified),
                last_login,
                decimal_text(u.failed_login_attempts),
                locked_until,
                u.timezone,
                joined(u.enrolled_chats, ","@),
            ],
        ),
        _ => None,
    }
}

/// The statement that selects the user whose `column` has a given value.
pub open spec fn select_by(column: Seq<char>) -> Seq<char> {
    "SELECT * FROM users WHERE "@ + column + " = ?"@
}

pub open spec fn insert_statement() -> Seq<char> {
    "INSERT INTO users VALUES (?, ?, ?, ?, ?, ?, ?, ?, ?, ?, ?, ?, ?, ?, ?, ?, ?, ?, ?, ?, ?)"@
}

pub open spec fn update_statement() -> Seq<char> {
    "UPDATE users\nSET email = ?, handle = ?, password = ?, age = ?, country = ?, preferences = ?, suspended = ?, age_verified = ?, userid = ?, phone_number = ?, joined = ?, description = ?, last_agent = ?, last_approx_country = ?, avatar_url = ?, email_verified = ?, last_login = ?, failed_login_attempts = ?, locked_until = ?, timezone = ?, enrolled_chats = ?\nWHERE userid = ?;"@
}

fn flag(b: bool) -> (s: String)
    ensures
        s@ == flag_text(b),
{
    if b {
        decimal(1)
    } else {
        decimal(0)
    }
}

fn store_description(description: &str) -> (r: Option<String>)
    ensures
        crate::codec::text_of(r) == stored_description(description@),
{
    match pack_text(description) {
        Some(blob) => encode_bytes(ID_ALPHABET, &blob),
        None => None,
    }
}

fn select(column: &str, value: &String) -> (r: (String, Vec<String>))
    ensures
        r.0@ == select_by(column@),
        texts(r.1@) == seq![value@],
{
    let mut sql = String::from_str("SELECT * FROM users WHERE ");
    sql.append(column);
    sql.append(" = ?");
    let mut params: Vec<String> = Vec::new();
    params.push(value.clone());
    assert(texts(params@) =~= seq![value@]);
    (sql, params)
}

impl User {
    /// Computes [`record_params`].
    pub fn params(&self) -> (r: Option<Vec<String>>)
        ensures
            match r {
                Some(p) => record_params(self@) == Some(texts(p@)),
                None => record_params(self@) is None,
            },
    {
        let description = match store_description(self.description.as_str()) {
            Some(d) => d,
            None => { return None; },
        };
        let joined_at = match rfc3339_of(self.joined) {
            Some(t) => t,
            None => { return None; },
        };
        let last_login = match rfc3339_of(self.last_login) {
            Some(t) => t,
            None => { return None; },
        };
        let locked_until = match rfc3339_of(self.locked_until) {
            Some(t) => t,
            None => { return None; },
        };
        let mut p: Vec<String> = Vec::new();
        p.push(self.email.clone());
        p.push(self.handle.clone());
        p.push(self.password.clone());
        p.push(decimal(self.age as i64));
        p.push(self.country.clone());
        p.push(self.preferences.clone());
        p.push(flag(self.suspended));
        p.push(flag(self.age_verified));
        p.push(self.user_id.clone());
        p.push(self.phone_number.clone());
        p.push(joined_at);
        p.push(description);
        p.push(self.last_agent.clone());
        p.push(self.last_approx_country.clone());
        p.push(self.avatar_url.clone());
        p.push(flag(self.email_verified));
        p.push(last_login);
        p.push(decimal(self.failed_login_attempts as i64));
        p.push(locked_until);
        p.push(self.timezone.clone());
        p.push(join(&self.enrolled_chats, ","));
        proof {
            let want = record_params(self@).unwrap();
            assert(texts(p@) =~= want);
        }
        Some(p)
    }
}

impl UserQuery {
    /// Whether the query is one for the relational store.
    pub fn for_database(&self) -> (r: bool)
        ensures
            r == self.is_statement(),
    {
        match self {
            UserQuery::UploadAvatar(_, _) => false,
            UserQuery::GetAvatar(_) => false,
            _ => true,
        }
    }

    /// Whether the query is one for the object store.
    pub fn for_object_store(&self) -> (r: bool)
        ensures
            r == self.is_object_query(),
    {
        match self {
            UserQuery::UploadAvatar(_, _) => true,
            UserQuery::GetAvatar(_) => true,
            _ => false,
        }
    }
}

impl Query for UserQuery {
    open spec fn expects_result(&self) -> bool {
        self is GetByEmail || self is GetByHandle || self is GetByID || self is GetAvatar
    }

    fn has_result(&self) -> (r: bool) {
        match self {
            UserQuery::GetByEmail(_) | UserQuery::GetByHandle(_) | UserQuery::GetByID(_) => true,
            UserQuery::GetAvatar(_) => true,
            _ => false,
        }
    }
}

impl DBQuery for UserQuery {
    open spec fn is_statement(&self) -> bool {
        !(self is UploadAvatar) && !(self is GetAvatar)
    }

    open spec fn statement(&self) -> Option<(Seq<char>, Seq<Seq<char>>)> {
        match self {
            UserQuery::GetByEmail(email) => Some((select_by("email"@), seq![email@])),
            UserQuery::GetByHandle(handle) => Some((select_by("handle"@), seq![handle@])),
            UserQuery::GetByID(id) => Some((select_by("userid"@), seq![id@])),
            UserQuery::PutToDB(user) => match record_params(user@) {
                Some(p) => Some((insert_statement(), p)),
                None => None,
            },
            UserQuery::UpdateRemote(user) => match record_params(user@) {
                Some(p) => Some((update_statement(), p.push(user@.user_id))),
                None => None,
            },
            _ => None,
        }
    }

    fn to_sql_query_string(&self) -> (r: Option<(String, Vec<String>)>) {
        match self {
            UserQuery::GetByEmail(email) => Some(select("email", email)),
            UserQuery::GetByHandle(handle) => Some(select("handle", handle)),
            UserQuery::GetByID(id) => Some(select("userid", id)),
            UserQuery::PutToDB(user) => match user.params() {
                Some(p) => Some(
                    (
                        String::from_str(
                            "INSERT INTO users VALUES (?, ?, ?, ?, ?, ?, ?, ?, ?, ?, ?, ?, ?, ?, ?, ?, ?, ?, ?, ?, ?)",
                        ),
                        p,
                    ),
                ),
                None => None,
            },
            UserQuery::UpdateRemote(user) => match user.params() {
                Some(p) => {
                    let mut p = p;
                    let ghost before = texts(p@);
                    p.push(user.user_id.clone());
                    assert(texts(p@) =~= before.push(user@.user_id));
                    Some(
                        (
                            String::from_str(
                                "UPDATE users\nSET email = ?, handle = ?, password = ?, age = ?, country = ?, preferences = ?, suspended = ?, age_verified = ?, userid = ?, phone_number = ?, joined = ?, description = ?, last_agent = ?, last_approx_country = ?, avatar_url = ?, email_verified = ?, last_login = ?, failed_login_attempts = ?, locked_until = ?, timezone = ?, enrolled_chats = ?\nWHERE userid = ?;",
                            ),
                            p,
                        ),
                    )
                },
                None => None,
            },
            _ => None,
        }
    }
}

/// The object-store key of a user's avatar.
pub open spec fn avatar_key(avatar_url: Seq<char>) -> Seq<char> {
    "/"@ + avatar_url
}

impl R2Query for UserQuery {
    open spec fn is_object_query(&self) -> bool {
        self is UploadAvatar || self is GetAvatar
    }

    open spec fn object_path(&self) -> Seq<char> {
        match self {
            UserQuery::UploadAvatar(user, _) => avatar_key(user@.avatar_url),
            UserQuery::GetAvatar(user) => avatar_key(user@.avatar_url),
            _ => Seq::empty(),
        }
    }

    open spec fn object_kind(&self) -> Option<KindView> {
        match self {
            UserQuery::UploadAvatar(_, image) => match packed(image@) {
                Some(blob) => Some(KindView::PutObject(blob)),
                None => None,
            },
            UserQuery::GetAvatar(_) => Some(KindView::GetObject),
            _ => None,
        }
    }

    fn path(&self) -> (p: String) {
        match self {
            UserQuery::UploadAvatar(user, _) | UserQuery::GetAvatar(user) => {
                let mut p = String::from_str("/");
                p.append(user.avatar_url.as_str());
                p
            },
            _ => String::new(),
        }
    }

    fn kind(&self) -> (k: Option<R2QueryKind>) {
        match self {
            UserQuery::UploadAvatar(_, image) => match pack_text(image.as_str()) {
                Some(blob) => Some(R2QueryKind::PutObject(blob)),
                None => None,
            },
            UserQuery::GetAvatar(_) => Some(R2QueryKind::GetObject),
            _ => None,
        }
    }
}

} // verus!
