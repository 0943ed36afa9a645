//! The decisions of the request handlers: what a request is answered with,
//! and what is asked of the stores on the way.

use crate::api::{described, ApiError};
use crate::chat::{Chat, CreateChatBody, Message};
use crate::codec::text_of;
use crate::data::QueryError;
use crate::session::{
    after_lookup, lookup, Binding, ServerState, SessionLookup, SESSION_COOKIE_MAX_AGE_SECS,
};
use crate::text::{
    bare_handle, clean_text, contains_string, escaped, drop_prefix, replace, replaced, strip_at, texts, trim, trimmed,
    without_prefix,
};
use crate::time::Moment;
use crate::user::{AuthenticateBody, RegisterBody, User, UserQuery, UserView};
use crate::validate::{
    is_valid_email, is_valid_handle, is_valid_password, is_valid_redirect, matches_pattern,
    EMAIL_PATTERN, HANDLE_PATTERN, PASSWORD_PATTERN, REDIRECT_PATTERN,
};
use vstd::prelude::*;
use vstd::utf8::encode_utf8;

verus! {

/// The form that the body of a registration has to have.
pub const REGISTER_SCHEMA: &'static str =
    "{\n    \"email\": \"string\",\n    \"handle\": \"string\",\n    \"age\": \"u8\",\n    \"password\": \"string\"\n}";

/// The form that the body of an authentication has to have.
pub const AUTHENTICATE_SCHEMA: &'static str =
    "{\n    \"email\": \"string\",\n    \"password\": \"string\",\n    \"redirect\": \"url\",\n}";

/// The form that the body of a room creation has to have.
pub const CREATE_CHAT_SCHEMA: &'static str =
    "{\n    \"participants\": \"string[]\",\n    \"name\": \"string\",\n}";

/// The details of the answer to a body that is not of the form `schema`.
pub open spec fn schema_details(schema: Seq<char>, body: Seq<char>) -> Seq<char> {
    trimmed("\nExpected JSON to match schema:\n"@ + schema + "\n\nGot JSON:\n"@ + body + "\n"@)
}

/// The answer to a body that is not of the form `schema`.
pub fn schema_error(schema: &str, body: &str) -> (e: ApiError)
    ensures
        e matches ApiError::InvalidSchema(text) && text@ == schema_details(schema@, body@),
{
    let mut text = String::from_str("\nExpected JSON to match schema:\n");
    text.append(schema);
    text.append("\n\nGot JSON:\n");
    text.append(body);
    text.append("\n");
    ApiError::InvalidSchema(trim(text.as_str()))
}

/// The session id that the text of a session cookie carries: what follows
/// the five characters of `SSID=`, without encoded quotes and with encoded
/// slashes decoded. `None` where the text is shorter than that.
pub open spec fn cookie_session_id(cookie: Seq<char>) -> Option<Seq<char>> {
    match without_prefix(cookie, 5) {
        Some(value) => Some(replaced(replaced(value, "%22"@, ""@), "%2F"@, "/"@)),
        None => None,
    }
}

/// Computes [`cookie_session_id`].
pub fn session_id_of_cookie(cookie: &str) -> (r: Option<String>)
    ensures
        text_of(r) == cookie_session_id(cookie@),
{
    match drop_prefix(cookie, 5) {
        Some(value) => {
            proof {
                reveal_strlit("%22");
                reveal_strlit("%2F");
            }
            let unquoted = replace(value.as_str(), "%22", "");
            Some(replace(unquoted.as_str(), "%2F", "/"))
        },
        None => None,
    }
}

/// The user of the session that `sid` names at the time `now`, if the
/// session is open. A session that has run out is removed on the way.
pub fn session_user(state: &mut ServerState, sid: &str, now: i64) -> (r: Option<User>)
    requires
        old(state).wf(),
    ensures
        final(state).wf(),
        final(state)@ == after_lookup(old(state)@, sid@, now as int),
        match r {
            Some(user) => lookup(old(state)@, sid@, now as int) is Active && user@ == old(
                state,
            )@[sid@].user,
            None => !(lookup(old(state)@, sid@, now as int) is Active),
        },
{
    match state.get(sid, now) {
        SessionLookup::Active { user, started } => Some(user),
        SessionLookup::Expired => None,
        SessionLookup::NotFound => None,
    }
}

/// The visitor that the session cookie `cookie` stands for at the time
/// `now`, if the cookie names an open session.
pub open spec fn visitor(
    table: Map<Seq<char>, Binding>,
    cookie: Option<&str>,
    now: int,
) -> Option<UserView> {
    match cookie {
        Some(text) => match cookie_session_id(text@) {
            Some(sid) => if lookup(table, sid, now) is Active {
                Some(table[sid].user)
            } else {
                None
            },
            None => None,
        },
        None => None,
    }
}

/// The table of sessions after the session cookie `cookie` was looked up
/// at the time `now`.
pub open spec fn after_visit(
    table: Map<Seq<char>, Binding>,
    cookie: Option<&str>,
    now: int,
) -> Map<Seq<char>, Binding> {
    match cookie {
        Some(text) => match cookie_session_id(text@) {
            Some(sid) => after_lookup(table, sid, now),
            None => table,
        },
        None => table,
    }
}

/// The user that a request with the session cookie `cookie` is made for at
/// the time `now`. `None` means that the request is to be sent to the login
/// page: there is no cookie, it is too short, or its session is not open.
pub fn signed_in(state: &mut ServerState, cookie: Option<&str>, now: i64) -> (r: Option<User>)
    requires
        old(state).wf(),
    ensures
        final(state).wf(),
        final(state)@ == after_visit(old(state)@, cookie, now as int),
        match r {
            Some(user) => visitor(old(state)@, cookie, now as int) == Some(user@),
            None => visitor(old(state)@, cookie, now as int) is None,
        },
{
    match cookie {
        Some(text) => match session_id_of_cookie(text) {
            Some(sid) => session_user(state, sid.as_str(), now),
            None => None,
        },
        None => None,
    }
}

/// The cookie that carries a session id to the client.
pub struct SessionCookie {
    pub name: String,
    pub value: String,
    pub max_age_secs: u64,
    pub http_only: bool,
    pub same_site_strict: bool,
}

/// Opens the session `sid` for `user` at the time `now` and makes the cookie
/// for it: named `SSID`, good for thirty minutes, hidden from scripts and
/// bound to this site.
pub fn start_session(state: &mut ServerState, sid: String, user: User, now: i64) -> (cookie:
    SessionCookie)
    requires
        old(state).wf(),
    ensures
        final(state).wf(),
        final(state)@ == old(state)@.insert(sid@, Binding { user: user@, started: now as int }),
        cookie.name@ == "SSID"@,
        cookie.value@ == sid@,
        cookie.max_age_secs == SESSION_COOKIE_MAX_AGE_SECS,
        cookie.http_only,
        cookie.same_site_strict,
{
    let value = sid.clone();
    state.open(sid, user, now);
    SessionCookie {
        name: "SSID".to_owned(),
        value,
        max_age_secs: SESSION_COOKIE_MAX_AGE_SECS,
        http_only: true,
        same_site_strict: true,
    }
}

/// The record of a user who registers with `body` at the time `now` under
/// the id `user_id`.
pub open spec fn registered(body: RegisterBody, user_id: Seq<char>, now: Moment) -> UserView {
    UserView {
        email: body.email@,
        handle: body.handle@,
        password: body.password@,
        age: body.age as int,
        country: "NULL"@,
        preferences: "{}"@,
        suspended: false,
        age_verified: false,
        user_id,
        phone_number: ""@,
        joined: now,
        description: ""@,
        last_agent: ""@,
        last_approx_country: ""@,
        avatar_url: user_id + ".svg.br"@,
        email_verified: false,
        last_login: now,
        failed_login_attempts: 0,
        locked_until: Moment { seconds: 0, nanos: 0 },
        timezone: "NULL"@,
        enrolled_chats: Seq::empty(),
    }
}

/// Computes [`registered`].
pub fn new_user(body: RegisterBody, user_id: String, now: Moment) -> (user: User)
    ensures
        user@ == registered(body, user_id@, now),
{
    let mut avatar_url = user_id.clone();
    avatar_url.append(".svg.br");
    let user = User {
        email: body.email,
        handle: body.handle,
        password: body.password,
        age: body.age as i32,
        country: "NULL".to_owned(),
        preferences: "{}".to_owned(),
        suspended: false,
        age_verified: false,
        user_id,
        phone_number: "".to_owned(),
        joined: now,
        description: "".to_owned(),
        last_agent: "".to_owned(),
        last_approx_country: "".to_owned(),
        avatar_url,
        email_verified: false,
        last_login: now,
        failed_login_attempts: 0,
        locked_until: Moment { seconds: 0, nanos: 0 },
        timezone: "NULL".to_owned(),
        enrolled_chats: Vec::new(),
    };
    assert(user@.enrolled_chats =~= Seq::empty());
    user
}

/// What is wrong with the fields of a registration, the first of address,
/// handle and password hash that does not match its pattern.
pub open spec fn registration_fault(u: UserView) -> Option<ApiError> {
    if !matches_pattern(EMAIL_PATTERN@, u.email) {
        Some(ApiError::InvalidEmail)
    } else if !matches_pattern(HANDLE_PATTERN@, u.handle) {
        Some(ApiError::InvalidHandle)
    } else if !matches_pattern(PASSWORD_PATTERN@, u.password) {
        Some(ApiError::InvalidPassword)
    } else {
        None
    }
}

/// Checks the fields of a registration: see [`registration_fault`].
pub fn check_registration(user: &User) -> (r: Result<(), ApiError>)
    ensures
        match r {
            Ok(()) => registration_fault(user@) is None,
            Err(e) => registration_fault(user@) == Some(e),
        },
{
    if !is_valid_email(user.email.as_str()) {
        Err(ApiError::InvalidEmail)
    } else if !is_valid_handle(user.handle.as_str()) {
        Err(ApiError::InvalidHandle)
    } else if !is_valid_password(user.password.as_str()) {
        Err(ApiError::InvalidPassword)
    } else {
        Ok(())
    }
}

/// Whether `r` is the verdict on a lookup that has to find nobody: a found
/// record means `taken`, a store that cannot be asked is a failure of its
/// own.
pub open spec fn is_free_verdict(
    r: Result<(), ApiError>,
    found: Result<Option<User>, QueryError>,
    taken: ApiError,
) -> bool {
    match found {
        Ok(_) => r == Err::<(), ApiError>(taken),
        Err(QueryError::NotFound) => r is Ok,
        Err(e) => r matches Err(ApiError::Database(why)) && why@ == described(e@),
    }
}

fn must_be_free(found: &Result<Option<User>, QueryError>, taken: ApiError) -> (r: Result<
    (),
    ApiError,
>)
    ensures
        is_free_verdict(r, *found, taken),
{
    match found {
        Ok(_) => Err(taken),
        Err(QueryError::NotFound) => Ok(()),
        Err(e) => Err(ApiError::Database(e.describe())),
    }
}

/// The verdict on the lookup of a new user's address.
pub fn email_is_free(found: &Result<Option<User>, QueryError>) -> (r: Result<(), ApiError>)
    ensures
        is_free_verdict(r, *found, ApiError::EmailTaken),
{
    must_be_free(found, ApiError::EmailTaken)
}

/// The verdict on the lookup of a new user's handle.
pub fn handle_is_free(found: &Result<Option<User>, QueryError>) -> (r: Result<(), ApiError>)
    ensures
        is_free_verdict(r, *found, ApiError::HandleTaken),
{
    must_be_free(found, ApiError::HandleTaken)
}

/// What is wrong with the fields of an authentication, the first of
/// redirect target, address and password hash that does not match its
/// pattern.
pub open spec fn authentication_fault(body: AuthenticateBody) -> Option<ApiError> {
    if !matches_pattern(REDIRECT_PATTERN@, body.redirect@) {
        Some(ApiError::InvalidRedirect)
    } else if !matches_pattern(EMAIL_PATTERN@, body.email@) {
        Some(ApiError::InvalidEmail)
    } else if !matches_pattern(PASSWORD_PATTERN@, body.password@) {
        Some(ApiError::InvalidPassword)
    } else {
        None
    }
}

/// Checks the fields of an authentication: see [`authentication_fault`].
pub fn check_authentication(body: &AuthenticateBody) -> (r: Result<(), ApiError>)
    ensures
        match r {
            Ok(()) => authentication_fault(*body) is None,
            Err(e) => authentication_fault(*body) == Some(e),
        },
{
    if !is_valid_redirect(body.redirect.as_str()) {
        Err(ApiError::InvalidRedirect)
    } else if !is_valid_email(body.email.as_str()) {
        Err(ApiError::InvalidEmail)
    } else if !is_valid_password(body.password.as_str()) {
        Err(ApiError::InvalidPassword)
    } else {
        Ok(())
    }
}

/// Whether the client that sends the session cookie `cookie` is signed in
/// already at the time `now`.
pub fn already_signed_in(state: &mut ServerState, cookie: Option<&str>, now: i64) -> (r: bool)
    requires
        old(state).wf(),
    ensures
        final(state).wf(),
        final(state)@ == after_visit(old(state)@, cookie, now as int),
        r == (visitor(old(state)@, cookie, now as int) is Some),
{
    match signed_in(state, cookie, now) {
        Some(_) => true,
        None => false,
    }
}

/// Whether `r` is the verdict on a lookup that has to find somebody: no
/// record means `missing`, a store that cannot be asked is a failure of its
/// own.
pub open spec fn is_found_verdict(
    r: Result<User, ApiError>,
    found: Result<Option<User>, QueryError>,
    missing: ApiError,
) -> bool {
    match found {
        Ok(Some(user)) => r matches Ok(u) && u@ == user@,
        Ok(None) => r == Err::<User, ApiError>(missing),
        Err(QueryError::NotFound) => r == Err::<User, ApiError>(missing),
        Err(e) => r matches Err(ApiError::Database(why)) && why@ == described(e@),
    }
}

fn must_be_found(found: Result<Option<User>, QueryError>, missing: ApiError) -> (r: Result<
    User,
    ApiError,
>)
    ensures
        is_found_verdict(r, found, missing),
{
    match found {
        Ok(Some(user)) => Ok(user),
        Ok(None) => Err(missing),
        Err(QueryError::NotFound) => Err(missing),
        Err(e) => Err(ApiError::Database(e.describe())),
    }
}

/// The lookup of the user whose page is asked for under `handle`: by the
/// handle without an `@` in front.
pub fn page_lookup(handle: &str) -> (q: UserQuery)
    ensures
        q matches UserQuery::GetByHandle(h) && h@ == bare_handle(handle@),
{
    UserQuery::GetByHandle(strip_at(handle))
}

/// The verdict on the lookup of the user whose page is asked for.
pub fn user_of_page(found: Result<Option<User>, QueryError>) -> (r: Result<User, ApiError>)
    ensures
        is_found_verdict(r, found, ApiError::NoSuchHandle),
{
    must_be_found(found, ApiError::NoSuchHandle)
}

/// The verdict on an authentication, given what the lookup of the address
/// found: the user, where there is one and the password hash is the stored
/// one.
pub fn authenticated(found: Result<Option<User>, QueryError>, password: &String) -> (r: Result<
    User,
    ApiError,
>)
    ensures
        match found {
            Ok(Some(user)) => if user@.password == password@ {
                r matches Ok(u) && u@ == user@
            } else {
                r matches Err(ApiError::WrongPassword)
            },
            _ => is_found_verdict(r, found, ApiError::NoSuchEmail),
        },
{
    match must_be_found(found, ApiError::NoSuchEmail) {
        Ok(user) => {
            if user.password != *password {
                Err(ApiError::WrongPassword)
            } else {
                Ok(user)
            }
        },
        Err(e) => Err(e),
    }
}

/// Whether `user` may see the room `chat_id`: only a member may.
pub fn check_member(user: &User, chat_id: &str) -> (r: Result<(), ApiError>)
    ensures
        match r {
            Ok(()) => user.enrolled_in(chat_id@),
            Err(e) => !user.enrolled_in(chat_id@) && e matches ApiError::NotInChat,
        },
{
    if contains_string(&user.enrolled_chats, chat_id) {
        Ok(())
    } else {
        Err(ApiError::NotInChat)
    }
}

/// One message as a page shows it.
pub struct MessageLine {
    pub is_sender: bool,
    pub author: String,
    pub content: String,
}

/// The message `m` as the page of `viewer` shows it: its text on display,
/// and whether the viewer wrote it.
pub fn message_line(m: &Message, viewer: &User) -> (line: MessageLine)
    requires
        m.wf(),
    ensures
        line.is_sender == (m@.author == viewer@.user_id),
        line.author@ == m@.author,
        line.content@ == m@.content[0],
{
    MessageLine {
        is_sender: m.author == viewer.user_id,
        author: m.author.clone(),
        content: m.current_text().clone(),
    }
}

/// The texts on display of the messages of a room, newest first.
pub open spec fn display_texts(ms: Seq<crate::chat::MessageView>) -> Seq<Seq<char>> {
    Seq::new(ms.len(), |i: int| ms[i].content[0])
}

/// Computes [`display_texts`] for the messages of `chat`.
pub fn chat_texts(chat: &Chat) -> (r: Vec<String>)
    requires
        chat.wf(),
    ensures
        texts(r@) == display_texts(chat@.messages),
{
    let ms = chat.messages();
    let mut r: Vec<String> = Vec::new();
    let mut i: usize = 0;
    while i < ms.len()
        invariant
            i <= ms.len(),
            crate::chat::message_views(ms@) == chat@.messages,
            chat@.wf(),
            r@.len() == i,
            forall|j: int| 0 <= j < i ==> r@[j]@ == chat@.messages[j].content[0],
        decreases ms.len() - i,
    {
        proof {
            assert(crate::chat::message_views(ms@)[i as int] == ms@[i as int]@);
            assert(chat@.messages[i as int].wf());
        }
        r.push(ms[i].current_text().clone());
        i += 1;
    }
    assert(texts(r@) =~= display_texts(chat@.messages));
    r
}

/// The longest name a room may have, in bytes.
pub const MAX_CHAT_NAME_BYTES: usize = 20;

/// The number of bytes of `text` in UTF-8, as `len` of std counts them.
pub open spec fn byte_len(text: Seq<char>) -> usize {
    encode_utf8(text).len() as usize
}

/// Whether a room may be called `name`: the name has at most twenty bytes.
pub fn check_chat_name(name: &str) -> (r: Result<(), ApiError>)
    ensures
        match r {
            Ok(()) => byte_len(name@) <= MAX_CHAT_NAME_BYTES,
            Err(e) => byte_len(name@) > MAX_CHAT_NAME_BYTES
                && e matches ApiError::ChatNameTooLong,
        },
{
    if name.len() > MAX_CHAT_NAME_BYTES {
        Err(ApiError::ChatNameTooLong)
    } else {
        Ok(())
    }
}

/// The handle under which a participant named in a request is looked up:
/// the name made safe for a page, without an `@` in front.
pub open spec fn participant_handle(named: Seq<char>) -> Seq<char> {
    bare_handle(escaped(named))
}

/// Whether `queries` are the lookups of the participants `named`, one for
/// each and in their order.
pub open spec fn are_lookups(queries: Seq<UserQuery>, named: Seq<String>) -> bool {
    &&& queries.len() == named.len()
    &&& forall|i: int|
        0 <= i < named.len() ==> (#[trigger] queries[i] matches UserQuery::GetByHandle(h) && h@
            == participant_handle(named[i]@))
}

/// What the creation of a room starts with: the name under which the room is
/// kept, made safe for a page, and the lookups of its participants. A name
/// of more than twenty bytes is refused.
pub fn creation_plan(body: &CreateChatBody) -> (r: Result<(String, Vec<UserQuery>), ApiError>)
    ensures
        match r {
            Ok((name, queries)) => byte_len(body.name@) <= MAX_CHAT_NAME_BYTES && name@
                == escaped(body.name@) && are_lookups(queries@, body.participants@),
            Err(e) => byte_len(body.name@) > MAX_CHAT_NAME_BYTES
                && e matches ApiError::ChatNameTooLong,
        },
{
    match check_chat_name(body.name.as_str()) {
        Err(e) => { return Err(e); },
        Ok(()) => {},
    }
    let name = clean_text(body.name.as_str());
    let mut queries: Vec<UserQuery> = Vec::new();
    let mut i: usize = 0;
    while i < body.participants.len()
        invariant
            i <= body.participants.len(),
            are_lookups(queries@, body.participants@.take(i as int)),
        decreases body.participants.len() - i,
    {
        let cleaned = clean_text(body.participants[i].as_str());
        let handle = strip_at(cleaned.as_str());
        queries.push(UserQuery::GetByHandle(handle));
        i += 1;
    }
    assert(body.participants@.take(body.participants.len() as int) =~= body.participants@);
    Ok((name, queries))
}

} // verus!
