//! The requests that are served in several steps, with a question to a store
//! between one step and the next. Each step hands out the value that the
//! next step starts from, so the steps can only be taken in their order.

use crate::api::{described, is_load_answer, store_failure, ApiError};
use crate::chat::{
    enrolled, is_put_of, make_snapshot_key, message_views, snapshot_key, Bucket, Chat, ChatEffect,
    ChatView,
    CreateChatBody, LoadError, MessageView, StoreError,
};
use crate::data::QueryError;
use crate::routes::{
    already_signed_in, are_lookups, authenticated, authentication_fault, byte_len,
    chat_texts, check_authentication, check_member, check_registration,
    creation_plan, display_texts, email_is_free, handle_is_free,
    is_found_verdict, is_free_verdict, message_line, new_user, registered, registration_fault,
    signed_in, start_session, visitor, after_visit, MessageLine, SessionCookie,
    MAX_CHAT_NAME_BYTES,
};
use crate::session::{Binding, ServerState, SESSION_COOKIE_MAX_AGE_SECS};
use crate::text::{escaped, texts};
use crate::time::Moment;
use crate::user::{AuthenticateBody, RegisterBody, User, UserQuery, UserView};
use vstd::prelude::*;

verus! {

/// A registration whose fields are in order: the address is to be looked up.
pub struct EmailCheck {
    user: User,
}

/// A registration whose address is free: the handle is to be looked up.
pub struct HandleCheck {
    user: User,
}

/// A registration that was accepted: the avatar is to be stored.
pub struct Enrolment {
    user: User,
    avatar: String,
}

/// The answer to a registration that went through.
pub struct Welcome {
    pub cookie: SessionCookie,
    pub id: String,
    pub avatar: String,
}

/// Whether `cookie` is the cookie of the session `sid`: named `SSID`, good
/// for thirty minutes, hidden from scripts and bound to this site.
pub open spec fn is_session_cookie(cookie: SessionCookie, sid: Seq<char>) -> bool {
    &&& cookie.name@ == "SSID"@
    &&& cookie.value@ == sid
    &&& cookie.max_age_secs == SESSION_COOKIE_MAX_AGE_SECS
    &&& cookie.http_only
    &&& cookie.same_site_strict
}

/// Starts a registration: makes the record of the new user and checks
/// address, handle and password hash, in this order.
pub fn register(body: RegisterBody, user_id: String, now: Moment) -> (r: Result<
    EmailCheck,
    ApiError,
>)
    ensures
        match r {
            Ok(step) => registration_fault(registered(body, user_id@, now)) is None
                && step.user() == registered(body, user_id@, now),
            Err(e) => registration_fault(registered(body, user_id@, now)) == Some(e),
        },
{
    let user = new_user(body, user_id, now);
    match check_registration(&user) {
        Ok(()) => Ok(EmailCheck { user }),
        Err(e) => Err(e),
    }
}

impl EmailCheck {
    /// The user who registers.
    pub closed spec fn user(&self) -> UserView {
        self.user@
    }

    /// The question to the relational store: is there a user with this
    /// address?
    pub fn query(&self) -> (q: UserQuery)
        ensures
            q matches UserQuery::GetByEmail(email) && email@ == self.user().email,
    {
        UserQuery::GetByEmail(self.user.email.clone())
    }

    /// The step after the store has answered: the registration goes on
    /// exactly when nobody has the address.
    pub fn answered(self, found: &Result<Option<User>, QueryError>) -> (r: Result<
        HandleCheck,
        ApiError,
    >)
        ensures
            match r {
                Ok(next) => next.user() == self.user() && is_free_verdict(
                    Ok(()),
                    *found,
                    ApiError::EmailTaken,
                ),
                Err(e) => is_free_verdict(Err(e), *found, ApiError::EmailTaken),
            },
    {
        match email_is_free(found) {
            Ok(()) => Ok(HandleCheck { user: self.user }),
            Err(e) => Err(e),
        }
    }
}

impl HandleCheck {
    /// The user who registers.
    pub closed spec fn user(&self) -> UserView {
        self.user@
    }

    /// The question to the relational store: is there a user with this
    /// handle?
    pub fn query(&self) -> (q: UserQuery)
        ensures
            q matches UserQuery::GetByHandle(handle) && handle@ == self.user().handle,
    {
        UserQuery::GetByHandle(self.user.handle.clone())
    }

    /// The step after the store has answered: the registration is accepted
    /// exactly when nobody has the handle, and the user gets `avatar`.
    pub fn answered(self, found: &Result<Option<User>, QueryError>, avatar: String) -> (r: Result<
        Enrolment,
        ApiError,
    >)
        ensures
            match r {
                Ok(next) => next.user() == self.user() && next.avatar() == avatar@
                    && is_free_verdict(Ok(()), *found, ApiError::HandleTaken),
                Err(e) => is_free_verdict(Err(e), *found, ApiError::HandleTaken),
            },
    {
        match handle_is_free(found) {
            Ok(()) => Ok(Enrolment { user: self.user, avatar }),
            Err(e) => Err(e),
        }
    }
}

impl Enrolment {
    /// The user who registers.
    pub closed spec fn user(&self) -> UserView {
        self.user@
    }

    /// The avatar of the user, as an image.
    pub closed spec fn avatar(&self) -> Seq<char> {
        self.avatar@
    }

    /// The first thing to store: the avatar, in the object store.
    pub fn upload(&self) -> (q: UserQuery)
        ensures
            q matches UserQuery::UploadAvatar(user, image) && user@ == self.user() && image@
                == self.avatar(),
    {
        UserQuery::UploadAvatar(self.user.duplicate(), self.avatar.clone())
    }

    /// The step after the object store has answered: the registration goes
    /// on exactly when the avatar was written.
    pub fn uploaded(self, done: bool) -> (r: Result<Insertion, ApiError>)
        ensures
            match r {
                Ok(next) => done && next.user() == self.user() && next.avatar() == self.avatar(),
                Err(e) => !done && (e matches ApiError::Storage(why) && why@ == store_failure(
                    StoreError::StorageWrite,
                )),
            },
    {
        if done {
            Ok(Insertion { user: self.user, avatar: self.avatar })
        } else {
            Err(ApiError::Storage(StoreError::StorageWrite.describe()))
        }
    }
}

/// A registration whose avatar is stored: the record is to be stored.
pub struct Insertion {
    user: User,
    avatar: String,
}

/// A registration that is stored: the user is to be signed in.
pub struct Admission {
    user: User,
    avatar: String,
}

impl Insertion {
    /// The user who registers.
    pub closed spec fn user(&self) -> UserView {
        self.user@
    }

    /// The avatar of the user, as an image.
    pub closed spec fn avatar(&self) -> Seq<char> {
        self.avatar@
    }

    /// The second thing to store: the record, in the relational store.
    pub fn query(&self) -> (q: UserQuery)
        ensures
            q matches UserQuery::PutToDB(user) && user@ == self.user(),
    {
        UserQuery::PutToDB(self.user.duplicate())
    }

    /// The step after the relational store has answered: the registration
    /// goes on exactly when the store did not fail.
    pub fn answered(self, stored: &Result<Option<User>, QueryError>) -> (r: Result<
        Admission,
        ApiError,
    >)
        ensures
            match *stored {
                Ok(_) => r matches Ok(next) && next.user() == self.user() && next.avatar()
                    == self.avatar(),
                Err(e) => r matches Err(ApiError::Database(why)) && why@ == described(e@),
            },
    {
        match stored {
            Ok(_) => Ok(Admission { user: self.user, avatar: self.avatar }),
            Err(e) => Err(ApiError::Database(e.describe())),
        }
    }
}

impl Admission {
    /// The user who registers.
    pub closed spec fn user(&self) -> UserView {
        self.user@
    }

    /// The avatar of the user, as an image.
    pub closed spec fn avatar(&self) -> Seq<char> {
        self.avatar@
    }

    /// The last step, after both were stored: the user is signed in under
    /// the session id `sid` from the time `now`.
    pub fn finish(self, state: &mut ServerState, sid: String, now: i64) -> (w: Welcome)
        requires
            old(state).wf(),
        ensures
            final(state).wf(),
            final(state)@ == old(state)@.insert(
                sid@,
                Binding { user: self.user(), started: now as int },
            ),
            is_session_cookie(w.cookie, sid@),
            w.id@ == self.user().user_id,
            w.avatar@ == self.avatar(),
    {
        let id = self.user.user_id.clone();
        let cookie = start_session(state, sid, self.user, now);
        Welcome { cookie, id, avatar: self.avatar }
    }
}

/// An authentication whose fields are in order and whose client is not
/// signed in: the user is to be looked up by the address.
pub struct PasswordCheck {
    email: String,
    password: String,
}

/// An authentication that was accepted: the user is to be signed in.
pub struct SignIn {
    user: User,
}

/// How an authentication starts.
pub enum Entry {
    /// The request is refused.
    Rejected(ApiError),
    /// The client has an open session already: nothing is to be done.
    SignedIn,
    /// The user is to be looked up.
    Check(PasswordCheck),
}

/// Starts an authentication at the time `now`: checks redirect target,
/// address and password hash, in this order, and then whether the client
/// that sent the session cookie `cookie` has an open session already. A
/// session that has run out is removed on the way.
pub fn authenticate(
    body: AuthenticateBody,
    state: &mut ServerState,
    cookie: Option<&str>,
    now: i64,
) -> (r: Entry)
    requires
        old(state).wf(),
    ensures
        final(state).wf(),
        match authentication_fault(body) {
            Some(e) => r == Entry::Rejected(e) && final(state)@ == old(state)@,
            None => final(state)@ == after_visit(old(state)@, cookie, now as int) && (
            if visitor(old(state)@, cookie, now as int) is Some {
                r is SignedIn
            } else {
                is_check(r, body)
            }),
        },
{
    match check_authentication(&body) {
        Err(e) => { return Entry::Rejected(e); },
        Ok(()) => {},
    }
    if already_signed_in(state, cookie, now) {
        Entry::SignedIn
    } else {
        Entry::Check(PasswordCheck { email: body.email, password: body.password })
    }
}

/// Whether `r` is the lookup of the user of `body`.
pub open spec fn is_check(r: Entry, body: AuthenticateBody) -> bool {
    r matches Entry::Check(step) && step.email() == body.email@ && step.password()
        == body.password@
}

impl PasswordCheck {
    /// The address that was given.
    pub closed spec fn email(&self) -> Seq<char> {
        self.email@
    }

    /// The password hash that was given.
    pub closed spec fn password(&self) -> Seq<char> {
        self.password@
    }

    /// The question to the relational store: who has this address?
    pub fn query(&self) -> (q: UserQuery)
        ensures
            q matches UserQuery::GetByEmail(email) && email@ == self.email(),
    {
        UserQuery::GetByEmail(self.email.clone())
    }

    /// The step after the store has answered: the authentication is
    /// accepted exactly when a user was found whose stored password hash is
    /// the one that was given.
    pub fn answered(self, found: Result<Option<User>, QueryError>) -> (r: Result<SignIn, ApiError>)
        ensures
            match found {
                Ok(Some(user)) => if user@.password == self.password() {
                    r matches Ok(next) && next.user() == user@
                } else {
                    r matches Err(ApiError::WrongPassword)
                },
                _ => r matches Err(e) && is_found_verdict(Err(e), found, ApiError::NoSuchEmail),
            },
    {
        match authenticated(found, &self.password) {
            Ok(user) => Ok(SignIn { user }),
            Err(e) => Err(e),
        }
    }
}

impl SignIn {
    /// The user who is signed in.
    pub closed spec fn user(&self) -> UserView {
        self.user@
    }

    /// The last step: the user is signed in under the session id `sid` from
    /// the time `now`.
    pub fn finish(self, state: &mut ServerState, sid: String, now: i64) -> (cookie: SessionCookie)
        requires
            old(state).wf(),
        ensures
            final(state).wf(),
            final(state)@ == old(state)@.insert(
                sid@,
                Binding { user: self.user(), started: now as int },
            ),
            is_session_cookie(cookie, sid@),
    {
        start_session(state, sid, self.user, now)
    }
}

/// A room that may be created: its name, and the lookups of its
/// participants.
pub struct RoomPlan {
    name: String,
    lookups: Vec<UserQuery>,
}

/// Starts the creation of a room: a name of more than twenty bytes is
/// refused; otherwise the name is made safe for a page and every
/// participant is to be looked up by handle.
pub fn plan_room(body: &CreateChatBody) -> (r: Result<RoomPlan, ApiError>)
    ensures
        match r {
            Ok(plan) => byte_len(body.name@) <= MAX_CHAT_NAME_BYTES && plan.name() == escaped(
                body.name@,
            ) && are_lookups(plan.queries(), body.participants@),
            Err(e) => byte_len(body.name@) > MAX_CHAT_NAME_BYTES
                && e matches ApiError::ChatNameTooLong,
        },
{
    match creation_plan(body) {
        Ok((name, lookups)) => Ok(RoomPlan { name, lookups }),
        Err(e) => Err(e),
    }
}

impl RoomPlan {
    /// The name under which the room is kept.
    pub closed spec fn name(&self) -> Seq<char> {
        self.name@
    }

    /// The lookups of the participants.
    pub closed spec fn queries(&self) -> Seq<UserQuery> {
        self.lookups@
    }

    /// The questions to the relational store, one for each participant.
    pub fn lookups(&self) -> (r: &Vec<UserQuery>)
        ensures
            r@ == self.queries(),
    {
        &self.lookups
    }

    /// The step after the relational store has answered every lookup: the
    /// creation goes on exactly when every participant was found, and
    /// otherwise ends with the verdict on the first lookup that found
    /// nobody.
    pub fn answered(self, found: &Vec<Result<Option<User>, QueryError>>) -> (r: Result<
        Roster,
        ApiError,
    >)
        ensures
            match r {
                Ok(next) => next.name() == self.name() && all_found(found@, next.others()),
                Err(e) => exists|k: int|
                    0 <= k < found@.len() && all_found(found@.take(k), user_views(found@.take(k)))
                        && !((#[trigger] found@[k]) matches Ok(Some(_))) && is_found_verdict(
                        Err(e),
                        found@[k],
                        ApiError::NoSuchHandle,
                    ),
            },
    {
        let mut others: Vec<User> = Vec::new();
        let mut i: usize = 0;
        while i < found.len()
            invariant
                i <= found@.len(),
                all_found(found@.take(i as int), user_views_of(others@)),
            decreases found@.len() - i,
        {
            let ghost before = user_views_of(others@);
            match &found[i] {
                Ok(Some(user)) => {
                    others.push(user.duplicate());
                    proof {
                        assert(user_views_of(others@) =~= before.push(user@));
                        assert(found@.take(i as int + 1).drop_last() =~= found@.take(i as int));
                        assert forall|j: int| 0 <= j < i + 1 implies (#[trigger] found@.take(
                            i as int + 1,
                        )[j] matches Ok(Some(u)) && u@ == user_views_of(others@)[j]) by {
                            if j < i {
                                assert(found@.take(i as int)[j] == found@[j]);
                            }
                        }
                    }
                },
                Ok(None) => {
                    proof {
                        lemma_all_found(found@.take(i as int), before);
                    }
                    return Err(ApiError::NoSuchHandle);
                },
                Err(QueryError::NotFound) => {
                    proof {
                        lemma_all_found(found@.take(i as int), before);
                    }
                    return Err(ApiError::NoSuchHandle);
                },
                Err(e) => {
                    proof {
                        lemma_all_found(found@.take(i as int), before);
                    }
                    return Err(ApiError::Database(e.describe()));
                },
            }
            i += 1;
        }
        assert(found@.take(found@.len() as int) =~= found@);
        Ok(Roster { name: self.name, others })
    }
}

/// The values of a sequence of users, in order.
pub open spec fn user_views_of(users: Seq<User>) -> Seq<UserView> {
    Seq::new(users.len(), |i: int| users[i]@)
}

/// The users that lookups found, where every lookup found one.
pub open spec fn user_views(found: Seq<Result<Option<User>, QueryError>>) -> Seq<UserView> {
    Seq::new(found.len(), |i: int| found[i]->Ok_0->0@)
}

/// Whether every lookup found a user, and `users` are the users found, in
/// the order of the lookups.
pub open spec fn all_found(
    found: Seq<Result<Option<User>, QueryError>>,
    users: Seq<UserView>,
) -> bool {
    &&& users.len() == found.len()
    &&& forall|i: int|
        0 <= i < found.len() ==> (#[trigger] found[i] matches Ok(Some(u)) && u@ == users[i])
}

proof fn lemma_all_found(found: Seq<Result<Option<User>, QueryError>>, users: Seq<UserView>)
    requires
        all_found(found, users),
    ensures
        all_found(found, user_views(found)),
{
}

/// A room whose participants were all found: it is to be created.
pub struct Roster {
    name: String,
    others: Vec<User>,
}

impl Roster {
    /// The name under which the room is kept.
    pub closed spec fn name(&self) -> Seq<char> {
        self.name@
    }

    /// The participants besides the creator.
    pub closed spec fn others(&self) -> Seq<UserView> {
        user_views_of(self.others@)
    }

    /// The step after an id was drawn: the empty room under the id `id`,
    /// and the participants who are to be enrolled besides the creator.
    pub fn found(self, id: String) -> (r: (Chat, Vec<User>))
        ensures
            r.0.wf(),
            r.0@ == ChatView::empty(self.name(), id@),
            user_views_of(r.1@) == self.others(),
    {
        (Chat::with_id(self.name, id), self.others)
    }
}

/// The last step of the creation of a room: what is to be carried out
/// against the stores, in this order. First the room is written, given as
/// `snapshot` in its interchange format; then its icon, given as an image;
/// then the creator is enrolled and written back, and after the creator
/// every other participant in turn.
pub fn room_effects(
    chat: &Chat,
    snapshot: &str,
    icon: &str,
    creator: &mut User,
    others: &mut Vec<User>,
) -> (effects: Vec<ChatEffect>)
    ensures
        final(creator)@ == enrolled(old(creator)@, chat@.id),
        final(others)@.len() == old(others)@.len(),
        forall|i: int|
            0 <= i < old(others)@.len() ==> (#[trigger] final(others)@[i])@ == enrolled(
                old(others)@[i]@,
                chat@.id,
            ),
        effects@.len() == old(others)@.len() + 3,
        is_put_of(effects@[0], Bucket::Chats, chat@.remote_url, snapshot@),
        is_put_of(effects@[1], Bucket::Avatars, chat@.icon_url, icon@),
        effects@[2] matches ChatEffect::UpdateUser(u) && u@ == final(creator)@,
        forall|i: int|
            0 <= i < old(others)@.len() ==> (#[trigger] effects@[i + 3] matches ChatEffect::UpdateUser(
                u,
            ) && u@ == final(others)@[i]@),
{
    let mut effects: Vec<ChatEffect> = Vec::new();
    effects.push(chat.put_request(snapshot));
    effects.push(chat.icon_request(icon));
    chat.add_participant(creator);
    effects.push(ChatEffect::UpdateUser(creator.duplicate()));
    let mut i: usize = 0;
    while i < others.len()
        invariant
            i <= others@.len(),
            others@.len() == old(others)@.len(),
            effects@.len() == i + 3,
            is_put_of(effects@[0], Bucket::Chats, chat@.remote_url, snapshot@),
            is_put_of(effects@[1], Bucket::Avatars, chat@.icon_url, icon@),
            effects@[2] matches ChatEffect::UpdateUser(u) && u@ == creator@,
            forall|j: int|
                0 <= j < i ==> (#[trigger] others@[j])@ == enrolled(old(others)@[j]@, chat@.id),
            forall|j: int| i <= j < others@.len() ==> (#[trigger] others@[j]) == old(others)@[j],
            forall|j: int|
                0 <= j < i ==> (#[trigger] effects@[j + 3] matches ChatEffect::UpdateUser(u) && u@
                    == others@[j]@),
        decreases others@.len() - i,
    {
        let mut user = others[i].duplicate();
        chat.add_participant(&mut user);
        let copy = user.duplicate();
        others.set(i, user);
        effects.push(ChatEffect::UpdateUser(copy));
        i += 1;
    }
    effects
}

/// How a visit to a room starts.
pub enum Visit {
    /// The visitor has no open session: the answer is the login page.
    Login,
    /// The visitor is not a member of the room.
    Refused(ApiError),
    /// The room is to be loaded.
    Load(RoomVisit),
}

/// A visit by a member of a room: the room is to be loaded.
pub struct RoomVisit {
    viewer: User,
    key: String,
}

/// One message of a page.
pub ghost struct LineView {
    pub is_sender: bool,
    pub author: Seq<char>,
    pub content: Seq<char>,
}

/// The page of a room as a member sees it.
pub struct RoomPage {
    pub id: String,
    pub viewer_id: String,
    pub viewer_handle: String,
    pub lines: Vec<MessageLine>,
}

/// Starts a visit to the room `id` at the time `now`: a visitor without an
/// open session is sent to the login page, a visitor who is not a member is
/// refused, and for a member the room is to be loaded.
pub fn visit_room(state: &mut ServerState, cookie: Option<&str>, now: i64, id: &str) -> (r: Visit)
    requires
        old(state).wf(),
    ensures
        final(state).wf(),
        final(state)@ == after_visit(old(state)@, cookie, now as int),
        match visitor(old(state)@, cookie, now as int) {
            None => r is Login,
            Some(viewer) => if viewer.enrolled_chats.contains(id@) {
                r matches Visit::Load(visit) && visit.viewer() == viewer && visit.key()
                    == snapshot_key(id@)
            } else {
                r matches Visit::Refused(ApiError::NotInChat)
            },
        },
{
    let viewer = match signed_in(state, cookie, now) {
        Some(viewer) => viewer,
        None => { return Visit::Login; },
    };
    match check_member(&viewer, id) {
        Ok(()) => Visit::Load(RoomVisit { viewer, key: make_snapshot_key(id) }),
        Err(e) => Visit::Refused(e),
    }
}

/// The message `m` as the page of `viewer` shows it.
pub open spec fn line_of(m: MessageView, viewer: UserView) -> LineView {
    LineView { is_sender: m.author == viewer.user_id, author: m.author, content: m.content[0] }
}

/// Whether `lines` show the messages `ms` to `viewer`, one line for each
/// and in their order.
pub open spec fn are_lines(lines: Seq<MessageLine>, ms: Seq<MessageView>, viewer: UserView) -> bool {
    &&& lines.len() == ms.len()
    &&& forall|i: int|
        0 <= i < ms.len() ==> (LineView {
            is_sender: (#[trigger] lines[i]).is_sender,
            author: lines[i].author@,
            content: lines[i].content@,
        }) == line_of(ms[i], viewer)
}

impl RoomVisit {
    /// The member who visits.
    pub closed spec fn viewer(&self) -> UserView {
        self.viewer@
    }

    /// The key of the snapshot to load.
    pub closed spec fn key(&self) -> Seq<char> {
        self.key@
    }

    /// The object to ask the object store for.
    pub fn snapshot(&self) -> (k: &String)
        ensures
            k@ == self.key(),
    {
        &self.key
    }

    /// The step after the room was asked for: the page of the room with its
    /// messages, newest first, or the answer to the reason why the room
    /// could not be loaded.
    pub fn loaded(self, loaded: Result<Chat, LoadError>) -> (r: Result<RoomPage, ApiError>)
        requires
            loaded matches Ok(c) ==> c.wf(),
        ensures
            match loaded {
                Ok(c) => r matches Ok(page) && page.id@ == c@.id && page.viewer_id@
                    == self.viewer().user_id && page.viewer_handle@ == self.viewer().handle
                    && are_lines(page.lines@, c@.messages, self.viewer()),
                Err(e) => r matches Err(answer) && is_load_answer(answer, e),
            },
    {
        let chat = match loaded {
            Ok(chat) => chat,
            Err(e) => { return Err(e.answer()); },
        };
        let ms = chat.messages();
        let mut lines: Vec<MessageLine> = Vec::new();
        let mut i: usize = 0;
        while i < ms.len()
            invariant
                i <= ms.len(),
                message_views(ms@) == chat@.messages,
                chat@.wf(),
                are_lines(lines@, chat@.messages.take(i as int), self.viewer@),
            decreases ms.len() - i,
        {
            proof {
                assert(message_views(ms@)[i as int] == ms@[i as int]@);
                assert(chat@.messages[i as int].wf());
            }
            lines.push(message_line(&ms[i], &self.viewer));
            i += 1;
        }
        assert(chat@.messages.take(ms.len() as int) =~= chat@.messages);
        Ok(
            RoomPage {
                id: chat.id().clone(),
                viewer_id: self.viewer.user_id,
                viewer_handle: self.viewer.handle,
                lines,
            },
        )
    }
}

/// One room in the list of a user's rooms.
pub struct ChatSummary {
    pub name: String,
    pub messages: Vec<String>,
    pub icon: String,
}

/// The keys of the snapshots of the rooms `ids`, in their order.
pub open spec fn snapshot_keys(ids: Seq<Seq<char>>) -> Seq<Seq<char>> {
    Seq::new(ids.len(), |i: int| snapshot_key(ids[i]))
}

/// The snapshots to load for the list of the rooms of `user`.
pub fn chat_keys(user: &User) -> (keys: Vec<String>)
    ensures
        texts(keys@) == snapshot_keys(user@.enrolled_chats),
{
    let mut keys: Vec<String> = Vec::new();
    let mut i: usize = 0;
    while i < user.enrolled_chats.len()
        invariant
            i <= user.enrolled_chats.len(),
            keys@.len() == i,
            forall|j: int| 0 <= j < i ==> keys@[j]@ == snapshot_key(user.enrolled_chats@[j]@),
        decreases user.enrolled_chats.len() - i,
    {
        keys.push(make_snapshot_key(user.enrolled_chats[i].as_str()));
        i += 1;
    }
    assert(texts(keys@) =~= snapshot_keys(user@.enrolled_chats));
    keys
}

/// Whether every room and every icon of a list is there, one icon for each
/// room.
pub open spec fn list_is_whole(
    chats: Seq<Result<Chat, LoadError>>,
    icons: Seq<Option<String>>,
) -> bool {
    &&& chats.len() == icons.len()
    &&& forall|i: int| 0 <= i < chats.len() ==> (#[trigger] chats[i]) is Ok
    &&& forall|i: int| 0 <= i < icons.len() ==> (#[trigger] icons[i]) is Some
}

/// The list of the rooms of a user, given the rooms as they were loaded
/// and their icons as they were fetched: each room with its name, the
/// texts on display of its messages and its icon. The list is empty unless
/// every room and every icon is there, whatever the reason is that one is
/// missing.
pub fn summaries(chats: &Vec<Result<Chat, LoadError>>, icons: &Vec<Option<String>>) -> (list: Vec<
    ChatSummary,
>)
    requires
        forall|i: int| 0 <= i < chats@.len() ==> (#[trigger] chats@[i] matches Ok(c) ==> c.wf()),
    ensures
        if list_is_whole(chats@, icons@) {
            &&& list@.len() == chats@.len()
            &&& forall|i: int|
                0 <= i < chats@.len() ==> (#[trigger] list@[i]).name@ == chats@[i]->Ok_0@.name
                    && texts(list@[i].messages@) == display_texts(chats@[i]->Ok_0@.messages)
                    && list@[i].icon@ == icons@[i]->0@
        } else {
            list@.len() == 0
        },
{
    if chats.len() != icons.len() {
        return Vec::new();
    }
    let mut list: Vec<ChatSummary> = Vec::new();
    let mut i: usize = 0;
    while i < chats.len()
        invariant
            i <= chats@.len(),
            chats@.len() == icons@.len(),
            forall|j: int|
                0 <= j < chats@.len() ==> (#[trigger] chats@[j] matches Ok(c) ==> c.wf()),
            list@.len() == i,
            forall|j: int| 0 <= j < i ==> (#[trigger] chats@[j]) is Ok,
            forall|j: int| 0 <= j < i ==> (#[trigger] icons@[j]) is Some,
            forall|j: int|
                0 <= j < i ==> (#[trigger] list@[j]).name@ == chats@[j]->Ok_0@.name && texts(
                    list@[j].messages@,
                ) == display_texts(chats@[j]->Ok_0@.messages) && list@[j].icon@ == icons@[j]->0@,
        decreases chats@.len() - i,
    {
        match (&chats[i], &icons[i]) {
            (Ok(chat), Some(icon)) => {
                list.push(
                    ChatSummary {
                        name: chat.name().clone(),
                        messages: chat_texts(chat),
                        icon: icon.clone(),
                    },
                );
            },
            _ => {
                assert(!list_is_whole(chats@, icons@)) by {
                    assert(chats@[i as int] is Err || icons@[i as int] is None);
                }
                return Vec::new();
            },
        }
        i += 1;
    }
    list
}

} // verus!
