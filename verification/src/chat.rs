//! A chat room, its messages, and the object-store keys derived from its id.

use crate::codec::{pack_text, packed, unpack_text_lossy, unpacked, unpacked_lossy};
use crate::icon::{create_chat_icon, drawing_of, Drawing, Palette};
use crate::ident::{is_user_id, random_user_id};
use crate::text::{contains_string, remove_all, texts, without};
use crate::time::Moment;
use crate::user::{User, UserView};
use vstd::prelude::*;

verus! {

/// One message of a room.
///
/// `content` is the edit history of the text, newest revision first, so the
/// text on display is `content[0]`.
#[derive(Clone, Debug)]
pub struct Message {
    pub content: Vec<String>,
    pub author: String,
    pub sent: Moment,
    pub id: u64,
}

/// The mathematical value of a [`Message`].
pub ghost struct MessageView {
    pub content: Seq<Seq<char>>,
    pub author: Seq<char>,
    pub sent: Moment,
    pub id: int,
}

impl View for Message {
    type V = MessageView;

    open spec fn view(&self) -> MessageView {
        MessageView {
            content: texts(self.content@),
            author: self.author@,
            sent: self.sent,
            id: self.id as int,
        }
    }
}

impl MessageView {
    /// A message always has a text on display.
    pub open spec fn wf(self) -> bool {
        self.content.len() > 0
    }
}

impl Message {
    /// A message always has a text on display.
    pub open spec fn wf(&self) -> bool {
        self@.wf()
    }

    /// A message with a single revision.
    pub fn new(text: String, author: String, sent: Moment, id: u64) -> (m: Message)
        ensures
            m@ == (MessageView {
                content: seq![text@],
                author: author@,
                sent,
                id: id as int,
            }),
            m.wf(),
    {
        let mut content: Vec<String> = Vec::new();
        content.push(text);
        let m = Message { content, author, sent, id };
        assert(m@.content =~= seq![text@]);
        m
    }

    /// The text on display: the newest revision.
    pub fn current_text(&self) -> (t: &String)
        requires
            self.wf(),
        ensures
            t@ == self@.content[0],
    {
        &self.content[0]
    }

    /// Replaces the text on display by `text`. The earlier revisions stay,
    /// each one place further back, as the history of the message.
    pub fn revise(&mut self, text: String)
        ensures
            final(self)@ == (MessageView {
                content: seq![text@] + old(self)@.content,
                ..old(self)@
            }),
            final(self).wf(),
    {
        self.content.insert(0, text);
        assert(self@.content =~= seq![text@] + old(self)@.content);
    }
}

/// The values of a sequence of messages, in order.
pub open spec fn message_views(ms: Seq<Message>) -> Seq<MessageView> {
    Seq::new(ms.len(), |i: int| ms[i]@)
}

/// The object-store key of the snapshot of the room `id`.
pub open spec fn snapshot_key(id: Seq<char>) -> Seq<char> {
    "/"@ + id + ".json.br"@
}

/// The object-store key of the icon of the room `id`.
pub open spec fn icon_key(id: Seq<char>) -> Seq<char> {
    "/chats/"@ + id + ".svg.br"@
}

/// Computes [`snapshot_key`].
pub fn make_snapshot_key(id: &str) -> (key: String)
    ensures
        key@ == snapshot_key(id@),
{
    let mut key = String::from_str("/");
    key.append(id);
    key.append(".json.br");
    key
}

/// Computes [`icon_key`].
pub fn make_icon_key(id: &str) -> (key: String)
    ensures
        key@ == icon_key(id@),
{
    let mut key = String::from_str("/chats/");
    key.append(id);
    key.append(".svg.br");
    key
}

/// A chat room: its name, its id, and its messages, newest first.
///
/// The id never changes after creation, and both object-store keys are
/// derived from it.
#[derive(Debug)]
pub struct Chat {
    name: String,
    id: String,
    icon_url: String,
    messages: Vec<Message>,
    remote_url: String,
}

/// The mathematical value of a [`Chat`].
pub ghost struct ChatView {
    pub name: Seq<char>,
    pub id: Seq<char>,
    pub icon_url: Seq<char>,
    pub messages: Seq<MessageView>,
    pub remote_url: Seq<char>,
}

impl ChatView {
    /// Both keys are the ones derived from the id, and every message has a
    /// text on display.
    pub open spec fn wf(self) -> bool {
        &&& self.icon_url == icon_key(self.id)
        &&& self.remote_url == snapshot_key(self.id)
        &&& forall|i: int| 0 <= i < self.messages.len() ==> (#[trigger] self.messages[i]).wf()
    }

    /// The empty room called `name` with the id `id`.
    pub open spec fn empty(name: Seq<char>, id: Seq<char>) -> ChatView {
        ChatView {
            name,
            id,
            icon_url: icon_key(id),
            messages: Seq::empty(),
            remote_url: snapshot_key(id),
        }
    }

    /// The room that is made of stored parts.
    pub open spec fn of_parts(
        name: Seq<char>,
        id: Seq<char>,
        icon_url: Seq<char>,
        messages: Seq<Message>,
        remote_url: Seq<char>,
    ) -> ChatView {
        ChatView { name, id, icon_url, messages: message_views(messages), remote_url }
    }

    /// The room after `m` was appended: `m` in front, the earlier messages
    /// behind it in their old order.
    pub open spec fn with_message(self, m: MessageView) -> ChatView {
        ChatView { messages: seq![m] + self.messages, ..self }
    }
}

impl View for Chat {
    type V = ChatView;

    closed spec fn view(&self) -> ChatView {
        ChatView {
            name: self.name@,
            id: self.id@,
            icon_url: self.icon_url@,
            messages: message_views(self.messages@),
            remote_url: self.remote_url@,
        }
    }
}

impl Chat {
    /// The invariant of a room: see [`ChatView::wf`].
    pub open spec fn wf(&self) -> bool {
        self@.wf()
    }

    /// The empty room called `name` with the id `id`.
    pub fn with_id(name: String, id: String) -> (chat: Chat)
        ensures
            chat@ == ChatView::empty(name@, id@),
            chat.wf(),
    {
        let icon_url = make_icon_key(id.as_str());
        let remote_url = make_snapshot_key(id.as_str());
        let chat = Chat { name, id, icon_url, messages: Vec::new(), remote_url };
        assert(chat@.messages =~= Seq::empty());
        chat
    }

    /// Rebuilds a room from the parts of its snapshot in the remote store. The
    /// parts are accepted exactly when they satisfy the invariant of a room.
    pub fn from_remote(
        name: String,
        id: String,
        icon_url: String,
        messages: Vec<Message>,
        remote_url: String,
    ) -> (r: Option<Chat>)
        ensures
            match r {
                Some(chat) => chat.wf() && chat@ == ChatView::of_parts(
                    name@,
                    id@,
                    icon_url@,
                    messages@,
                    remote_url@,
                ),
                None => !ChatView::of_parts(name@, id@, icon_url@, messages@, remote_url@).wf(),
            },
    {
        let want_icon = make_icon_key(id.as_str());
        let want_remote = make_snapshot_key(id.as_str());
        if icon_url != want_icon || remote_url != want_remote {
            return None;
        }
        let mut i: usize = 0;
        while i < messages.len()
            invariant
                i <= messages.len(),
                forall|j: int| 0 <= j < i ==> (#[trigger] messages@[j]).wf(),
            decreases messages.len() - i,
        {
            if messages[i].content.len() == 0 {
                proof {
                    let stored = ChatView::of_parts(
                        name@,
                        id@,
                        icon_url@,
                        messages@,
                        remote_url@,
                    );
                    assert(!stored.messages[i as int].wf());
                }
                return None;
            }
            i += 1;
        }
        assert forall|j: int| 0 <= j < message_views(messages@).len() implies (
        #[trigger] message_views(messages@)[j]).wf() by {
            assert(messages@[j].wf());
        }
        Some(Chat { name, id, icon_url, messages, remote_url })
    }

    /// Appends `message` to the in-memory room: it becomes the first message,
    /// and the earlier ones follow unchanged. Nothing is stored.
    pub fn add_message(&mut self, message: Message)
        requires
            old(self).wf(),
            message.wf(),
        ensures
            final(self)@ == old(self)@.with_message(message@),
            final(self).wf(),
    {
        self.messages.insert(0, message);
        assert(self@.messages =~= seq![message@] + old(self)@.messages);
    }

    /// The display name.
    pub fn name(&self) -> (r: &String)
        ensures
            r@ == self@.name,
    {
        &self.name
    }

    /// The id.
    pub fn id(&self) -> (r: &String)
        ensures
            r@ == self@.id,
    {
        &self.id
    }

    /// The object-store key of the icon.
    pub fn icon_url(&self) -> (r: &String)
        ensures
            r@ == self@.icon_url,
    {
        &self.icon_url
    }

    /// The object-store key of the snapshot.
    pub fn remote_url(&self) -> (r: &String)
        ensures
            r@ == self@.remote_url,
    {
        &self.remote_url
    }

    /// The messages, newest first.
    pub fn messages(&self) -> (r: &Vec<Message>)
        ensures
            message_views(r@) == self@.messages,
    {
        &self.messages
    }
}

/// The body of a request that creates a room.
pub struct CreateChatBody {
    pub participants: Vec<String>,
    pub name: String,
}

/// The two buckets of the object store.
#[derive(Clone, Copy, Debug, PartialEq, Eq)]
pub enum Bucket {
    /// Room snapshots.
    Chats,
    /// Avatars of users and icons of rooms.
    Avatars,
}

impl Bucket {
    /// The bucket's name in the object store.
    pub fn name(&self) -> (n: &'static str)
        ensures
            n@ == match *self {
                Bucket::Chats => "kolloquy-chats"@,
                Bucket::Avatars => "kolloquy-user-avatars"@,
            },
    {
        match self {
            Bucket::Chats => "kolloquy-chats",
            Bucket::Avatars => "kolloquy-user-avatars",
        }
    }
}

/// A change asked of a room.
pub enum ChatQuery {
    /// Store the room's snapshot; the text is the room in its interchange
    /// format.
    PutChat(String),
    /// Add a message to the room in memory.
    AddMessage(Message),
    /// Enrol a user in the room.
    AddParticipant(User),
    /// Take a user out of the room.
    RemoveParticipant(User),
    /// Store the room's icon; the text is the image.
    PutIcon(String),
    /// Delete the room's snapshot.
    Delete,
}

/// What the caller has to carry out after a [`ChatQuery`].
pub enum ChatEffect {
    /// Write `body` at `key` in `bucket`.
    Put { bucket: Bucket, key: String, body: Vec<u8> },
    /// Delete the object at `key` in `bucket`.
    Remove { bucket: Bucket, key: String },
    /// Write the changed user record to the relational store.
    UpdateUser(User),
    /// Nothing to carry out.
    Nothing,
    /// The text could not be compressed; nothing is to be written.
    Failed,
}

/// Whether `effect` writes the blob of `text` at `key` in `bucket`, a blob
/// that reads back as `text`, or reports failure where the text has no blob.
pub open spec fn is_put_of(effect: ChatEffect, b: Bucket, k: Seq<char>, text: Seq<char>) -> bool {
    match packed(text) {
        Some(blob) => effect matches ChatEffect::Put { bucket, key, body } && bucket == b && key@
            == k && body@ == blob && unpacked_lossy(blob) == Some(text) && unpacked(blob) == Some(
            text,
        ),
        None => effect is Failed,
    }
}

/// The ids of a user's rooms after the user was enrolled in the room `id`:
/// the id comes last where the user was not in the room, and the ids are as
/// they were where the user was.
pub open spec fn with_room(rooms: Seq<Seq<char>>, id: Seq<char>) -> Seq<Seq<char>> {
    if rooms.contains(id) {
        rooms
    } else {
        rooms.push(id)
    }
}

/// A user after enrolment in the room `id`.
pub open spec fn enrolled(user: UserView, id: Seq<char>) -> UserView {
    UserView { enrolled_chats: with_room(user.enrolled_chats, id), ..user }
}

/// A user after leaving the room `id`.
pub open spec fn withdrawn(user: UserView, id: Seq<char>) -> UserView {
    UserView { enrolled_chats: without(user.enrolled_chats, id), ..user }
}

impl Chat {
    /// Enrols `user` in this room: the room's id is added at the end of the
    /// user's rooms, unless the user is in the room already.
    pub fn add_participant(&self, user: &mut User)
        ensures
            final(user)@ == enrolled(old(user)@, self@.id),
    {
        if !contains_string(&user.enrolled_chats, self.id.as_str()) {
            user.enrolled_chats.push(self.id.clone());
            assert(texts(user.enrolled_chats@) =~= texts(old(user).enrolled_chats@).push(
                self.id@,
            ));
        }
    }

    /// Takes `user` out of this room: every occurrence of the room's id
    /// leaves the user's list, the other ids keep their order.
    pub fn remove_participant(&self, user: &mut User)
        ensures
            final(user)@ == withdrawn(old(user)@, self@.id),
    {
        let kept = remove_all(&user.enrolled_chats, self.id.as_str());
        user.enrolled_chats = kept;
    }

    /// The request that stores this room's snapshot, given the room in its
    /// interchange format.
    pub fn put_request(&self, json: &str) -> (effect: ChatEffect)
        ensures
            is_put_of(effect, Bucket::Chats, self@.remote_url, json@),
    {
        match pack_text(json) {
            Some(body) => ChatEffect::Put {
                bucket: Bucket::Chats,
                key: self.remote_url.clone(),
                body,
            },
            None => ChatEffect::Failed,
        }
    }

    /// The request that stores this room's icon, given the image as text.
    pub fn icon_request(&self, icon: &str) -> (effect: ChatEffect)
        ensures
            is_put_of(effect, Bucket::Avatars, self@.icon_url, icon@),
    {
        match pack_text(icon) {
            Some(body) => ChatEffect::Put {
                bucket: Bucket::Avatars,
                key: self.icon_url.clone(),
                body,
            },
            None => ChatEffect::Failed,
        }
    }

    /// The request that deletes this room's snapshot.
    pub fn delete_request(&self) -> (effect: ChatEffect)
        ensures
            effect matches ChatEffect::Remove { bucket, key } && bucket == Bucket::Chats && key@
                == self@.remote_url,
    {
        ChatEffect::Remove { bucket: Bucket::Chats, key: self.remote_url.clone() }
    }

    /// Applies `query` to the room in memory and says what is left for the
    /// caller to carry out against the stores. Only a message changes the
    /// room; nothing is stored here.
    pub fn execute(&mut self, query: ChatQuery) -> (effect: ChatEffect)
        requires
            old(self).wf(),
            query matches ChatQuery::AddMessage(m) ==> m.wf(),
        ensures
            final(self).wf(),
            match query {
                ChatQuery::PutChat(json) => final(self)@ == old(self)@ && is_put_of(
                    effect,
                    Bucket::Chats,
                    old(self)@.remote_url,
                    json@,
                ),
                ChatQuery::AddMessage(m) => final(self)@ == old(self)@.with_message(m@)
                    && effect is Nothing,
                ChatQuery::AddParticipant(user) => final(self)@ == old(self)@ && (
                effect matches ChatEffect::UpdateUser(u) && u@ == enrolled(user@, old(self)@.id)),
                ChatQuery::RemoveParticipant(user) => final(self)@ == old(self)@ && (
                effect matches ChatEffect::UpdateUser(u) && u@ == withdrawn(user@, old(self)@.id)),
                ChatQuery::PutIcon(icon) => final(self)@ == old(self)@ && is_put_of(
                    effect,
                    Bucket::Avatars,
                    old(self)@.icon_url,
                    icon@,
                ),
                ChatQuery::Delete => final(self)@ == old(self)@ && (
                effect matches ChatEffect::Remove { bucket, key } && bucket == Bucket::Chats && key@
                    == old(self)@.remote_url),
            },
    {
        match query {
            ChatQuery::PutChat(json) => self.put_request(json.as_str()),
            ChatQuery::AddMessage(m) => {
                self.add_message(m);
                ChatEffect::Nothing
            },
            ChatQuery::AddParticipant(user) => {
                let mut user = user;
                self.add_participant(&mut user);
                ChatEffect::UpdateUser(user)
            },
            ChatQuery::RemoveParticipant(user) => {
                let mut user = user;
                self.remove_participant(&mut user);
                ChatEffect::UpdateUser(user)
            },
            ChatQuery::PutIcon(icon) => self.icon_request(icon.as_str()),
            ChatQuery::Delete => self.delete_request(),
        }
    }
}

/// Why a change to a room did not reach the stores.
#[derive(Debug, PartialEq, Eq)]
pub enum StoreError {
    /// The text could not be compressed, so nothing was written.
    Unwritable,
    /// The object store refused the write.
    StorageWrite,
    /// The object store refused the deletion.
    StorageDelete,
    /// The user's record did not follow the change of membership: the room
    /// and the record now disagree.
    ConsistencyGap,
}

/// What is to be reported after `effect` was handed to the stores and they
/// did (`done`) or did not carry it out. A failure is reported as it is,
/// never tried again and never swallowed.
pub open spec fn settled(effect: ChatEffect, done: bool) -> Result<(), StoreError> {
    match effect {
        ChatEffect::Failed => Err(StoreError::Unwritable),
        ChatEffect::Nothing => Ok(()),
        ChatEffect::Put { .. } => if done {
            Ok(())
        } else {
            Err(StoreError::StorageWrite)
        },
        ChatEffect::Remove { .. } => if done {
            Ok(())
        } else {
            Err(StoreError::StorageDelete)
        },
        ChatEffect::UpdateUser(_) => if done {
            Ok(())
        } else {
            Err(StoreError::ConsistencyGap)
        },
    }
}

/// Computes [`settled`].
pub fn settle(effect: &ChatEffect, done: bool) -> (r: Result<(), StoreError>)
    ensures
        r == settled(*effect, done),
{
    match effect {
        ChatEffect::Failed => Err(StoreError::Unwritable),
        ChatEffect::Nothing => Ok(()),
        ChatEffect::Put { .. } => if done {
            Ok(())
        } else {
            Err(StoreError::StorageWrite)
        },
        ChatEffect::Remove { .. } => if done {
            Ok(())
        } else {
            Err(StoreError::StorageDelete)
        },
        ChatEffect::UpdateUser(_) => if done {
            Ok(())
        } else {
            Err(StoreError::ConsistencyGap)
        },
    }
}

/// What the object store answered when a snapshot was asked for.
pub enum Fetched {
    /// The object, as stored.
    Found(Vec<u8>),
    /// There is no such object.
    Missing,
    /// The store could not be read.
    Failed,
}

/// Why a room could not be loaded.
#[derive(Debug, PartialEq, Eq)]
pub enum LoadError {
    NotFound,
    StorageRead,
    Deserialization,
}

/// What loading makes of the answer of the object store: the room in its
/// interchange format, or the reason why there is none. A missing object
/// and a failed read are errors of their own, and so is an object that does
/// not decompress.
pub open spec fn loaded(fetched: Fetched) -> Result<Seq<char>, LoadError> {
    match fetched {
        Fetched::Found(blob) => match unpacked_lossy(blob@) {
            Some(text) => Ok(text),
            None => Err(LoadError::Deserialization),
        },
        Fetched::Missing => Err(LoadError::NotFound),
        Fetched::Failed => Err(LoadError::StorageRead),
    }
}

/// The text inside a result, or its error.
pub open spec fn loaded_text(r: Result<String, LoadError>) -> Result<Seq<char>, LoadError> {
    match r {
        Ok(text) => Ok(text@),
        Err(e) => Err(e),
    }
}

/// Computes [`loaded`].
pub fn snapshot_text(fetched: Fetched) -> (r: Result<String, LoadError>)
    ensures
        loaded_text(r) == loaded(fetched),
{
    match fetched {
        Fetched::Found(blob) => match unpack_text_lossy(&blob) {
            Some(text) => Ok(text),
            None => Err(LoadError::Deserialization),
        },
        Fetched::Missing => Err(LoadError::NotFound),
        Fetched::Failed => Err(LoadError::StorageRead),
    }
}

/// A room is rebuilt from its own parts as the same room: handed the name,
/// the id, both keys and the messages of a room, [`Chat::from_remote`]
/// accepts them and gives a room of the same value.
pub proof fn lemma_own_parts_rebuild(room: ChatView, messages: Seq<Message>)
    requires
        room.wf(),
        message_views(messages) == room.messages,
    ensures
        ChatView::of_parts(room.name, room.id, room.icon_url, messages, room.remote_url) == room,
        ChatView::of_parts(room.name, room.id, room.icon_url, messages, room.remote_url).wf(),
{
}

/// The parts of a room as its snapshot holds them.
pub ghost struct Parts {
    pub name: Seq<char>,
    pub id: Seq<char>,
    pub icon_url: Seq<char>,
    pub messages: Seq<Message>,
    pub remote_url: Seq<char>,
}

/// The room that [`Chat::from_remote`] makes of parts, where it accepts
/// them.
pub open spec fn rebuilt(parts: Parts) -> Option<ChatView> {
    let room = ChatView::of_parts(
        parts.name,
        parts.id,
        parts.icon_url,
        parts.messages,
        parts.remote_url,
    );
    if room.wf() {
        Some(room)
    } else {
        None
    }
}

/// A room that was stored loads again as the same room, under any
/// interchange format that loses nothing of it. `write` stands for the way
/// a room is written as text and `read` for the way the text is taken
/// apart again. If reading what was written for `room` gives parts of which
/// `room` is made, and `effect` is the write of that text, then what the
/// object store hands back loads as that text, and its parts rebuild
/// `room`.
pub proof fn lemma_persist_then_load(
    room: ChatView,
    write: spec_fn(ChatView) -> Seq<char>,
    read: spec_fn(Seq<char>) -> Option<Parts>,
    effect: ChatEffect,
    body: Vec<u8>,
)
    requires
        room.wf(),
        read(write(room)) matches Some(parts) && ChatView::of_parts(
            parts.name,
            parts.id,
            parts.icon_url,
            parts.messages,
            parts.remote_url,
        ) == room,
        is_put_of(effect, Bucket::Chats, room.remote_url, write(room)),
        effect matches ChatEffect::Put { body: written, .. } && written@ == body@,
    ensures
        loaded(Fetched::Found(body)) matches Ok(text) && text == write(room) && (
        read(text) matches Some(parts) && rebuilt(parts) == Some(room)),
{
}

/// What was written for a room loads again as the very text that was
/// written: if `effect` is the write of `text` and the object store hands
/// its body back, loading gives `text`.
pub proof fn lemma_stored_snapshot_loads(
    effect: ChatEffect,
    bucket: Bucket,
    key: Seq<char>,
    text: Seq<char>,
    body: Vec<u8>,
)
    requires
        is_put_of(effect, bucket, key, text),
        effect matches ChatEffect::Put { body: written, .. } && written@ == body@,
    ensures
        loaded(Fetched::Found(body)) == Ok::<Seq<char>, LoadError>(text),
{
}

impl Chat {
    /// A new empty room called `name` under a fresh random id, and its icon
    /// in random colours. Nothing is stored. `None` where no randomness is
    /// to be had or no id could be drawn in `attempts` attempts.
    pub fn new(name: String, attempts: u32) -> (r: Option<(Chat, Drawing)>)
        ensures
            r matches Some((chat, icon)) ==> chat.wf() && chat@ == ChatView::empty(
                name@,
                chat@.id,
            ) && is_user_id(chat@.id) && (
            exists|p: Palette| p.wf() && p.shape is Square && icon@ == drawing_of(p)),
            attempts == 0 ==> r is None,
    {
        let id = match random_user_id(attempts) {
            Some(id) => id,
            None => { return None; },
        };
        match create_chat_icon() {
            Some(icon) => Some((Chat::with_id(name, id), icon)),
            None => None,
        }
    }
}

/// Enrolling a user who was not in the room and then taking the user out
/// again gives the rooms the user had before.
pub proof fn lemma_add_then_remove_restores(rooms: Seq<Seq<char>>, id: Seq<char>)
    requires
        !rooms.contains(id),
    ensures
        without(with_room(rooms, id), id) == rooms,
{
    assert(rooms.push(id).drop_last() =~= rooms);
    crate::text::lemma_without_absent(rooms, id);
}

/// After enrolment the user is in the room, and after leaving the user is
/// not; enrolling a user twice changes nothing.
pub proof fn lemma_membership_follows(rooms: Seq<Seq<char>>, id: Seq<char>)
    ensures
        with_room(rooms, id).contains(id),
        !without(rooms, id).contains(id),
        with_room(with_room(rooms, id), id) == with_room(rooms, id),
{
    assert(rooms.push(id)[rooms.len() as int] == id);
    crate::text::lemma_without_contains(rooms, id, id);
}

/// Whether no id stands twice.
pub open spec fn are_distinct(rooms: Seq<Seq<char>>) -> bool {
    forall|i: int, j: int| 0 <= i < j < rooms.len() ==> rooms[i] != rooms[j]
}

/// The rooms of a user stay a set under enrolment.
pub proof fn lemma_enrolment_keeps_a_set(rooms: Seq<Seq<char>>, id: Seq<char>)
    requires
        are_distinct(rooms),
    ensures
        are_distinct(with_room(rooms, id)),
{
    if !rooms.contains(id) {
        let longer = rooms.push(id);
        assert forall|i: int, j: int| 0 <= i < j < longer.len() implies longer[i] != longer[j] by {
            if j == rooms.len() {
                assert(rooms[i] == longer[i]);
                assert(rooms.contains(rooms[i]));
            }
        }
    }
}

/// Appending keeps every earlier message, one place further back, and puts
/// the new message first.
pub proof fn lemma_append_shifts(room: ChatView, m: MessageView)
    ensures
        room.with_message(m).messages.len() == room.messages.len() + 1,
        room.with_message(m).messages[0] == m,
        forall|i: int|
            0 <= i < room.messages.len() ==> #[trigger] room.with_message(m).messages[i + 1]
                == room.messages[i],
        room.wf() && m.wf() ==> room.with_message(m).wf(),
{
}

} // verus!
