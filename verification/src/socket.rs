//! The envelope that travels over the live channel, and the decisions of the
//! two tasks that serve one connection.

use crate::api::described;
use crate::chat::Fetched;
use crate::codec::{text_of, unpack_text, unpacked};
use crate::data::QueryError;
use crate::hub::{Delivery, RoomHub};
use crate::user::{User, UserQuery};
use vstd::prelude::*;

verus! {

/// Who sent an envelope.
#[derive(Clone, Debug)]
pub struct SocketChatAuthor {
    pub avatar: String,
    pub id: String,
    pub is_self: bool,
    pub handle: String,
}

/// The envelope of the live channel.
#[derive(Clone, Debug)]
pub struct SocketChatBody {
    pub content: Option<String>,
    pub action: String,
    pub author: SocketChatAuthor,
    pub chat: Option<String>,
}

/// The mathematical value of a [`SocketChatAuthor`].
pub ghost struct AuthorView {
    pub avatar: Seq<char>,
    pub id: Seq<char>,
    pub is_self: bool,
    pub handle: Seq<char>,
}

/// The mathematical value of a [`SocketChatBody`].
pub ghost struct EnvelopeView {
    pub content: Option<Seq<char>>,
    pub action: Seq<char>,
    pub author: AuthorView,
    pub chat: Option<Seq<char>>,
}

impl View for SocketChatAuthor {
    type V = AuthorView;

    open spec fn view(&self) -> AuthorView {
        AuthorView {
            avatar: self.avatar@,
            id: self.id@,
            is_self: self.is_self,
            handle: self.handle@,
        }
    }
}

impl View for SocketChatBody {
    type V = EnvelopeView;

    open spec fn view(&self) -> EnvelopeView {
        EnvelopeView {
            content: crate::codec::text_of(self.content),
            action: self.action@,
            author: self.author@,
            chat: crate::codec::text_of(self.chat),
        }
    }
}

/// The one action of the live channel.
pub const PUT: &'static str = "PUT";

/// Why the inbound task of a connection gives up.
#[derive(Debug)]
pub enum SocketError {
    /// An envelope asked for an action other than [`PUT`].
    UnknownAction,
}

/// The envelope that is sent on for `body`: its content and room, the id and
/// handle that the client gave, and for the rest what the server says: the
/// stored avatar, and never the mark of the reader's own message.
pub open spec fn enriched(body: EnvelopeView, avatar: Seq<char>) -> EnvelopeView {
    EnvelopeView {
        content: body.content,
        action: PUT@,
        author: AuthorView {
            avatar,
            id: body.author.id,
            is_self: false,
            handle: body.author.handle,
        },
        chat: body.chat,
    }
}

/// Makes the envelope to send on: see [`enriched`]. An action other than
/// [`PUT`] is refused.
pub fn enrich(body: SocketChatBody, avatar: String) -> (r: Result<SocketChatBody, SocketError>)
    ensures
        match r {
            Ok(envelope) => body@.action == PUT@ && envelope@ == enriched(body@, avatar@),
            Err(SocketError::UnknownAction) => body@.action != PUT@,
        },
{
    let put: String = PUT.to_owned();
    if body.action != put {
        return Err(SocketError::UnknownAction);
    }
    Ok(
        SocketChatBody {
            content: body.content,
            action: put,
            author: SocketChatAuthor {
                avatar,
                id: body.author.id,
                is_self: false,
                handle: body.author.handle,
            },
            chat: body.chat,
        },
    )
}

/// What a client writes into the avatar and into the mark of its own
/// message never reaches the envelope that is sent on.
pub proof fn lemma_client_cannot_set_avatar(a: EnvelopeView, b: EnvelopeView, avatar: Seq<char>)
    requires
        a.content == b.content,
        a.chat == b.chat,
        a.author.id == b.author.id,
        a.author.handle == b.author.handle,
    ensures
        enriched(a, avatar) == enriched(b, avatar),
        enriched(a, avatar).author.avatar == avatar,
        !enriched(a, avatar).author.is_self,
{
}

/// What the inbound task read from the connection.
pub enum Frame {
    /// A text frame: the envelope in it, or `None` where the text is not an
    /// envelope.
    Text(Option<SocketChatBody>),
    /// A frame of another kind.
    Other,
    /// The connection has closed or failed.
    End,
}

/// Why an envelope was not sent on.
#[derive(Debug)]
pub enum Dropped {
    /// The text of the frame is no envelope.
    NotAnEnvelope,
    /// The relational store knows no user with the id of the author.
    NoSuchAuthor,
    /// The relational store could not be asked; the text says why.
    Database(String),
    /// The object store holds no avatar of the author.
    NoAvatar,
    /// The object store could not be read.
    StorageRead,
    /// What the object store holds as the avatar cannot be read as one.
    UnreadableAvatar,
}

/// What the inbound task does next.
pub enum Inbound {
    /// Read the next frame.
    Read,
    /// Read the next frame; the envelope of this one was dropped, for the
    /// reason given.
    Dropped(Dropped),
    /// Ask the relational store for the author of the envelope.
    LookUp(SocketChatBody, UserQuery),
    /// Ask the object store for the avatar of the author.
    Fetch(SocketChatBody, UserQuery),
    /// End the task: the connection is gone.
    Stop,
    /// End the task with an error.
    Fail(SocketError),
}

/// The step after a frame: an envelope leads to the lookup of its author by
/// the id it names; text that is no envelope is dropped; frames of other
/// kinds are passed over; the end of the connection ends the task.
pub fn on_frame(frame: Frame) -> (next: Inbound)
    ensures
        match frame {
            Frame::Text(Some(body)) => next matches Inbound::LookUp(kept, UserQuery::GetByID(id))
                && kept@ == body@ && id@ == body@.author.id,
            Frame::Text(None) => next matches Inbound::Dropped(Dropped::NotAnEnvelope),
            Frame::Other => next is Read,
            Frame::End => next is Stop,
        },
{
    match frame {
        Frame::Text(Some(body)) => {
            let id = body.author.id.clone();
            Inbound::LookUp(body, UserQuery::GetByID(id))
        },
        Frame::Text(None) => Inbound::Dropped(Dropped::NotAnEnvelope),
        Frame::Other => Inbound::Read,
        Frame::End => Inbound::Stop,
    }
}

/// The step after the lookup of the author: where the author was found, the
/// avatar is fetched; otherwise the envelope is dropped, with the reason
/// why, and the task reads on.
pub fn on_author(body: SocketChatBody, found: Result<Option<User>, QueryError>) -> (next: Inbound)
    ensures
        match found {
            Ok(Some(author)) => next matches Inbound::Fetch(kept, UserQuery::GetAvatar(u)) && kept@
                == body@ && u@ == author@,
            Ok(None) => next matches Inbound::Dropped(Dropped::NoSuchAuthor),
            Err(QueryError::NotFound) => next matches Inbound::Dropped(Dropped::NoSuchAuthor),
            Err(e) => next matches Inbound::Dropped(Dropped::Database(why)) && why@ == described(
                e@,
            ),
        },
{
    match found {
        Ok(Some(author)) => Inbound::Fetch(body, UserQuery::GetAvatar(author)),
        Ok(None) => Inbound::Dropped(Dropped::NoSuchAuthor),
        Err(QueryError::NotFound) => Inbound::Dropped(Dropped::NoSuchAuthor),
        Err(e) => Inbound::Dropped(Dropped::Database(e.describe())),
    }
}

/// The step after the avatar was asked for. Where there is an avatar that
/// can be read, the envelope is sent on to every subscriber with that avatar
/// in it, unless it asks for an unknown action, which ends the task. Where
/// there is none, the envelope is dropped, with the reason why. In every
/// case the hub is otherwise untouched.
pub fn on_avatar(hub: &mut RoomHub, body: SocketChatBody, fetched: Fetched) -> (next: Inbound)
    requires
        old(hub).wf(),
    ensures
        final(hub).wf(),
        match fetched {
            Fetched::Found(bytes) => match unpacked(bytes@) {
                Some(avatar) => if body@.action == PUT@ {
                    next is Read && final(hub)@ == old(hub)@.publish(enriched(body@, avatar))
                } else {
                    next matches Inbound::Fail(SocketError::UnknownAction) && final(hub)@ == old(
                        hub,
                    )@
                },
                None => next matches Inbound::Dropped(Dropped::UnreadableAvatar) && final(hub)@
                    == old(hub)@,
            },
            Fetched::Missing => next matches Inbound::Dropped(Dropped::NoAvatar) && final(hub)@
                == old(hub)@,
            Fetched::Failed => next matches Inbound::Dropped(Dropped::StorageRead) && final(hub)@
                == old(hub)@,
        },
{
    let bytes = match fetched {
        Fetched::Found(bytes) => bytes,
        Fetched::Missing => { return Inbound::Dropped(Dropped::NoAvatar); },
        Fetched::Failed => { return Inbound::Dropped(Dropped::StorageRead); },
    };
    let avatar = match unpack_text(&bytes) {
        Some(avatar) => avatar,
        None => { return Inbound::Dropped(Dropped::UnreadableAvatar); },
    };
    match enrich(body, avatar) {
        Ok(envelope) => {
            hub.publish(envelope);
            Inbound::Read
        },
        Err(e) => Inbound::Fail(e),
    }
}

/// What the outbound task does next.
pub enum Outbound {
    /// Write this envelope to the connection.
    Write(SocketChatBody),
    /// Nothing is unread: wait for the next publication.
    Wait,
    /// Envelopes were lost to lag: poll again at once.
    Again,
    /// End the task: the subscription is gone.
    Stop,
}

/// Polls the subscription `id` for the outbound task: the oldest unread
/// envelope is to be written out; a subscriber that fell behind goes on with
/// what the channel still holds; an unknown subscription ends the task.
pub fn next_outbound(hub: &mut RoomHub, id: u64) -> (next: Outbound)
    requires
        old(hub).wf(),
    ensures
        final(hub).wf(),
        final(hub)@ == old(hub)@.poll(id),
        if !old(hub)@.queues.contains_key(id) {
            next is Stop
        } else if old(hub)@.queues[id].len() == 0 {
            next is Wait
        } else if old(hub)@.queues[id].len() <= old(hub)@.ring {
            next matches Outbound::Write(envelope) && envelope@ == old(hub)@.queues[id][0]
        } else {
            next is Again
        },
{
    match hub.poll(id) {
        Some(Delivery::Envelope(envelope)) => Outbound::Write(envelope),
        Some(Delivery::Empty) => Outbound::Wait,
        Some(Delivery::Lagged(_)) => Outbound::Again,
        Some(Delivery::Closed) => Outbound::Stop,
        None => Outbound::Stop,
    }
}

} // verus!
