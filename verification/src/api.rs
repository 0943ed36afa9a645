//! What a request handler answers when it cannot serve a request.

use crate::chat::{Fetched, LoadError, StoreError};
use crate::codec::{unpack_text, unpacked};
use crate::data::{QueryError, QueryErrorView};
use vstd::prelude::*;

verus! {

/// The ways a request can fail.
#[derive(Debug)]
pub enum ApiError {
    /// The body is not of the expected form; the text shows the form and the
    /// body.
    InvalidSchema(String),
    InvalidEmail,
    InvalidHandle,
    InvalidPassword,
    InvalidRedirect,
    EmailTaken,
    HandleTaken,
    NoSuchEmail,
    NoSuchHandle,
    /// The relational store could not be asked; the text says why.
    Database(String),
    /// The object store could not be read, or what it holds is no room; the
    /// text says which.
    Storage(String),
    WrongPassword,
    NotInChat,
    NoSuchChat,
    ChatNameTooLong,
}

/// The HTTP status of each failure.
pub open spec fn status_of(e: ApiError) -> int {
    match e {
        ApiError::Database(_) => 500,
        ApiError::Storage(_) => 500,
        ApiError::WrongPassword => 403,
        _ => 400,
    }
}

/// The code of each failure in the body of the answer.
pub open spec fn code_of(e: ApiError) -> int {
    match e {
        ApiError::InvalidSchema(_) => 200,
        ApiError::InvalidEmail => 201,
        ApiError::InvalidHandle => 202,
        ApiError::InvalidPassword => 203,
        ApiError::InvalidRedirect => 204,
        ApiError::EmailTaken => 100,
        ApiError::HandleTaken => 101,
        ApiError::NoSuchEmail => 100,
        ApiError::NoSuchHandle => 100,
        ApiError::Database(_) => 300,
        ApiError::Storage(_) => 301,
        ApiError::WrongPassword => 0,
        ApiError::NotInChat => 1,
        ApiError::NoSuchChat => 205,
        ApiError::ChatNameTooLong => 206,
    }
}

/// The message of each failure.
pub open spec fn message_of(e: ApiError) -> Seq<char> {
    match e {
        ApiError::InvalidSchema(_) => "Invalid schema for JSON body"@,
        ApiError::InvalidEmail => "Invalid email address."@,
        ApiError::InvalidHandle => "Invalid handle."@,
        ApiError::InvalidPassword => "Invalid password hash."@,
        ApiError::InvalidRedirect => "Invalid redirect URL."@,
        ApiError::EmailTaken => "A user with this email already exists."@,
        ApiError::HandleTaken => "A user with this handle already exists."@,
        ApiError::NoSuchEmail => "A user with this email does not exist."@,
        ApiError::NoSuchHandle => "A user with this handle does not exist."@,
        ApiError::Database(_) => "Could not access database."@,
        ApiError::Storage(_) => "Could not access storage."@,
        ApiError::WrongPassword => "Incorrect password."@,
        ApiError::NotInChat => "This user is not a part of this chat."@,
        ApiError::NoSuchChat => "A chat with this ID does not exist."@,
        ApiError::ChatNameTooLong => "Chat name is too long."@,
    }
}

/// The details of each failure, where it has any.
pub open spec fn details_of(e: ApiError) -> Option<Seq<char>> {
    match e {
        ApiError::InvalidSchema(text) => Some(text@),
        ApiError::InvalidEmail => Some(
            "Email address did not match the (partial) RFC 5233 regex."@,
        ),
        ApiError::InvalidHandle => Some(
            "Handle did not match the handle regex (/^@?[\\w!$-.\\\\\\/]{3,15}$/)"@,
        ),
        ApiError::InvalidPassword => Some("Hash did not match required length and encoding."@),
        ApiError::Database(why) => Some(why@),
        ApiError::Storage(why) => Some(why@),
        _ => None,
    }
}

impl ApiError {
    /// Computes [`status_of`].
    pub fn status(&self) -> (r: u16)
        ensures
            r == status_of(*self),
    {
        match self {
            ApiError::Database(_) => 500,
            ApiError::Storage(_) => 500,
            ApiError::WrongPassword => 403,
            _ => 400,
        }
    }

    /// Computes [`code_of`].
    pub fn code(&self) -> (r: u32)
        ensures
            r == code_of(*self),
    {
        match self {
            ApiError::InvalidSchema(_) => 200,
            ApiError::InvalidEmail => 201,
            ApiError::InvalidHandle => 202,
            ApiError::InvalidPassword => 203,
            ApiError::InvalidRedirect => 204,
            ApiError::EmailTaken => 100,
            ApiError::HandleTaken => 101,
            ApiError::NoSuchEmail => 100,
            ApiError::NoSuchHandle => 100,
            ApiError::Database(_) => 300,
        ApiError::Storage(_) => 301,
            ApiError::WrongPassword => 0,
            ApiError::NotInChat => 1,
            ApiError::NoSuchChat => 205,
            ApiError::ChatNameTooLong => 206,
        }
    }

    /// Computes [`message_of`].
    pub fn message(&self) -> (r: String)
        ensures
            r@ == message_of(*self),
    {
        let text = match self {
            ApiError::InvalidSchema(_) => "Invalid schema for JSON body",
            ApiError::InvalidEmail => "Invalid email address.",
            ApiError::InvalidHandle => "Invalid handle.",
            ApiError::InvalidPassword => "Invalid password hash.",
            ApiError::InvalidRedirect => "Invalid redirect URL.",
            ApiError::EmailTaken => "A user with this email already exists.",
            ApiError::HandleTaken => "A user with this handle already exists.",
            ApiError::NoSuchEmail => "A user with this email does not exist.",
            ApiError::NoSuchHandle => "A user with this handle does not exist.",
            ApiError::Database(_) => "Could not access database.",
            ApiError::Storage(_) => "Could not access storage.",
            ApiError::WrongPassword => "Incorrect password.",
            ApiError::NotInChat => "This user is not a part of this chat.",
            ApiError::NoSuchChat => "A chat with this ID does not exist.",
            ApiError::ChatNameTooLong => "Chat name is too long.",
        };
        text.to_owned()
    }

    /// Computes [`details_of`].
    pub fn details(&self) -> (r: Option<String>)
        ensures
            crate::codec::text_of(r) == details_of(*self),
    {
        match self {
            ApiError::InvalidSchema(text) => Some(text.clone()),
            ApiError::InvalidEmail => Some(
                "Email address did not match the (partial) RFC 5233 regex.".to_owned(),
            ),
            ApiError::InvalidHandle => Some(
                "Handle did not match the handle regex (/^@?[\\w!$-.\\\\\\/]{3,15}$/)".to_owned(),
            ),
            ApiError::InvalidPassword => Some(
                "Hash did not match required length and encoding.".to_owned(),
            ),
            ApiError::Database(why) => Some(why.clone()),
            ApiError::Storage(why) => Some(why.clone()),
            _ => None,
        }
    }
}

/// How a failure of the relational store is written in the details of an
/// answer.
pub open spec fn described(e: QueryErrorView) -> Seq<char> {
    match e {
        QueryErrorView::InvalidQuery => "InvalidQuery"@,
        QueryErrorView::NotFound => "NotFound"@,
        QueryErrorView::ServerError => "ServerError"@,
        QueryErrorView::Other(why) => "Other("@ + why + ")"@,
    }
}

impl QueryError {
    /// Computes [`described`].
    pub fn describe(&self) -> (r: String)
        ensures
            r@ == described(self@),
    {
        match self {
            QueryError::InvalidQuery => "InvalidQuery".to_owned(),
            QueryError::NotFound => "NotFound".to_owned(),
            QueryError::ServerError => "ServerError".to_owned(),
            QueryError::Other(why) => {
                let mut text = String::from_str("Other(");
                text.append(why.as_str());
                text.append(")");
                text
            },
        }
    }
}

/// How a failure to load a room is written in the details of an answer.
pub open spec fn load_failure(e: LoadError) -> Seq<char> {
    match e {
        LoadError::NotFound => "NotFound"@,
        LoadError::StorageRead => "StorageRead"@,
        LoadError::Deserialization => "Deserialization"@,
    }
}

/// Whether `answer` is the answer to a room that could not be loaded: a
/// room that is not there is reported as such, and a store that cannot be
/// read or holds no room at the key as a failure of the storage.
pub open spec fn is_load_answer(answer: ApiError, e: LoadError) -> bool {
    match e {
        LoadError::NotFound => answer matches ApiError::NoSuchChat,
        _ => answer matches ApiError::Storage(why) && why@ == load_failure(e),
    }
}

impl LoadError {
    /// Computes [`load_failure`].
    pub fn describe(&self) -> (r: String)
        ensures
            r@ == load_failure(*self),
    {
        match self {
            LoadError::NotFound => "NotFound".to_owned(),
            LoadError::StorageRead => "StorageRead".to_owned(),
            LoadError::Deserialization => "Deserialization".to_owned(),
        }
    }

    /// The answer to a room that could not be loaded for this reason.
    pub fn answer(&self) -> (r: ApiError)
        ensures
            is_load_answer(r, *self),
    {
        match self {
            LoadError::NotFound => ApiError::NoSuchChat,
            _ => ApiError::Storage(self.describe()),
        }
    }
}

/// How a failure of the stores is written in the details of an answer.
pub open spec fn store_failure(e: StoreError) -> Seq<char> {
    match e {
        StoreError::Unwritable => "Unwritable"@,
        StoreError::StorageWrite => "StorageWrite"@,
        StoreError::StorageDelete => "StorageDelete"@,
        StoreError::ConsistencyGap => "ConsistencyGap"@,
    }
}

/// Whether `answer` is the answer to a change that did not reach the
/// stores: a user record that did not follow is a failure of the relational
/// store, everything else a failure of the storage.
pub open spec fn is_store_answer(answer: ApiError, e: StoreError) -> bool {
    match e {
        StoreError::ConsistencyGap => answer matches ApiError::Database(why) && why@
            == store_failure(e),
        _ => answer matches ApiError::Storage(why) && why@ == store_failure(e),
    }
}

impl StoreError {
    /// Computes [`store_failure`].
    pub fn describe(&self) -> (r: String)
        ensures
            r@ == store_failure(*self),
    {
        match self {
            StoreError::Unwritable => "Unwritable".to_owned(),
            StoreError::StorageWrite => "StorageWrite".to_owned(),
            StoreError::StorageDelete => "StorageDelete".to_owned(),
            StoreError::ConsistencyGap => "ConsistencyGap".to_owned(),
        }
    }

    /// The answer to a change that did not reach the stores for this reason.
    pub fn answer(&self) -> (r: ApiError)
        ensures
            is_store_answer(r, *self),
    {
        match self {
            StoreError::ConsistencyGap => ApiError::Database(self.describe()),
            _ => ApiError::Storage(self.describe()),
        }
    }
}

/// Whether `r` is what a page shows as an avatar, given what the object
/// store answered: the image where there is one that can be read, and
/// otherwise a failure of the storage that says what is wrong.
pub open spec fn is_avatar(r: Result<String, ApiError>, fetched: Fetched) -> bool {
    match fetched {
        Fetched::Found(blob) => match unpacked(blob@) {
            Some(image) => r matches Ok(text) && text@ == image,
            None => r matches Err(ApiError::Storage(why)) && why@ == load_failure(
                LoadError::Deserialization,
            ),
        },
        Fetched::Missing => r matches Err(ApiError::Storage(why)) && why@ == load_failure(
            LoadError::NotFound,
        ),
        Fetched::Failed => r matches Err(ApiError::Storage(why)) && why@ == load_failure(
            LoadError::StorageRead,
        ),
    }
}

/// The avatar that a page shows: see [`is_avatar`].
pub fn avatar_text(fetched: Fetched) -> (r: Result<String, ApiError>)
    ensures
        is_avatar(r, fetched),
{
    match fetched {
        Fetched::Found(blob) => match unpack_text(&blob) {
            Some(image) => Ok(image),
            None => Err(ApiError::Storage(LoadError::Deserialization.describe())),
        },
        Fetched::Missing => Err(ApiError::Storage(LoadError::NotFound.describe())),
        Fetched::Failed => Err(ApiError::Storage(LoadError::StorageRead.describe())),
    }
}

} // verus!
