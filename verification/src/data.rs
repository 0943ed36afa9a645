//! Queries against the two stores: what a query asks of the object store or
//! of the relational store, and what the store's answer means.

use crate::chat::Bucket;
use crate::text::{are_items, lemma_listed_undoes_joined, listed, split_list, texts};
use crate::time::{moment_from_text, parsed_moment};
use crate::user::{record_params, User, UserView};
use std::marker::PhantomData;
use vstd::prelude::*;

verus! {

/// What a query asks of the object store.
pub enum R2QueryKind {
    /// Write these bytes.
    PutObject(Vec<u8>),
    /// Read the object.
    GetObject,
    /// Delete the object.
    DeleteObject,
}

/// The mathematical value of an [`R2QueryKind`].
pub ghost enum KindView {
    PutObject(Seq<u8>),
    GetObject,
    DeleteObject,
}

impl View for R2QueryKind {
    type V = KindView;

    open spec fn view(&self) -> KindView {
        match self {
            R2QueryKind::PutObject(bytes) => KindView::PutObject(bytes@),
            R2QueryKind::GetObject => KindView::GetObject,
            R2QueryKind::DeleteObject => KindView::DeleteObject,
        }
    }
}

/// The value inside an optional [`R2QueryKind`].
pub open spec fn kind_of(o: Option<R2QueryKind>) -> Option<KindView> {
    match o {
        Some(k) => Some(k@),
        None => None,
    }
}

/// The value inside an optional statement with its parameters.
pub open spec fn statement_of(o: Option<(String, Vec<String>)>) -> Option<
    (Seq<char>, Seq<Seq<char>>),
> {
    match o {
        Some(p) => Some((p.0@, texts(p.1@))),
        None => None,
    }
}

/// A query against either store.
pub trait Query {
    /// Whether the store answers the query with a record or an object.
    spec fn expects_result(&self) -> bool;

    fn has_result(&self) -> (r: bool)
        ensures
            r == self.expects_result(),
    ;
}

/// A query against the object store.
pub trait R2Query: Query {
    /// Whether the query is one for the object store at all.
    spec fn is_object_query(&self) -> bool;

    /// The key of the object.
    spec fn object_path(&self) -> Seq<char>;

    /// What is asked, or `None` where the object to write cannot be
    /// compressed.
    spec fn object_kind(&self) -> Option<KindView>;

    fn path(&self) -> (p: String)
        requires
            self.is_object_query(),
        ensures
            p@ == self.object_path(),
    ;

    fn kind(&self) -> (k: Option<R2QueryKind>)
        requires
            self.is_object_query(),
        ensures
            kind_of(k) == self.object_kind(),
    ;
}

/// A query against the relational store.
pub trait DBQuery: Query {
    /// Whether the query is one for the relational store at all.
    spec fn is_statement(&self) -> bool;

    /// The statement and its parameters, or `None` where a field of the
    /// record cannot be written down.
    spec fn statement(&self) -> Option<(Seq<char>, Seq<Seq<char>>)>;

    fn to_sql_query_string(&self) -> (r: Option<(String, Vec<String>)>)
        requires
            self.is_statement(),
        ensures
            statement_of(r) == self.statement(),
    ;
}

/// Why a query against the relational store gave no record.
#[derive(Debug)]
pub enum QueryError {
    InvalidQuery,
    NotFound,
    ServerError,
    /// The request did not get through; the text says why.
    Other(String),
}

/// The mathematical value of a [`QueryError`].
pub ghost enum QueryErrorView {
    InvalidQuery,
    NotFound,
    ServerError,
    Other(Seq<char>),
}

impl View for QueryError {
    type V = QueryErrorView;

    open spec fn view(&self) -> QueryErrorView {
        match self {
            QueryError::InvalidQuery => QueryErrorView::InvalidQuery,
            QueryError::NotFound => QueryErrorView::NotFound,
            QueryError::ServerError => QueryErrorView::ServerError,
            QueryError::Other(why) => QueryErrorView::Other(why@),
        }
    }
}

impl QueryError {
    /// A copy with the same value.
    pub fn duplicate(&self) -> (r: QueryError)
        ensures
            r@ == self@,
    {
        match self {
            QueryError::InvalidQuery => QueryError::InvalidQuery,
            QueryError::NotFound => QueryError::NotFound,
            QueryError::ServerError => QueryError::ServerError,
            QueryError::Other(why) => QueryError::Other(why.clone()),
        }
    }
}

/// A request to the object store.
pub struct R2Request {
    pub bucket: Bucket,
    pub path: String,
    pub kind: R2QueryKind,
}

/// The object store, seen through one of its buckets.
pub struct KolloquyR2 {
    bucket: Bucket,
}

impl KolloquyR2 {
    /// The object store, seen through `bucket`.
    pub fn new(bucket: Bucket) -> (r: KolloquyR2)
        ensures
            r.bucket() == bucket,
    {
        KolloquyR2 { bucket }
    }

    /// The bucket this store writes to and reads from.
    pub closed spec fn bucket(&self) -> Bucket {
        self.bucket
    }

    /// The request that carries `query` out against this bucket, or `None`
    /// where the object to write cannot be compressed.
    pub fn execute<Q: R2Query>(&self, query: &Q) -> (r: Option<R2Request>)
        requires
            query.is_object_query(),
        ensures
            r is Some <==> query.object_kind() is Some,
            r matches Some(request) ==> request.bucket == self.bucket() && request.path@
                == query.object_path() && Some(request.kind@) == query.object_kind(),
    {
        match query.kind() {
            Some(kind) => Some(R2Request { bucket: self.bucket, path: query.path(), kind }),
            None => None,
        }
    }
}

/// A request to the relational store: a statement and its parameters.
pub struct DbRequest {
    pub sql: String,
    pub params: Vec<String>,
}

/// The relational store.
pub struct KolloquyDB<'a>(PhantomData<&'a ()>);

/// The address of the query endpoint of the database `database_id` of the
/// account `account_id`.
pub open spec fn endpoint(account_id: Seq<char>, database_id: Seq<char>) -> Seq<char> {
    "https://api.cloudflare.com/client/v4/accounts/"@ + account_id + "/d1/database/"@
        + database_id + "/query"@
}

impl<'a> KolloquyDB<'a> {
    /// A handle on the relational store.
    pub fn new() -> (db: Self) {
        KolloquyDB(PhantomData)
    }

    /// Computes [`endpoint`].
    pub fn url(&self, account_id: &str, database_id: &str) -> (u: String)
        ensures
            u@ == endpoint(account_id@, database_id@),
    {
        let mut u = String::from_str("https://api.cloudflare.com/client/v4/accounts/");
        u.append(account_id);
        u.append("/d1/database/");
        u.append(database_id);
        u.append("/query");
        u
    }

    /// The request that carries `query` out, or `None` where a field of the
    /// record cannot be written down.
    pub fn execute<Q: DBQuery>(&self, query: &Q) -> (r: Option<DbRequest>)
        requires
            query.is_statement(),
        ensures
            match r {
                Some(request) => query.statement() == Some((request.sql@, texts(request.params@))),
                None => query.statement() is None,
            },
    {
        match query.to_sql_query_string() {
            Some((sql, params)) => Some(DbRequest { sql, params }),
            None => None,
        }
    }
}


/// One row of the table of users, as the relational store hands it out:
/// texts and non-negative numbers.
pub struct UserRow {
    pub email: String,
    pub handle: String,
    pub password: String,
    pub age: u64,
    pub country: String,
    pub preferences: String,
    pub suspended: u64,
    pub age_verified: u64,
    pub userid: String,
    pub phone_number: String,
    pub joined: String,
    pub description: String,
    pub last_agent: String,
    pub last_approx_country: String,
    pub avatar_url: String,
    pub email_verified: u64,
    pub last_login: String,
    pub failed_login_attempts: u64,
    pub locked_until: String,
    pub timezone: String,
    pub enrolled_chats: String,
}

/// Whether a number of a row stands for "yes": after the cut to 32 bits it
/// is 1.
pub open spec fn is_set(n: u64) -> bool {
    (n as i32) == 1
}

/// The user that a row stands for, or `None` where one of its three times
/// cannot be read. Numbers are cut to 32 bits; the rooms are the items of
/// the list that the text holds with commas between them, none for the
/// empty text.
pub open spec fn decoded_row(row: UserRow) -> Option<UserView> {
    match (
        parsed_moment(row.joined@),
        parsed_moment(row.last_login@),
        parsed_moment(row.locked_until@),
    ) {
        (Some(joined), Some(last_login), Some(locked_until)) => Some(
            UserView {
                email: row.email@,
                handle: row.handle@,
                password: row.password@,
                age: (row.age as i32) as int,
                country: row.country@,
                preferences: row.preferences@,
                suspended: is_set(row.suspended),
                age_verified: is_set(row.age_verified),
                user_id: row.userid@,
                phone_number: row.phone_number@,
                joined,
                description: row.description@,
                last_agent: row.last_agent@,
                last_approx_country: row.last_approx_country@,
                avatar_url: row.avatar_url@,
                email_verified: is_set(row.email_verified),
                last_login,
                failed_login_attempts: (row.failed_login_attempts as i32) as int,
                locked_until,
                timezone: row.timezone@,
                enrolled_chats: listed(row.enrolled_chats@, ','),
            },
        ),
        _ => None,
    }
}

/// The rooms of a user survive the record: where the ids are not empty and
/// hold no comma, the field that is written for them is read back as the
/// same ids, and a user without rooms is read back without rooms.
pub proof fn lemma_rooms_survive_the_record(u: UserView, row: UserRow)
    requires
        are_items(u.enrolled_chats, ','),
        record_params(u) matches Some(params) && row.enrolled_chats@ == params[20],
    ensures
        listed(row.enrolled_chats@, ',') == u.enrolled_chats,
        decoded_row(row) matches Some(read) ==> read.enrolled_chats == u.enrolled_chats,
{
    reveal_strlit(",");
    assert(","@ =~= seq![',']);
    lemma_listed_undoes_joined(u.enrolled_chats, ',');
}

fn low_bits(n: u64) -> (r: i32)
    ensures
        r == (n as i32),
{
    #[verifier::truncate]
    (n as i32)
}

impl UserRow {
    /// Computes [`decoded_row`].
    pub fn decode(&self) -> (r: Option<User>)
        ensures
            match r {
                Some(user) => decoded_row(*self) == Some(user@),
                None => decoded_row(*self) is None,
            },
    {
        let joined = match moment_from_text(self.joined.as_str()) {
            Some(t) => t,
            None => { return None; },
        };
        let last_login = match moment_from_text(self.last_login.as_str()) {
            Some(t) => t,
            None => { return None; },
        };
        let locked_until = match moment_from_text(self.locked_until.as_str()) {
            Some(t) => t,
            None => { return None; },
        };
        Some(
            User {
                email: self.email.clone(),
                handle: self.handle.clone(),
                password: self.password.clone(),
                age: low_bits(self.age),
                country: self.country.clone(),
                preferences: self.preferences.clone(),
                suspended: low_bits(self.suspended) == 1,
                age_verified: low_bits(self.age_verified) == 1,
                user_id: self.userid.clone(),
                phone_number: self.phone_number.clone(),
                joined,
                description: self.description.clone(),
                last_agent: self.last_agent.clone(),
                last_approx_country: self.last_approx_country.clone(),
                avatar_url: self.avatar_url.clone(),
                email_verified: low_bits(self.email_verified) == 1,
                last_login,
                failed_login_attempts: low_bits(self.failed_login_attempts),
                locked_until,
                timezone: self.timezone.clone(),
                enrolled_chats: split_list(self.enrolled_chats.as_str(), ','),
            },
        )
    }
}

/// What came back for a request to the relational store.
pub enum DbResponse {
    /// The request did not get through; the text says why.
    Unreachable(String),
    /// The store answered: whether it reports success, and for each
    /// statement the rows it gave, each as the row of a user or `None`
    /// where it is a row of another form.
    Reply { success: bool, result: Vec<Vec<Option<UserRow>>> },
}

/// Whether `r` is what the answer `response` means for a query that expects
/// a record (`wants`) or does not.
pub open spec fn is_answer(
    r: Result<Option<User>, QueryError>,
    wants: bool,
    response: DbResponse,
) -> bool {
    match response {
        DbResponse::Unreachable(why) => r matches Err(QueryError::Other(w)) && w@ == why@,
        DbResponse::Reply { success, result } => {
            if !success {
                r matches Err(QueryError::ServerError)
            } else if !wants {
                r matches Ok(None)
            } else if result@.len() == 0 || result@[0]@.len() == 0 {
                r matches Err(QueryError::NotFound)
            } else {
                match result@[0]@[0] {
                    Some(row) => match decoded_row(row) {
                        Some(user) => r matches Ok(Some(u)) && u@ == user,
                        None => r matches Err(QueryError::ServerError),
                    },
                    None => r matches Err(QueryError::ServerError),
                }
            }
        },
    }
}

impl<'a> KolloquyDB<'a> {
    /// What the store's answer to `query` means: a failed request and a
    /// reported failure are errors; a query that expects no record gives
    /// none; otherwise the first row of the first statement is the user, and
    /// its absence means that nothing was found. A first row that cannot be
    /// read counts as a failure of the store; no other row is looked at.
    pub fn interpret<Q: DBQuery>(&self, query: &Q, response: DbResponse) -> (r: Result<
        Option<User>,
        QueryError,
    >)
        ensures
            is_answer(r, query.expects_result(), response),
    {
        match response {
            DbResponse::Unreachable(why) => Err(QueryError::Other(why)),
            DbResponse::Reply { success, result } => {
                if !success {
                    Err(QueryError::ServerError)
                } else if !query.has_result() {
                    Ok(None)
                } else if result.len() == 0 {
                    Err(QueryError::NotFound)
                } else if result[0].len() == 0 {
                    Err(QueryError::NotFound)
                } else {
                    match &result[0][0] {
                        Some(row) => match row.decode() {
                            Some(user) => Ok(Some(user)),
                            None => Err(QueryError::ServerError),
                        },
                        None => Err(QueryError::ServerError),
                    }
                }
            },
        }
    }
}

} // verus!
