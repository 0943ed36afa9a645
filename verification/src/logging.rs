//! The request log: one line per request, kept in a file.

use crate::text::{join, joined, texts};
use vstd::prelude::*;

verus! {

/// Where the log is kept.
#[derive(Debug, Clone)]
pub enum LoggingPersistence {
    MemoryOnly,
    /// In the file at this path.
    LogFileOnly(String),
    /// In the file at this path and in memory.
    LogFileAndMemory(String),
}

/// The format of the log.
#[derive(Eq, PartialEq, Ord, PartialOrd, Hash, Clone, Debug, Copy)]
pub enum LoggingFormat {
    /// One line for each request.
    LBL,
    /// One line for each request, compressed.
    CompressedLBL,
}

/// The settings of the request log.
pub struct LoggingMiddleware {
    pub persistence: LoggingPersistence,
    pub format: LoggingFormat,
}

/// An endpoint whose requests are logged.
pub struct LoggedEndpoint<E> {
    inner: E,
    persistence: LoggingPersistence,
    format: LoggingFormat,
}

/// What is known of a request when it is logged. The time is written out
/// already; every header value is written as the log shows it.
pub struct RequestFacts {
    pub time: String,
    pub scheme: String,
    pub method: String,
    pub path: String,
    pub params: Vec<(String, String)>,
    pub remote: String,
    pub headers: Vec<(String, String)>,
}

/// What `to_ascii_uppercase` of std makes of a character.
pub open spec fn upper_char(c: char) -> char {
    if 'a' <= c <= 'z' {
        ((c as u8) - 32) as char
    } else {
        c
    }
}

/// `text` with its letters from `a` to `z` in upper case.
pub open spec fn upper(text: Seq<char>) -> Seq<char> {
    Seq::new(text.len(), |i: int| upper_char(text[i]))
}

/// Calls `str::to_ascii_uppercase`. Not proved: that the letters from `a` to
/// `z` become upper case and every other character stays.
#[verifier::external_body]
fn to_upper(text: &str) -> (r: String)
    ensures
        r@ == upper(text@),
{
    text.to_ascii_uppercase()
}

/// A name and its value as the log shows them.
pub open spec fn pair_text(p: (String, String)) -> Seq<char> {
    p.0@ + "="@ + p.1@
}

/// The pairs as the log shows them, with commas between them.
pub open spec fn pairs_text(pairs: Seq<(String, String)>) -> Seq<char> {
    joined(Seq::new(pairs.len(), |i: int| pair_text(pairs[i])), ","@)
}

fn write_pairs(pairs: &Vec<(String, String)>) -> (s: String)
    ensures
        s@ == pairs_text(pairs@),
{
    let mut shown: Vec<String> = Vec::new();
    let mut i: usize = 0;
    while i < pairs.len()
        invariant
            i <= pairs.len(),
            shown@.len() == i,
            forall|j: int| 0 <= j < i ==> shown@[j]@ == pair_text(pairs@[j]),
        decreases pairs.len() - i,
    {
        let mut one = pairs[i].0.clone();
        one.append("=");
        one.append(pairs[i].1.as_str());
        shown.push(one);
        i += 1;
    }
    assert(texts(shown@) =~= Seq::new(pairs@.len(), |i: int| pair_text(pairs@[i])));
    join(&shown, ",")
}

/// The line that the log gets for a request.
pub open spec fn line_of(r: RequestFacts) -> Seq<char> {
    "["@ + r.time@ + "] "@ + upper(r.scheme@) + " "@ + upper(r.method@) + " PATH "@ + r.path@
        + " PARAMS "@ + pairs_text(r.params@) + " FROM "@ + r.remote@ + " HEADERS "@ + pairs_text(
        r.headers@,
    )
}

/// The content of the log file after `line` was added to `existing`: the
/// line alone in an empty file, else on a new line behind what was there.
pub open spec fn appended(existing: Seq<u8>, line: Seq<u8>) -> Seq<u8> {
    if existing.len() == 0 {
        line
    } else {
        existing + seq![10u8] + line
    }
}

impl LoggingMiddleware {
    /// Wraps `endpoint` so that its requests are logged under these
    /// settings.
    pub fn transform<E>(&self, endpoint: E) -> (logged: LoggedEndpoint<E>)
        ensures
            logged.inner() == endpoint,
            logged.format() == self.format,
            logged.persistence() == self.persistence,
    {
        let persistence = match &self.persistence {
            LoggingPersistence::MemoryOnly => LoggingPersistence::MemoryOnly,
            LoggingPersistence::LogFileOnly(path) => LoggingPersistence::LogFileOnly(path.clone()),
            LoggingPersistence::LogFileAndMemory(path) => LoggingPersistence::LogFileAndMemory(
                path.clone(),
            ),
        };
        LoggedEndpoint { inner: endpoint, persistence, format: self.format }
    }
}

impl<E> LoggedEndpoint<E> {
    pub closed spec fn inner(&self) -> E {
        self.inner
    }

    pub closed spec fn format(&self) -> LoggingFormat {
        self.format
    }

    pub closed spec fn persistence(&self) -> LoggingPersistence {
        self.persistence
    }

    /// The endpoint that is logged.
    pub fn endpoint(&self) -> (e: &E)
        ensures
            *e == self.inner(),
    {
        &self.inner
    }

    /// Where the log of this endpoint is kept.
    pub fn kept_in(&self) -> (p: &LoggingPersistence)
        ensures
            *p == self.persistence(),
    {
        &self.persistence
    }

    /// The line to log for `request` and the file to add it to. Only a log
    /// that is kept in a file alone can be written.
    pub fn call(&self, request: &RequestFacts) -> (r: (String, String))
        requires
            self.persistence() is LogFileOnly,
        ensures
            self.persistence() matches LoggingPersistence::LogFileOnly(path) && r.0@ == path@,
            r.1@ == line_of(*request),
    {
        let file = match &self.persistence {
            LoggingPersistence::LogFileOnly(path) => path.clone(),
            _ => String::new(),
        };
        let mut line = String::from_str("[");
        line.append(request.time.as_str());
        line.append("] ");
        line.append(to_upper(request.scheme.as_str()).as_str());
        line.append(" ");
        line.append(to_upper(request.method.as_str()).as_str());
        line.append(" PATH ");
        line.append(request.path.as_str());
        line.append(" PARAMS ");
        line.append(write_pairs(&request.params).as_str());
        line.append(" FROM ");
        line.append(request.remote.as_str());
        line.append(" HEADERS ");
        line.append(write_pairs(&request.headers).as_str());
        (file, line)
    }
}

/// Computes [`appended`].
pub fn append_line(existing: &Vec<u8>, line: &Vec<u8>) -> (content: Vec<u8>)
    ensures
        content@ == appended(existing@, line@),
{
    let mut content: Vec<u8> = Vec::new();
    if existing.len() > 0 {
        content.extend_from_slice(existing.as_slice());
        content.push(10u8);
    }
    content.extend_from_slice(line.as_slice());
    assert(content@ =~= appended(existing@, line@));
    content
}

} // verus!
