//! Points in time and their written form.

use crate::codec::text_of;
use chrono::{DateTime, Utc};
use std::str::FromStr;
use vstd::prelude::*;

verus! {

/// A point in time: the whole seconds since the Unix epoch in UTC, and the
/// nanoseconds into the second. Within a leap second the nanoseconds go on
/// above a thousand million.
#[derive(Clone, Copy, Debug, PartialEq, Eq, Default)]
pub struct Moment {
    pub seconds: i64,
    pub nanos: u32,
}

/// The RFC 3339 text of the point in time at `nanos` nanoseconds into the
/// second `seconds`, as chrono writes it, or `None` where chrono cannot
/// represent the point.
pub uninterp spec fn rfc3339_text(seconds: int, nanos: int) -> Option<Seq<char>>;

/// The point in time that chrono reads from `text`, or `None` where chrono
/// rejects the text.
pub uninterp spec fn parsed_moment(text: Seq<char>) -> Option<Moment>;

/// The written form of a point in time.
pub open spec fn written(moment: Moment) -> Option<Seq<char>> {
    rfc3339_text(moment.seconds as int, moment.nanos as int)
}

/// Calls `chrono::DateTime::<Utc>::from_timestamp` and, on what it gives,
/// `to_rfc3339`. Not proved: that the result is the named function of the
/// seconds and the nanoseconds.
#[verifier::external_body]
pub(crate) fn rfc3339_of(moment: Moment) -> (r: Option<String>)
    ensures
        text_of(r) == rfc3339_text(moment.seconds as int, moment.nanos as int),
{
    match DateTime::<Utc>::from_timestamp(moment.seconds, moment.nanos) {
        Some(t) => Some(t.to_rfc3339()),
        None => None,
    }
}

/// Calls `DateTime::<Utc>::from_str` of chrono and, on what it gives,
/// `timestamp` and `timestamp_subsec_nanos`. Not proved: that the result is
/// the named function of `text`.
#[verifier::external_body]
pub(crate) fn moment_from_text(text: &str) -> (r: Option<Moment>)
    ensures
        r == parsed_moment(text@),
{
    match DateTime::<Utc>::from_str(text) {
        Ok(t) => Some(Moment { seconds: t.timestamp(), nanos: t.timestamp_subsec_nanos() }),
        Err(_) => None,
    }
}

impl Moment {
    /// The written form of this point in time, or `None` where it has none.
    pub fn to_rfc3339(&self) -> (r: Option<String>)
        ensures
            text_of(r) == written(*self),
    {
        rfc3339_of(*self)
    }
}

} // verus!
