//! Points in time, and how they are written for a camera.

use std::fmt::Write;

use vstd::prelude::*;

use crate::domain::opt_view;

verus! {

/// A point in time without a zone: whole seconds since 1970-01-01 00:00:00
/// and the nanoseconds after them.
#[derive(Debug, Clone, Copy, PartialEq, Eq, Structural)]
pub struct Timestamp {
    pub secs: i64,
    pub nanos: u32,
}

/// What `chrono` writes for the time `secs` and `nanos` under the `strftime`
/// pattern `pattern`; `None` where the time is out of its range or the
/// pattern is not one.
pub uninterp spec fn formatted_time(secs: int, nanos: int, pattern: Seq<char>) -> Option<Seq<char>>;

/// `chrono::DateTime::from_timestamp`, then `NaiveDateTime::format` on its
/// naive time, written out: the text that the name `formatted_time` stands
/// for. `chrono` documents the first to return `None` out of range and the
/// second to fail only when it is written, which is caught here.
#[verifier::external_body]
fn format_timestamp(secs: i64, nanos: u32, pattern: &str) -> (text: Option<String>)
    ensures
        opt_view(text) == formatted_time(secs as int, nanos as int, pattern@),
{
    let moment = chrono::DateTime::from_timestamp(secs, nanos)?;
    let mut text = String::new();
    write!(text, "{}", moment.naive_utc().format(pattern)).ok()?;
    Some(text)
}

impl Timestamp {
    /// The time written under `pattern`, where it can be.
    pub open spec fn spec_format(&self, pattern: Seq<char>) -> Option<Seq<char>> {
        formatted_time(self.secs as int, self.nanos as int, pattern)
    }

    /// Writes the time under the `strftime` pattern `pattern`; `None` where
    /// the time is out of range or the pattern is not one.
    pub fn format(&self, pattern: &str) -> (text: Option<String>)
        ensures
            opt_view(text) == self.spec_format(pattern@),
    {
        format_timestamp(self.secs, self.nanos, pattern)
    }
}

} // verus!
