//! What record a timed query produces under each logging mode.
use vstd::prelude::*;

use crate::mode::DbLogMode;

verus! {

/// The number of characters of a query that `ExcessiveMini` keeps.
pub const MINI_QUERY_CHARS: usize = 40;

/// From this many whole seconds on a query counts as slow: its sentence gives
/// seconds, and `Standard` raises it from debug to info.
pub const SLOW_SECS: u64 = 1;

/// From this many whole seconds on `Standard` raises a record to a warning.
pub const VERY_SLOW_SECS: u64 = 5;

/// How long a query ran: whole seconds and the nanoseconds past them.
#[derive(Debug, Clone, Copy, PartialEq, Eq, Structural)]
pub struct Elapsed {
    pub secs: u64,
    pub subsec_nanos: u32,
}

impl Elapsed {
    /// The nanosecond part is a fraction of a second.
    pub open spec fn wf(&self) -> bool {
        self.subsec_nanos < 1_000_000_000
    }
}

/// Where a record goes: a level of the severity-filtered logger, or the
/// always-on console.
#[derive(Debug, Clone, Copy, PartialEq, Eq, Structural)]
pub enum Channel {
    Debug,
    Info,
    Warn,
    Console,
}

/// Which sentence a record uses for the duration.
#[derive(Debug, Clone, Copy, PartialEq, Eq, Structural)]
pub enum Template {
    /// "Query ran in {ms} ms: {query}"
    Millis,
    /// "Slow query ran in {secs} seconds: {query}"
    Seconds,
}

/// The channel that `mode` picks for a query that ran `secs` whole seconds.
pub open spec fn channel_of(mode: DbLogMode, secs: u64) -> Channel
    recommends
        mode != DbLogMode::NoLog,
{
    match mode {
        DbLogMode::Standard => if secs >= VERY_SLOW_SECS {
            Channel::Warn
        } else if secs >= SLOW_SECS {
            Channel::Info
        } else {
            Channel::Debug
        },
        DbLogMode::Verbose => Channel::Warn,
        _ => Channel::Console,
    }
}

/// The sentence used for a query that ran `secs` whole seconds: the same in
/// every mode.
pub open spec fn template_of(secs: u64) -> Template {
    if secs >= SLOW_SECS {
        Template::Seconds
    } else {
        Template::Millis
    }
}

/// The query text as `mode` shows it.
pub open spec fn shown_query(mode: DbLogMode, query: Seq<char>) -> Seq<char> {
    if mode == DbLogMode::ExcessiveMini && query.len() > MINI_QUERY_CHARS {
        query.take(MINI_QUERY_CHARS as int)
    } else {
        query
    }
}

/// The channel that `mode` picks for a query that ran for `elapsed`.
pub fn channel_for(mode: DbLogMode, elapsed: &Elapsed) -> (r: Channel)
    requires
        mode != DbLogMode::NoLog,
    ensures
        r == channel_of(mode, elapsed.secs),
{
    match mode {
        DbLogMode::Standard => {
            if elapsed.secs >= VERY_SLOW_SECS {
                Channel::Warn
            } else if elapsed.secs >= SLOW_SECS {
                Channel::Info
            } else {
                Channel::Debug
            }
        },
        DbLogMode::Verbose => Channel::Warn,
        _ => Channel::Console,
    }
}

/// The sentence used for a query that ran for `elapsed`.
pub fn template_for(elapsed: &Elapsed) -> (r: Template)
    ensures
        r == template_of(elapsed.secs),
{
    if elapsed.secs >= SLOW_SECS {
        Template::Seconds
    } else {
        Template::Millis
    }
}

/// The query text as `mode` shows it: `ExcessiveMini` keeps its first
/// characters, every other mode the whole of it.
pub fn shorten_query(mode: DbLogMode, query: &str) -> (r: String)
    ensures
        r@ == shown_query(mode, query@),
{
    if mode == DbLogMode::ExcessiveMini {
        let n = query.unicode_len();
        if n > MINI_QUERY_CHARS {
            let head = query.substring_char(0, MINI_QUERY_CHARS);
            return String::from_str(head);
        }
    }
    String::from_str(query)
}

/// One record about one timed query: where it goes, which sentence it uses,
/// how long the query ran, the query text as shown, and the wall-clock time at
/// which the query started, where the clock could be read.
#[derive(Debug)]
pub struct QueryLog {
    pub channel: Channel,
    pub template: Template,
    pub elapsed: Elapsed,
    pub query: String,
    pub started_at: Option<String>,
}

/// The record that `mode` makes of `query`, which ran for `elapsed`.
pub open spec fn is_record_of(r: QueryLog, mode: DbLogMode, query: Seq<char>, elapsed: Elapsed) -> bool {
    &&& r.channel == channel_of(mode, elapsed.secs)
    &&& r.template == template_of(elapsed.secs)
    &&& r.elapsed == elapsed
    &&& r.query@ == shown_query(mode, query)
}

/// Decides the record of a query that ran for `elapsed` from `started_at`
/// under `mode`. Logging is off under `NoLog`, so there is no record to make
/// then: a caller asks `do_not_log` first.
pub fn log_query(query: &str, elapsed: Elapsed, started_at: Option<String>, mode: DbLogMode) -> (r:
    QueryLog)
    requires
        mode != DbLogMode::NoLog,
    ensures
        is_record_of(r, mode, query@, elapsed),
        r.started_at == started_at,
        mode == DbLogMode::Standard && elapsed.secs >= 5 ==> r.channel == Channel::Warn,
        mode == DbLogMode::Standard && 1 <= elapsed.secs < 5 ==> r.channel == Channel::Info,
        mode == DbLogMode::Standard && elapsed.secs < 1 ==> r.channel == Channel::Debug,
        mode == DbLogMode::Verbose ==> r.channel == Channel::Warn,
        mode == DbLogMode::Excessive || mode == DbLogMode::ExcessiveMini ==> r.channel
            == Channel::Console,
        elapsed.secs >= 1 <==> r.template == Template::Seconds,
        mode == DbLogMode::ExcessiveMini && query@.len() > 40 ==> r.query@ == query@.take(40),
        mode != DbLogMode::ExcessiveMini || query@.len() <= 40 ==> r.query@ == query@,
{
    QueryLog {
        channel: channel_for(mode, &elapsed),
        template: template_for(&elapsed),
        elapsed,
        query: shorten_query(mode, query),
        started_at,
    }
}

/// The words of a sentence up to the query text, with the duration `figure`.
pub open spec fn sentence_lead(template: Template, figure: Seq<char>) -> Seq<char> {
    match template {
        Template::Seconds => "Slow query ran in "@ + figure + " seconds: "@,
        Template::Millis => "Query ran in "@ + figure + " ms: "@,
    }
}

/// The text of a record whose duration reads `figure`.
pub open spec fn message_text(r: QueryLog, figure: Seq<char>) -> Seq<char> {
    let body = sentence_lead(r.template, figure) + r.query@;
    match (r.channel, r.started_at) {
        (Channel::Console, Some(t)) => "["@ + t@ + "]: "@ + body,
        _ => body,
    }
}

impl QueryLog {
    /// The text of this record, where `figure` is its duration as it is to be
    /// read: in seconds for the `Seconds` sentence, in milliseconds for the
    /// `Millis` one.
    pub fn message(&self, figure: &str) -> (r: String)
        ensures
            r@ == message_text(*self, figure@),
    {
        let mut body = match self.template {
            Template::Seconds => String::from_str("Slow query ran in "),
            Template::Millis => String::from_str("Query ran in "),
        };
        body.append(figure);
        match self.template {
            Template::Seconds => body.append(" seconds: "),
            Template::Millis => body.append(" ms: "),
        }
        body.append(self.query.as_str());
        if self.channel == Channel::Console && self.started_at.is_some() {
            let mut line = String::from_str("[");
            line.append(self.started_at.as_ref().unwrap().as_str());
            line.append("]: ");
            line.append(body.as_str());
            assert(line@ =~= message_text(*self, figure@));
            line
        } else {
            assert(body@ =~= message_text(*self, figure@));
            body
        }
    }
}

/// Under `ExcessiveMini` the printed line is the bracketed start time, the
/// sentence (the sentence alone where the clock could not be read), and then the first forty characters of a longer query, or the
/// whole of a query of forty characters or fewer, and nothing after them.
pub proof fn lemma_mini_line_holds_query_head(
    r: QueryLog,
    query: Seq<char>,
    elapsed: Elapsed,
    started_at: String,
    figure: Seq<char>,
)
    requires
        is_record_of(r, DbLogMode::ExcessiveMini, query, elapsed),
        r.started_at == Some(started_at),
    ensures
        query.len() > 40 ==> message_text(r, figure) == "["@ + started_at@ + "]: "@
            + sentence_lead(r.template, figure) + query.take(40),
        query.len() <= 40 ==> message_text(r, figure) == "["@ + started_at@ + "]: "@
            + sentence_lead(r.template, figure) + query,
{
    assert(r.channel == Channel::Console);
}

} // verus!
