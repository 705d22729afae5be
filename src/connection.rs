//! A connection wrapper that times and logs the queries it forwards.
use vstd::prelude::*;

use crate::clock::{elapsed_since, ends_with_utc, wall_clock_now};
use crate::mode::DbLogMode;
use crate::policy::{is_record_of, log_query, QueryLog};

verus! {

/// Owns a database connection and the mode in which the queries sent through
/// it are logged.
pub struct LoggingConnection<C> {
    pub conn: C,
    pub log_mode: DbLogMode,
}

/// `rec` is a record that `mode` makes of the text that `render` gave for
/// `source`, for some duration that the clock gave, with the wall-clock time,
/// where it could be read, written out in UTC.
pub open spec fn is_logged_call<T, Q: FnOnce(&T) -> String>(
    rec: QueryLog,
    mode: DbLogMode,
    render: Q,
    source: T,
) -> bool {
    exists|q: String|
        #[trigger] render.ensures((&source,), q) && is_timed_record(rec) && is_record_of(
            rec,
            mode,
            q@,
            rec.elapsed,
        )
}

/// What holds of the measured parts of a record: a well-formed duration, and a
/// start time written out in UTC.
pub open spec fn is_timed_record(rec: QueryLog) -> bool {
    &&& rec.elapsed.wf()
    &&& (rec.started_at matches Some(t) ==> ends_with_utc(t@))
}

/// What a call of `run_logged` on `c` with `source`, `render` and `op` hands
/// back: what `op` returned for `source` on the wrapped connection, with no
/// record under `NoLog`, and otherwise the record that the mode makes of the
/// rendered query.
pub open spec fn is_run_of<C, T, R, Q: FnOnce(&T) -> String, F: FnOnce(&C, T) -> R>(
    c: &LoggingConnection<C>,
    source: T,
    render: Q,
    op: F,
    r: (R, Option<QueryLog>),
) -> bool {
    &&& op.ensures((&c.conn, source), r.0)
    &&& (r.1 is None <==> c.log_mode == DbLogMode::NoLog)
    &&& (r.1 is Some ==> is_logged_call(r.1->0, c.log_mode, render, source))
}

/// The mode that `set_log_mode(m)` leaves governs the next call, which makes a
/// record exactly when `m` is not `NoLog`, makes it as `m` says, and returns
/// what the connection returned; a call that completed before keeps what it
/// returned and recorded.
pub proof fn lemma_set_log_mode_governs_next_call<
    C,
    T,
    R,
    Q: FnOnce(&T) -> String,
    F: FnOnce(&C, T) -> R,
>(
    before: LoggingConnection<C>,
    m: DbLogMode,
    after: LoggingConnection<C>,
    source: T,
    render: Q,
    op: F,
    r: (R, Option<QueryLog>),
    earlier_source: T,
    earlier_render: Q,
    earlier_op: F,
    earlier: (R, Option<QueryLog>),
)
    requires
        after.log_mode == m,
        after.conn == before.conn,
        is_run_of(&after, source, render, op, r),
        is_run_of(&before, earlier_source, earlier_render, earlier_op, earlier),
    ensures
        op.ensures((&before.conn, source), r.0),
        r.1 is None <==> m == DbLogMode::NoLog,
        r.1 is Some ==> is_logged_call(r.1->0, m, render, source),
        is_run_of(&before, earlier_source, earlier_render, earlier_op, earlier),
{
}

/// Under `NoLog` a call makes no record, whatever the query and whatever the
/// connection returned, so the decision of `log_query`, which is owed only for
/// a mode that logs, is never reached.
pub proof fn lemma_nolog_makes_no_record<
    C,
    T,
    R,
    Q: FnOnce(&T) -> String,
    F: FnOnce(&C, T) -> R,
>(c: LoggingConnection<C>, source: T, render: Q, op: F, r: (R, Option<QueryLog>))
    requires
        c.log_mode == DbLogMode::NoLog,
        is_run_of(&c, source, render, op, r),
    ensures
        r.1 is None,
        op.ensures((&c.conn, source), r.0),
{
}

impl<C> LoggingConnection<C> {
    /// Wraps `conn`, logging in `log_mode`.
    pub fn new(conn: C, log_mode: DbLogMode) -> (r: Self)
        ensures
            r.conn == conn,
            r.log_mode == log_mode,
    {
        LoggingConnection { conn, log_mode }
    }

    /// Replaces the mode; the connection stays as it is.
    pub fn set_log_mode(&mut self, log_mode: DbLogMode)
        ensures
            final(self).log_mode == log_mode,
            final(self).conn == old(self).conn,
    {
        self.log_mode = log_mode;
    }

    /// Runs `op` on the wrapped connection for the query `source` and hands
    /// back what it returned, whether success or failure, together with the
    /// record to emit, if any.
    ///
    /// Under `NoLog` the query is neither rendered nor timed, and there is no
    /// record. Under any other mode `render` gives the query's text, the wall
    /// clock and the monotonic clock are read before `op` runs, and the record
    /// is what the mode makes of that text and of the time `op` took.
    pub fn run_logged<T, R, Q, F>(&self, source: T, render: Q, op: F) -> (r: (
        R,
        Option<QueryLog>,
    )) where Q: FnOnce(&T) -> String, F: FnOnce(&C, T) -> R
        requires
            self.log_mode != DbLogMode::NoLog ==> render.requires((&source,)),
            op.requires((&self.conn, source)),
        ensures
            is_run_of(self, source, render, op, r),
            op.ensures((&self.conn, source), r.0),
            r.1 is None <==> self.log_mode == DbLogMode::NoLog,
            r.1 is Some ==> is_logged_call(r.1->0, self.log_mode, render, source),
    {
        if self.log_mode.do_not_log() {
            (op(&self.conn, source), None)
        } else {
            let query = render(&source);
            let started_at = wall_clock_now();
            let start = std::time::Instant::now();
            let result = op(&self.conn, source);
            let elapsed = elapsed_since(&start);
            let rec = log_query(query.as_str(), elapsed, started_at, self.log_mode);
            (result, Some(rec))
        }
    }

    /// Runs `op` on the wrapped connection for the SQL text `query`, which is
    /// its own rendering, and hands back what `op` returned together with the
    /// record to emit, if any: none under `NoLog`, and otherwise the record
    /// that the mode makes of `query` and of the time `op` took.
    pub fn execute_logged<'a, R, F>(&self, query: &'a str, op: F) -> (r: (R, Option<QueryLog>)) where
        F: FnOnce(&C, &'a str) -> R,

        requires
            op.requires((&self.conn, query)),
        ensures
            op.ensures((&self.conn, query), r.0),
            r.1 is None <==> self.log_mode == DbLogMode::NoLog,
            r.1 is Some ==> is_timed_record(r.1->0) && is_record_of(
                r.1->0,
                self.log_mode,
                query@,
                r.1->0.elapsed,
            ),
    {
        let render = |q: &&'a str| -> (s: String)
            ensures
                s@ == q@,
            { String::from_str(*q) };
        self.run_logged(query, render, op)
    }
}

} // verus!
