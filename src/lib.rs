//! Timing and logging around the queries of a database connection.
//!
//! The library decides, for a configured [`DbLogMode`], whether a query is
//! timed, on which channel its record goes and what text it carries, and it
//! runs each operation of the wrapped connection so that the result of the
//! connection comes back untouched.
mod clock;
pub mod connection;
pub mod mode;
pub mod policy;

pub use connection::LoggingConnection;
pub use mode::DbLogMode;
