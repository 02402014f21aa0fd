//! A test harness for CockroachDB: it starts a database for the time of a test,
//! finds out where that database listens, and cleans it up afterwards. It also
//! brings the binary of one particular version.
//!
//! What the harness decides and computes stands here. Processes, files and
//! connections are the caller's: a start, a cleanup and a download are each a
//! machine that is told what happened and says what to do next.

pub mod builder;
pub mod checksums;
pub mod command;
pub mod download;
pub mod environment;
pub mod error;
pub mod exit;
pub mod instance;
pub mod paths;
pub mod pg_config;
pub mod release;
pub mod start;
pub mod starter;
pub mod text;
pub mod version;

pub use builder::CockroachStarterBuilder;
pub use error::CockroachStartError;
pub use instance::CockroachInstance;
pub use pg_config::PostgresConfig;
pub use starter::CockroachStarter;
pub use version::check_db_version;
