//! Pooled database handles built from declarative configuration.
//!
//! For PostgreSQL, a [`config::Config`] is turned into one pool: its secret
//! is resolved by a fixed precedence (a password file's trimmed text over an
//! inline password), and TLS with a client certificate is used exactly where
//! all three TLS files are named. For SQLite, access is split by role into a
//! read pool sized by configuration and a write pool bounded to a single
//! connection, so that at most one writer touches the file at a time.
pub mod config;
pub mod pool;
pub mod postgres;
pub mod sqlite;
pub mod su_sqlite;
pub mod text;
pub mod tls;
