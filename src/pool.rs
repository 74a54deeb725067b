//! Outside pool types that the handles carry, and the sizing that the
//! library reads from them.
use vstd::prelude::*;

verus! {

#[verifier::external_type_specification]
#[verifier::external_body]
#[verifier::reject_recursive_types(C)]
pub struct ExCreatePoolError<C>(deadpool::managed::CreatePoolError<C>);

#[verifier::external_type_specification]
#[verifier::external_body]
pub struct ExTimeouts(deadpool::managed::Timeouts);

#[verifier::external_type_specification]
#[verifier::external_body]
pub struct ExQueueMode(deadpool::managed::QueueMode);

/// Sizing of one pool: the bound on its connections, which the library
/// decides, and the timeouts and queue order, which it only passes on.
#[derive(Clone, Copy, Debug)]
pub struct PoolSizing {
    pub max_size: usize,
    pub timeouts: deadpool::managed::Timeouts,
    pub queue_mode: deadpool::managed::QueueMode,
}

/// Relies on `deadpool::managed::PoolConfig::default`, which sizes a pool at
/// twice the number of processors (at least one), with no timeouts and the
/// default queue order.
#[verifier::external_body]
pub(crate) fn default_sizing() -> (r: PoolSizing)
    ensures
        r.max_size >= 2,
{
    let p = deadpool::managed::PoolConfig::default();
    PoolSizing { max_size: p.max_size, timeouts: p.timeouts, queue_mode: p.queue_mode }
}

/// A pool of connections to one SQLite database file. deadpool's `Pool` is
/// held in a struct of this crate because its type parameters are bound by
/// deadpool's `Manager` trait, which a type declaration cannot name. The
/// inner pool is public so that callers can await connections from it; what
/// this crate states of a pool is what it was created with, and resizing or
/// closing it through `inner` is outside those statements.
#[verifier::external_body]
pub struct SqlitePool {
    pub inner: deadpool_sqlite::Pool,
}

/// The database file that every connection of `p` opens.
pub uninterp spec fn sqlite_pool_path(p: SqlitePool) -> Seq<char>;

/// The sizing that `p` was created with: its bound on live connections,
/// its timeouts and its queue order.
pub uninterp spec fn sqlite_pool_sizing(p: SqlitePool) -> PoolSizing;

/// Relies on `deadpool_sqlite::Config::create_pool`: its configuration error
/// type is `Infallible` and building fails only when timeouts are set without
/// a runtime, so with the Tokio runtime it always succeeds; the pool opens
/// `path` and keeps the sizing it is given.
#[verifier::external_body]
pub(crate) fn create_sqlite_pool(path: &str, sizing: &PoolSizing) -> (r: Result<
    SqlitePool,
    deadpool_sqlite::CreatePoolError,
>)
    ensures
        r is Ok,
        r is Ok ==> sqlite_pool_path(r->Ok_0) == path@ && sqlite_pool_sizing(r->Ok_0) == *sizing,
{
    let pool = Some(
        deadpool_sqlite::PoolConfig {
            max_size: sizing.max_size,
            timeouts: sizing.timeouts,
            queue_mode: sizing.queue_mode,
        },
    );
    let config = deadpool_sqlite::Config { path: std::path::PathBuf::from(path), pool };
    config.create_pool(deadpool_sqlite::Runtime::Tokio1).map(|inner| SqlitePool { inner })
}

} // verus!
