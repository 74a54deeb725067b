//! An SQLite handle with a single pool for every role.
use vstd::prelude::*;

use crate::pool::{create_sqlite_pool, default_sizing, sqlite_pool_path, sqlite_pool_sizing, SqlitePool};
use crate::su_sqlite::Config;

verus! {

/// The error that stops a handle from being built.
pub enum CreateHandleError {
    /// The pool library refused the configuration.
    Pool(deadpool_sqlite::CreatePoolError),
}

/// One pool on one SQLite file.
pub struct Handle {
    pub pool: SqlitePool,
}

impl Handle {
    /// Creates the pool on the file that `config` names, sized as `config`
    /// asks, or by the pool library's default. This cannot fail.
    pub fn new(config: Config) -> (r: Result<Handle, CreateHandleError>)
        ensures
            r is Ok,
            r is Ok ==> sqlite_pool_path(r->Ok_0.pool) == config.name@,
            r is Ok && config.pool_config is Some ==> sqlite_pool_sizing(r->Ok_0.pool)
                == config.pool_config->Some_0,
            r is Ok && config.pool_config is None ==> sqlite_pool_sizing(r->Ok_0.pool).max_size
                >= 2,
    {
        let sizing = match config.pool_config {
            Some(sizing) => sizing,
            None => default_sizing(),
        };
        match create_sqlite_pool(config.name.as_str(), &sizing) {
            Ok(pool) => Ok(Handle { pool }),
            Err(e) => Err(CreateHandleError::Pool(e)),
        }
    }
}

} // verus!
