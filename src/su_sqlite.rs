//! An SQLite handle split by role: a read pool sized by configuration, and a
//! write pool that never holds more than one connection, both on one file.
use vstd::prelude::*;

use crate::pool::{
    create_sqlite_pool, default_sizing, sqlite_pool_path, sqlite_pool_sizing, PoolSizing, SqlitePool,
};

verus! {

/// Which of a handle's pools a connection is drawn from.
#[derive(Clone, Copy, Debug, PartialEq, Eq, Structural)]
pub enum Role {
    Read,
    Write,
}

/// Marker for work done on a connection of the write pool.
pub struct WriteObject();

/// Where a database is, and optionally how its read pool is sized.
pub struct Config {
    pub name: String,
    pub pool_config: Option<PoolSizing>,
}

/// The sizing of the write pool that goes with a read pool sized `read`:
/// the same in every respect but the bound, which is one.
pub open spec fn write_sizing_for(read: PoolSizing) -> PoolSizing {
    PoolSizing { max_size: 1, ..read }
}

/// However many connections are asked for, the write pool derived from a
/// sizing holds one, and keeps that sizing's timeouts and queue order.
pub proof fn lemma_write_request_overridden(requested: PoolSizing)
    requires
        requested.max_size > 1,
    ensures
        write_sizing_for(requested).max_size == 1,
        write_sizing_for(requested).timeouts == requested.timeouts,
        write_sizing_for(requested).queue_mode == requested.queue_mode,
{
}

/// What a builder or a handle has decided: the database file and the sizing
/// of each pool.
pub struct PoolPlan {
    pub database: Seq<char>,
    pub read: PoolSizing,
    pub write: PoolSizing,
}

/// Collects the sizing of both pools before they are created.
pub struct HandleBuilder {
    database: String,
    write_config: PoolSizing,
    read_config: PoolSizing,
}

impl View for HandleBuilder {
    type V = PoolPlan;

    closed spec fn view(&self) -> PoolPlan {
        PoolPlan { database: self.database@, read: self.read_config, write: self.write_config }
    }
}

impl HandleBuilder {
    #[verifier::type_invariant]
    spec fn inv(&self) -> bool {
        self.write_config.max_size == 1
    }

    /// A builder for `database` with the pool library's default sizing for
    /// reads, and the same sizing bounded to one connection for writes.
    pub fn new(database: String) -> (r: HandleBuilder)
        ensures
            r@.database == database@,
            r@.read.max_size >= 2,
            r@.write == write_sizing_for(r@.read),
    {
        let read_config = default_sizing();
        let write_config = PoolSizing { max_size: 1, ..read_config };
        HandleBuilder { database, write_config, read_config }
    }

    /// A builder for the database that `config` names, whose read pool is
    /// sized as `config` asks (or by default), and whose write pool is sized
    /// the same but bounded to one connection, whatever `config` asked.
    pub fn from_config(config: Config) -> (r: HandleBuilder)
        ensures
            r@.database == config.name@,
            config.pool_config is Some ==> r@.read == config.pool_config->Some_0,
            config.pool_config is None ==> r@.read.max_size >= 2,
            r@.write == write_sizing_for(r@.read),
    {
        let read_config = match config.pool_config {
            Some(sizing) => sizing,
            None => default_sizing(),
        };
        let write_config = PoolSizing { max_size: 1, ..read_config };
        HandleBuilder { database: config.name, write_config, read_config }
    }

    /// Bounds the read pool to `pool_max_size` connections.
    pub fn set_read_pool_max_size(self, pool_max_size: usize) -> (r: HandleBuilder)
        ensures
            r@ == (PoolPlan { read: PoolSizing { max_size: pool_max_size, ..self@.read }, ..self@ }),
    {
        proof {
            use_type_invariant(&self);
        }
        let read_config = PoolSizing { max_size: pool_max_size, ..self.read_config };
        HandleBuilder { database: self.database, write_config: self.write_config, read_config }
    }

    /// Sets the timeouts of the read pool.
    pub fn set_read_pool_timeouts(self, timeouts: deadpool::managed::Timeouts) -> (r:
        HandleBuilder)
        ensures
            r@ == (PoolPlan { read: PoolSizing { timeouts, ..self@.read }, ..self@ }),
    {
        proof {
            use_type_invariant(&self);
        }
        let read_config = PoolSizing { timeouts, ..self.read_config };
        HandleBuilder { database: self.database, write_config: self.write_config, read_config }
    }

    /// Sets the timeouts of the write pool.
    pub fn set_write_pool_timeouts(self, timeouts: deadpool::managed::Timeouts) -> (r:
        HandleBuilder)
        ensures
            r@ == (PoolPlan { write: PoolSizing { timeouts, ..self@.write }, ..self@ }),
    {
        proof {
            use_type_invariant(&self);
        }
        let write_config = PoolSizing { timeouts, ..self.write_config };
        HandleBuilder { database: self.database, write_config, read_config: self.read_config }
    }

    /// Sets the order in which the read pool serves waiting callers.
    pub fn set_read_pool_queue_mode(self, queue_mode: deadpool::managed::QueueMode) -> (r:
        HandleBuilder)
        ensures
            r@ == (PoolPlan { read: PoolSizing { queue_mode, ..self@.read }, ..self@ }),
    {
        proof {
            use_type_invariant(&self);
        }
        let read_config = PoolSizing { queue_mode, ..self.read_config };
        HandleBuilder { database: self.database, write_config: self.write_config, read_config }
    }

    /// Sets the order in which the write pool serves waiting callers.
    pub fn set_write_pool_queue_mode(self, queue_mode: deadpool::managed::QueueMode) -> (r:
        HandleBuilder)
        ensures
            r@ == (PoolPlan { write: PoolSizing { queue_mode, ..self@.write }, ..self@ }),
    {
        proof {
            use_type_invariant(&self);
        }
        let write_config = PoolSizing { queue_mode, ..self.write_config };
        HandleBuilder { database: self.database, write_config, read_config: self.read_config }
    }

    /// Creates both pools on the database file. Creation cannot fail once a
    /// runtime is given, so the result is always a handle.
    pub fn build(self) -> (r: Result<Handle, deadpool_sqlite::CreatePoolError>)
        ensures
            r is Ok,
            r is Ok ==> r->Ok_0@.plan == self@,
            r is Ok ==> sqlite_pool_path(r->Ok_0@.read_pool) == self@.database
                && sqlite_pool_path(r->Ok_0@.write_pool) == self@.database,
            r is Ok ==> sqlite_pool_sizing(r->Ok_0@.read_pool) == self@.read
                && sqlite_pool_sizing(r->Ok_0@.write_pool) == self@.write,
            r is Ok && self@.read.max_size != 1 ==> r->Ok_0@.read_pool != r->Ok_0@.write_pool,
    {
        proof {
            use_type_invariant(&self);
        }
        let read_pool = match create_sqlite_pool(self.database.as_str(), &self.read_config) {
            Ok(p) => p,
            Err(e) => return Err(e),
        };
        let write_pool = match create_sqlite_pool(self.database.as_str(), &self.write_config) {
            Ok(p) => p,
            Err(e) => return Err(e),
        };
        Ok(
            Handle {
                database: self.database,
                read_config: self.read_config,
                write_config: self.write_config,
                read_pool,
                write_pool,
            },
        )
    }

    /// The bound on the write pool that this builder will create: always one.
    pub fn write_pool_max_size(&self) -> (r: usize)
        ensures
            r == self@.write.max_size,
            r == 1,
    {
        proof {
            use_type_invariant(self);
        }
        self.write_config.max_size
    }

    /// The bound on the read pool that this builder will create.
    pub fn read_pool_max_size(&self) -> (r: usize)
        ensures
            r == self@.read.max_size,
    {
        self.read_config.max_size
    }
}

/// What a handle holds: its plan and the two pools created from it.
pub struct HandleView {
    pub plan: PoolPlan,
    pub read_pool: SqlitePool,
    pub write_pool: SqlitePool,
}

/// Read and write pools on one SQLite file.
pub struct Handle {
    database: String,
    read_config: PoolSizing,
    write_config: PoolSizing,
    read_pool: SqlitePool,
    write_pool: SqlitePool,
}

impl View for Handle {
    type V = HandleView;

    closed spec fn view(&self) -> HandleView {
        HandleView {
            plan: PoolPlan {
                database: self.database@,
                read: self.read_config,
                write: self.write_config,
            },
            read_pool: self.read_pool,
            write_pool: self.write_pool,
        }
    }
}

impl Handle {
    #[verifier::type_invariant]
    spec fn inv(&self) -> bool {
        &&& self.write_config.max_size == 1
        &&& sqlite_pool_sizing(self.write_pool) == self.write_config
        &&& sqlite_pool_sizing(self.read_pool) == self.read_config
        &&& sqlite_pool_path(self.write_pool) == self.database@
        &&& sqlite_pool_path(self.read_pool) == self.database@
    }

    /// A builder for a handle on `database`.
    pub fn builder(database: String) -> (r: HandleBuilder)
        ensures
            r@.database == database@,
            r@.read.max_size >= 2,
            r@.write == write_sizing_for(r@.read),
    {
        HandleBuilder::new(database)
    }

    /// The pool that connections for `role` are drawn from: the write pool
    /// for writes, the read pool for reads.
    pub fn pool_for(&self, role: Role) -> (r: &SqlitePool)
        ensures
            role == Role::Write ==> *r == self@.write_pool && sqlite_pool_sizing(*r)
                == self@.plan.write,
            role == Role::Read ==> *r == self@.read_pool && sqlite_pool_sizing(*r)
                == self@.plan.read,
            sqlite_pool_path(*r) == self@.plan.database,
            role == Role::Write ==> sqlite_pool_sizing(*r).max_size == 1,
    {
        proof {
            use_type_invariant(self);
        }
        match role {
            Role::Read => &self.read_pool,
            Role::Write => &self.write_pool,
        }
    }

    /// The bound on the write pool: always one, whatever was asked for.
    pub fn write_pool_max_size(&self) -> (r: usize)
        ensures
            r == self@.plan.write.max_size,
            r == 1,
            sqlite_pool_sizing(self@.write_pool).max_size == 1,
    {
        proof {
            use_type_invariant(self);
        }
        self.write_config.max_size
    }

    /// The bound on the read pool, as planned.
    pub fn read_pool_max_size(&self) -> (r: usize)
        ensures
            r == self@.plan.read.max_size,
            sqlite_pool_sizing(self@.read_pool).max_size == r,
    {
        proof {
            use_type_invariant(self);
        }
        self.read_config.max_size
    }
}

} // verus!
