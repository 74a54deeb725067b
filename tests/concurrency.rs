use dbhandle::pool::PoolSizing;
use dbhandle::su_sqlite::{Config, HandleBuilder, Role};
use deadpool_sqlite::{PoolError, QueueMode, Timeouts};

fn runtime() -> tokio::runtime::Runtime {
    tokio::runtime::Builder::new_current_thread().enable_all().build().unwrap()
}

fn split_handle(read_max: usize) -> dbhandle::su_sqlite::Handle {
    let pool_config = Some(PoolSizing {
        max_size: read_max,
        timeouts: Timeouts::default(),
        queue_mode: QueueMode::Fifo,
    });
    let config = Config { name: ":memory:".to_string(), pool_config };
    HandleBuilder::from_config(config).build().ok().unwrap()
}

#[test]
fn second_writer_waits_for_the_first() {
    runtime().block_on(async {
        let h = split_handle(4);
        let write = h.pool_for(Role::Write);
        let first = write.inner.get().await.ok().unwrap();
        let second = write.inner.timeout_get(&Timeouts::wait_millis(50)).await;
        assert!(matches!(second, Err(PoolError::Timeout(_))));
        drop(first);
        let third = write.inner.timeout_get(&Timeouts::wait_millis(1000)).await;
        assert!(third.is_ok());
    });
}

#[test]
fn reads_proceed_while_the_writer_is_held() {
    runtime().block_on(async {
        let h = split_handle(2);
        let write = h.pool_for(Role::Write).inner.get().await.ok().unwrap();
        let read = h.pool_for(Role::Read);
        let r1 = read.inner.timeout_get(&Timeouts::wait_millis(1000)).await;
        let r2 = read.inner.timeout_get(&Timeouts::wait_millis(1000)).await;
        assert!(r1.is_ok());
        assert!(r2.is_ok());
        drop(write);
    });
}

#[test]
fn writer_proceeds_while_reads_are_held() {
    runtime().block_on(async {
        let h = split_handle(1);
        let read = h.pool_for(Role::Read).inner.get().await.ok().unwrap();
        let w = h.pool_for(Role::Write).inner.timeout_get(&Timeouts::wait_millis(1000)).await;
        assert!(w.is_ok());
        drop(read);
    });
}
