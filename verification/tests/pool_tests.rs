use faas::backend::BackendError;
use faas::pool::{WorkerHandle, WorkersBucket};
use faas::proto::NodeMsg;
use tokio::sync::mpsc;

fn worker(id: u128) -> WorkerHandle {
    let (sender, _receiver) = mpsc::channel::<NodeMsg>(1);
    WorkerHandle::new(id, sender)
}

fn pool_of(ids: &[u128]) -> WorkersBucket {
    let mut pool = WorkersBucket::new();
    for id in ids {
        pool.add(worker(*id));
    }
    pool
}

fn picks(pool: &mut WorkersBucket, n: usize) -> Vec<u128> {
    (0..n).map(|_| pool.get_worker().unwrap().id).collect()
}

#[test]
fn new_pool_is_empty() {
    let mut pool = WorkersBucket::new();
    assert_eq!(pool.size(), 0);
    assert_eq!(pool.index_size(), 0);
    assert_eq!(pool.get_worker().err(), Some(BackendError::NoWorkersAvailable));
}

#[test]
fn worker_handle_keeps_its_id() {
    assert_eq!(worker(77).id, 77);
}

#[test]
fn add_appends_and_indexes() {
    let pool = pool_of(&[10, 20, 30]);
    assert_eq!(pool.size(), 3);
    assert_eq!(pool.index_size(), 3);
    assert!(pool.contains(10));
    assert!(pool.contains(20));
    assert!(pool.contains(30));
    assert!(!pool.contains(40));
}

#[test]
fn add_with_known_id_takes_the_place() {
    let mut pool = pool_of(&[10, 20, 30]);
    pool.add(worker(20));
    assert_eq!(pool.size(), 3);
    assert_eq!(pool.index_size(), 3);
    assert_eq!(picks(&mut pool, 3), vec![10, 20, 30]);
}

#[test]
fn picks_rotate() {
    let mut pool = pool_of(&[1, 2, 3]);
    assert_eq!(picks(&mut pool, 7), vec![1, 2, 3, 1, 2, 3, 1]);
}

#[test]
fn picks_on_a_single_worker() {
    let mut pool = pool_of(&[5]);
    assert_eq!(picks(&mut pool, 3), vec![5, 5, 5]);
}

#[test]
fn round_robin_visits_floor_or_ceil() {
    for size in 1..6u128 {
        for n in 0..20usize {
            for start in 0..size as usize {
                let ids: Vec<u128> = (0..size).collect();
                let mut pool = pool_of(&ids);
                let _ = picks(&mut pool, start);
                let seen = picks(&mut pool, n);
                for id in &ids {
                    let visits = seen.iter().filter(|s| *s == id).count();
                    let floor = n / size as usize;
                    let ceil = (n + size as usize - 1) / size as usize;
                    assert!(visits == floor || visits == ceil);
                }
            }
        }
    }
}

#[test]
fn remove_returns_the_worker_and_repairs_the_index() {
    let mut pool = pool_of(&[1, 2, 3, 4]);
    let removed = pool.remove(&2).unwrap();
    assert_eq!(removed.id, 2);
    assert_eq!(pool.size(), 3);
    assert_eq!(pool.index_size(), 3);
    assert!(!pool.contains(2));
    // the workers behind the removed one are still found and removable
    assert_eq!(pool.remove(&4).unwrap().id, 4);
    assert_eq!(pool.remove(&3).unwrap().id, 3);
    assert_eq!(pool.remove(&1).unwrap().id, 1);
    assert_eq!(pool.size(), 0);
    assert_eq!(pool.index_size(), 0);
}

#[test]
fn remove_unknown_id() {
    let mut pool = pool_of(&[1, 2]);
    assert_eq!(pool.remove(&9).err(), Some(BackendError::InternalBookkeeping));
    assert_eq!(pool.size(), 2);
    assert_eq!(pool.index_size(), 2);
}

#[test]
fn remove_twice() {
    let mut pool = pool_of(&[1, 2]);
    assert!(pool.remove(&1).is_ok());
    assert_eq!(pool.remove(&1).err(), Some(BackendError::InternalBookkeeping));
}

#[test]
fn pick_after_remove_uses_cursor_modulo_size() {
    let mut pool = pool_of(&[1, 2, 3]);
    assert_eq!(picks(&mut pool, 2), vec![1, 2]);
    // the cursor stands at 2; with two workers left it selects position 0
    pool.remove(&3).unwrap();
    assert_eq!(picks(&mut pool, 3), vec![1, 2, 1]);
}

#[test]
fn pick_after_remove_keeps_matching_ids() {
    let mut pool = pool_of(&[1, 2, 3]);
    pool.remove(&1).unwrap();
    assert_eq!(picks(&mut pool, 4), vec![2, 3, 2, 3]);
    pool.add(worker(9));
    assert_eq!(pool.remove(&9).unwrap().id, 9);
}

#[test]
fn size_equals_index_size_throughout() {
    let mut pool = WorkersBucket::new();
    for id in 0..20u128 {
        pool.add(worker(id));
        assert_eq!(pool.size(), pool.index_size());
    }
    for id in (0..20u128).step_by(3) {
        pool.remove(&id).unwrap();
        assert_eq!(pool.size(), pool.index_size());
    }
    for id in 0..20u128 {
        assert_eq!(pool.contains(id), id % 3 != 0);
    }
}

#[test]
fn backend_error_messages() {
    assert_eq!(BackendError::NoWorkersAvailable.message(), "Out of resources");
    assert_eq!(BackendError::Timeout.message(), "Timed out while invoking function");
    assert_eq!(BackendError::NoReply.message(), "encountered error while invoking function");
    assert_eq!(
        BackendError::InternalBookkeeping.message(),
        "encountered internal error while invoking function"
    );
}

#[test]
fn free_id_keeps_a_wanted_id_that_is_free() {
    let pool = pool_of(&[0, 1, 3]);
    assert_eq!(pool.free_id(7), 7);
    assert_eq!(pool.free_id(2), 2);
    assert_eq!(WorkersBucket::new().free_id(0), 0);
    assert_eq!(WorkersBucket::new().free_id(u128::MAX), u128::MAX);
}

#[test]
fn free_id_takes_the_least_free_number_otherwise() {
    let pool = pool_of(&[0, 1, 3]);
    assert_eq!(pool.free_id(0), 2);
    assert_eq!(pool.free_id(1), 2);
    assert_eq!(pool.free_id(3), 2);
    assert_eq!(pool_of(&[5]).free_id(5), 0);
    assert_eq!(pool_of(&[2, 0, 1]).free_id(1), 3);
    assert_eq!(pool_of(&[u128::MAX]).free_id(u128::MAX), 0);
}
