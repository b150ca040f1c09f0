use edge_runtime::keys::derive_key_input;
use edge_runtime::pool::{CreatePlan, PoolError, PoolEvent, WorkerPool};
use std::collections::hash_map::DefaultHasher;
use std::hash::{Hash, Hasher};

fn key_of(input: &str) -> u64 {
    let mut h = DefaultHasher::new();
    input.hash(&mut h);
    h.finish()
}

fn create(pool: &WorkerPool<u32>, path: &str, force: bool, now_ms: u64) -> CreatePlan {
    let input = derive_key_input(path, force, now_ms);
    let key = key_of(&input);
    pool.create_user_worker(key, input, force)
}

#[test]
fn dedup_hit_starts_one_worker() {
    let mut pool: WorkerPool<u32> = WorkerPool::new();
    let mut started = 0;
    let k1 = match create(&pool, "svc_a", false, 1000) {
        CreatePlan::Start(s) => {
            started += 1;
            assert_eq!(s.service_path, "svc_a");
            assert!(pool.add_user_worker(s.key, 1).is_none());
            s.key
        }
        CreatePlan::Existing(_) => panic!("empty pool has no worker"),
    };
    match create(&pool, "svc_a", false, 2000) {
        CreatePlan::Existing(k) => assert_eq!(k, k1),
        CreatePlan::Start(_) => started += 1,
    }
    assert_eq!(started, 1);
    assert_eq!(pool.user_workers.len(), 1);
}

#[test]
fn force_create_gives_two_workers() {
    let mut pool: WorkerPool<u32> = WorkerPool::new();
    let k1 = match create(&pool, "svc_a", true, 1000) {
        CreatePlan::Start(s) => {
            assert_eq!(s.service_path, "svc_a-1000");
            pool.add_user_worker(s.key, 1);
            s.key
        }
        CreatePlan::Existing(_) => panic!("forced create must start a worker"),
    };
    let k2 = match create(&pool, "svc_a", true, 1500) {
        CreatePlan::Start(s) => {
            assert_eq!(s.service_path, "svc_a-1500");
            pool.add_user_worker(s.key, 2);
            s.key
        }
        CreatePlan::Existing(_) => panic!("forced create must start a worker"),
    };
    assert_ne!(k1, k2);
    assert_eq!(pool.user_workers.len(), 2);
}

#[test]
fn forced_create_ignores_a_live_worker() {
    let mut pool: WorkerPool<u32> = WorkerPool::new();
    pool.add_user_worker(7, 1);
    assert!(pool.worker_already_exists(7, false));
    assert!(!pool.worker_already_exists(7, true));
    assert!(matches!(
        pool.create_user_worker(7, String::from("x"), true),
        CreatePlan::Start(_)
    ));
    assert!(matches!(
        pool.create_user_worker(7, String::from("x"), false),
        CreatePlan::Existing(7)
    ));
}

#[test]
fn execution_id_is_a_version_four_uuid() {
    let pool: WorkerPool<u32> = WorkerPool::new();
    match pool.create_user_worker(3, String::from("svc"), false) {
        CreatePlan::Start(s) => {
            assert_eq!(s.key, 3);
            assert_eq!((s.execution_id >> 76) & 0xf, 4);
            assert_eq!((s.execution_id >> 62) & 0x3, 2);
        }
        CreatePlan::Existing(_) => panic!("empty pool has no worker"),
    }
}

#[test]
fn dispatch_to_present_key_finds_its_inbox() {
    let mut pool: WorkerPool<u32> = WorkerPool::new();
    pool.add_user_worker(1, 11);
    match pool.send_request(1) {
        Ok(p) => assert_eq!(p.worker_request_msg_tx, 11),
        Err(_) => panic!("worker is present"),
    }
}

#[test]
fn dispatch_to_absent_key_is_unavailable() {
    let pool: WorkerPool<u32> = WorkerPool::new();
    match pool.send_request(999) {
        Ok(_) => panic!("no worker was created"),
        Err(e) => {
            assert_eq!(e, PoolError::WorkerNotAvailable);
            assert_eq!(e.message(), "user worker not available");
        }
    }
}

#[test]
fn first_created_worker_wins() {
    let mut pool: WorkerPool<u32> = WorkerPool::new();
    assert_eq!(pool.add_user_worker(5, 1), None);
    assert_eq!(pool.add_user_worker(5, 2), Some(2));
    assert_eq!(pool.user_workers.len(), 1);
    assert_eq!(pool.send_request(5).map(|p| p.worker_request_msg_tx), Ok(1));
}

#[test]
fn shutdown_makes_key_unavailable_until_created_again() {
    let mut pool: WorkerPool<u32> = WorkerPool::new();
    pool.add_user_worker(5, 1);
    pool.add_user_worker(6, 2);
    pool.shutdown(5);
    assert!(pool.send_request(5).is_err());
    assert_eq!(pool.apply(PoolEvent::Created(6, 3)), Some(3));
    assert_eq!(pool.apply(PoolEvent::Shutdown(6)), None);
    assert!(pool.send_request(5).is_err());
    assert_eq!(pool.apply(PoolEvent::Created(5, 4)), None);
    assert_eq!(pool.send_request(5).map(|p| p.worker_request_msg_tx), Ok(4));
}

#[test]
fn requests_for_one_key_reach_one_inbox() {
    let mut pool: WorkerPool<u32> = WorkerPool::new();
    pool.add_user_worker(1, 10);
    let first = pool.send_request(1).map(|p| p.worker_request_msg_tx);
    pool.apply(PoolEvent::Created(1, 20));
    pool.apply(PoolEvent::Created(2, 30));
    pool.apply(PoolEvent::Shutdown(2));
    let second = pool.send_request(1).map(|p| p.worker_request_msg_tx);
    assert_eq!(first, Ok(10));
    assert_eq!(second, Ok(10));
}
