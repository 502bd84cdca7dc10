use taskpool::Plugin;
use taskpool::Pool;
use taskpool::fan_out;
use taskpool::submit_and_wait;
use taskpool::wait;
use taskpool::task::Closure;
use taskpool::task::Job;
use taskpool::task::Task;
use std::sync::Arc;
use std::sync::atomic::AtomicI32;
use std::sync::atomic::Ordering;

#[test]
fn task_new_is_pending() {
    let t = Task::new(Box::new(Closure::new(|| {})));
    assert!(!t.is_active());
}

#[test]
fn task_runs_exactly_once() {
    let count = Arc::new(AtomicI32::new(0));
    let c = Arc::clone(&count);
    let job: Box<dyn Job> = Box::new(Closure::new(move || {
        c.fetch_add(1, Ordering::SeqCst);
    }));
    let mut t = Task::new(job);
    t.exec();
    assert_eq!(count.load(Ordering::SeqCst), 1);
    t.exec();
    assert_eq!(count.load(Ordering::SeqCst), 1);
    assert!(!t.is_active());
}

#[test]
fn handle_drop_without_wait() {
    let pool = Pool::new();
    crossbeam::thread::scope(move |sc| {
        for _ in 0..2 {
            let w = pool.worker();
            sc.spawn(move |_| {
                while w.step() {}
            });
        }
        let x = (|| 41).f(&pool);
        drop(x);
        wait(&pool);
        let y = (|| 42).f(&pool);
        assert_eq!(y.wait().unwrap(), 42);
        drop(pool);
    })
    .unwrap();
}

#[test]
fn drain_with_empty_queue() {
    let pool = Pool::new();
    crossbeam::thread::scope(move |sc| {
        let w = pool.worker();
        sc.spawn(move |_| {
            while w.step() {}
        });
        wait(&pool);
        wait(&pool);
        drop(pool);
    })
    .unwrap();
}

#[test]
fn fan_out_sums_to_k_times_constant() {
    let pool = Pool::new();
    crossbeam::thread::scope(move |sc| {
        for _ in 0..4 {
            let w = pool.worker();
            sc.spawn(move |_| {
                while w.step() {}
            });
        }
        assert_eq!(fan_out(&pool, 1000, 3), Some(3000));
        assert_eq!(fan_out(&pool, 0, 7), Some(0));
        assert_eq!(fan_out(&pool, 5, -2), Some(-10));
        drop(pool);
    })
    .unwrap();
}

#[test]
fn submit_and_wait_returns_the_result() {
    let pool = Pool::new();
    crossbeam::thread::scope(move |sc| {
        let w = pool.worker();
        sc.spawn(move |_| {
            while w.step() {}
        });
        assert_eq!(submit_and_wait(&pool, || 21 * 2), Some(42));
        drop(pool);
    })
    .unwrap();
}

#[test]
fn second_wait_returns_none() {
    let pool = Pool::new();
    crossbeam::thread::scope(move |sc| {
        let w = pool.worker();
        sc.spawn(move |_| {
            while w.step() {}
        });
        let x = (|| 5).f(&pool);
        assert_eq!(x.wait(), Some(5));
        assert_eq!(x.wait(), None);
        drop(pool);
    })
    .unwrap();
}

#[test]
fn chained_handles_compose() {
    let pool = Pool::new();
    crossbeam::thread::scope(move |sc| {
        for _ in 0..2 {
            let w = pool.worker();
            sc.spawn(move |_| {
                while w.step() {}
            });
        }
        let x = (|| 2).f(&pool);
        let y = taskpool::chain(&pool, x, |t: Option<i32>| t.unwrap() * 2);
        assert_eq!(y.wait(), Some(4));
        drop(pool);
    })
    .unwrap();
}
