use taskpool::Plugin;
use taskpool::Pool;
use taskpool::wait;
use std::sync::Arc;
use std::sync::atomic::AtomicI32;
use std::sync::atomic::Ordering;

#[test]
fn once() {
    let pool = Pool::new();
    crossbeam::thread::scope(move |sc| {
        for _ in 0..4 {
            let w = pool.worker();
            sc.spawn(move |_| {
                while w.step() {}
            });
        }
        let x = (|| 2).f(&pool);
        assert_eq!(x.wait().unwrap(), 2);
        drop(pool);
    })
    .unwrap();
}

#[test]
fn wait_of_wait() {
    let pool = Pool::new();
    crossbeam::thread::scope(move |sc| {
        for _ in 0..4 {
            let w = pool.worker();
            sc.spawn(move |_| {
                while w.step() {}
            });
        }
        let x = (|| 2).f(&pool);
        let y = (move || x.wait().unwrap() * 2).f(&pool);
        assert_eq!(y.wait().unwrap(), 4);
        drop(pool);
    })
    .unwrap();
}

#[test]
fn vec_task() {
    let pool = Pool::new();
    crossbeam::thread::scope(move |sc| {
        for _ in 0..4 {
            let w = pool.worker();
            sc.spawn(move |_| {
                while w.step() {}
            });
        }
        let pool2 = pool.share();
        let x = (move || {
            let mut vec = Vec::new();
            for _ in 0..1_000_000 {
                let c = || 1 * 2;
                vec.push(c.f(&pool2));
            }
            vec.iter().map(|x| x.wait().unwrap()).sum::<i32>()
        })
        .f(&pool);
        assert_eq!(x.wait().unwrap(), 2_000_000);
        drop(pool);
    })
    .unwrap();
}

#[test]
fn io() {
    let pool = Pool::new();
    // One worker: increments and the barrier task then run strictly in
    // submission order. Under more workers the barrier only guarantees that
    // prior tasks were dequeued, not that they finished, so the increments
    // are kept non-conflicting through an atomic counter as well.
    crossbeam::thread::scope(move |sc| {
        let w = pool.worker();
        sc.spawn(move |_| {
            while w.step() {}
        });
        let x = Arc::new(AtomicI32::new(2));
        let a = Arc::clone(&x);
        (move || {
            a.fetch_add(1, Ordering::SeqCst);
        })
        .io(&pool);
        let b = Arc::clone(&x);
        (move || {
            b.fetch_add(1, Ordering::SeqCst);
        })
        .io(&pool);
        let c = Arc::clone(&x);
        (move || {
            c.fetch_add(1, Ordering::SeqCst);
        })
        .io(&pool);
        wait(&pool);
        assert_eq!(x.load(Ordering::SeqCst), 5);
        drop(pool);
    })
    .unwrap();
}
