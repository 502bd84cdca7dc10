//! A fixed-size worker pool running deferred computations submitted from any
//! thread. A computation is submitted either for a result, returning a
//! [`Routine`] handle that its value can later be waited on, or fire and
//! forget, to be joined collectively through the drain barrier [`wait`].
//!
//! The pool is an explicitly constructed object: workers, submitters and the
//! barrier all go through one [`Pool`] value, shared by duplication. Spawning
//! the worker threads themselves is left to the embedding program; the
//! turn of the scheduling loop each of them repeats is [`Worker::step`].
use vstd::prelude::*;

mod chan;
pub mod task;

use chan::RecvEnd;
use chan::SendEnd;
use task::Closure;
use task::Job;
use task::Task;

verus! {

/// The shared state of one worker pool: the task queue every submission goes
/// into and every worker takes from, and the token channel of the drain
/// barrier.
pub struct Pool {
    queue_s: SendEnd<Task>,
    queue_r: RecvEnd<Task>,
    drain_s: SendEnd<()>,
    drain_r: RecvEnd<()>,
}

/// A one-shot receiver for the result of a computation submitted with
/// [`Pool::submit_for_result`].
#[verifier::reject_recursive_types(T)]
pub struct Routine<T> {
    r: RecvEnd<T>,
}

impl<T> Routine<T> {
    /// The predicate every value delivered through this handle satisfies:
    /// for a handle from [`Pool::submit_for_result`], being a possible
    /// result of the submitted computation.
    pub closed spec fn accepts(self) -> spec_fn(T) -> bool {
        self.r.accepts()
    }

    /// Blocks until the paired computation has sent its value and returns
    /// it. The value delivers once: `None` comes when no value can arrive
    /// any more — on a second call, and when the sender was dropped without
    /// sending, the one failure a handle can observe.
    pub fn wait(&self) -> (v: Option<T>)
        ensures
            v matches Some(x) ==> (self.accepts())(x),
    {
        self.r.recv()
    }
}

impl Pool {
    #[verifier::type_invariant]
    spec fn inv(self) -> bool {
        &&& forall|t: Task| #[trigger] (self.queue_s.accepts())(t)
        &&& forall|u: ()| #[trigger] (self.drain_s.accepts())(u)
    }

    /// A fresh pool with an empty task queue and an idle drain barrier.
    pub fn new() -> (pool: Pool) {
        let (queue_s, queue_r) = chan::channel::<Task>(Ghost(|t: Task| true));
        let (drain_s, drain_r) = chan::channel::<()>(Ghost(|u: ()| true));
        Pool { queue_s, queue_r, drain_s, drain_r }
    }

    /// Another handle on the same pool, feeding the same queue.
    pub fn share(&self) -> (p: Pool) {
        proof {
            use_type_invariant(self);
        }
        Pool {
            queue_s: self.queue_s.duplicate(),
            queue_r: self.queue_r.duplicate(),
            drain_s: self.drain_s.duplicate(),
            drain_r: self.drain_r.duplicate(),
        }
    }

    /// Wraps `task` so that its value is sent into a fresh one-shot channel,
    /// queues it, and returns the handle holding the receiving half. Returns
    /// before the computation runs; whatever the handle later delivers is a
    /// possible result of `task`.
    pub fn submit_for_result<T, F>(&self, task: F) -> (routine: Routine<T>) where
        T: Send + 'static,
        F: FnOnce() -> T + Send + 'static,

        requires
            call_requires(task, ()),
        ensures
            forall|v: T| #[trigger] (routine.accepts())(v) ==> call_ensures(task, (), v),
    {
        proof {
            use_type_invariant(self);
        }
        let (s, r) = chan::oneshot::<T>(Ghost(|v: T| call_ensures(task, (), v)));
        let g = move ||
            {
                let v: T = task();
                s.send(v);
            };
        let b: Box<dyn Job> = Box::new(Closure::new(g));
        self.queue_s.send(Task::new(b));
        Routine { r }
    }

    /// Queues `task` with no result path: side effects only. Returns before
    /// the computation runs; its completion can only be joined collectively,
    /// through [`wait`].
    pub fn submit_fire_and_forget<T, F>(&self, task: F) where
        T: Send + 'static,
        F: FnOnce() -> T + Send + 'static,

        requires
            call_requires(task, ()),
    {
        proof {
            use_type_invariant(self);
        }
        let g = move ||
            {
                task();
            };
        let b: Box<dyn Job> = Box::new(Closure::new(g));
        self.queue_s.send(Task::new(b));
    }

    /// A receiving end of the task queue for one worker thread to run.
    pub fn worker(&self) -> (w: Worker) {
        proof {
            use_type_invariant(self);
        }
        Worker { r: self.queue_r.duplicate() }
    }
}

/// One worker's view of the pool: the shared task queue.
pub struct Worker {
    r: RecvEnd<Task>,
}

impl Worker {
    /// One turn of the scheduling loop: block on the queue, execute the next
    /// task, discard it. Returns whether the queue can still deliver;
    /// `false` — the queue is closed for good, the pool and every share of
    /// it being gone — ends the loop of the thread driving this worker.
    pub fn step(&self) -> (more: bool) {
        match self.r.recv() {
            Some(mut t) => {
                t.exec();
                true
            },
            None => false,
        }
    }
}

/// The drain barrier: queues a computation whose sole effect is to signal
/// the barrier channel, and blocks until that signal round-trips. Since the
/// queue hands tasks out in submission order, every fire-and-forget task
/// queued before this call has been dequeued by some worker once it returns
/// — dequeued, not necessarily finished, when several workers run.
pub fn wait(pool: &Pool) {
    proof {
        use_type_invariant(pool);
    }
    let s = pool.drain_s.duplicate();
    let routine = pool.submit_for_result(move ||
        {
            s.send(());
        });
    let signalled = routine.wait();
    if signalled.is_some() {
        let _ = pool.drain_r.recv();
    }
}

/// The result-handle round trip: every value the handle of a submitted
/// computation delivers is a result that computation allows, so a
/// computation that can only return one value resolves to that value.
pub fn submit_and_wait<T, F>(pool: &Pool, task: F) -> (v: Option<T>) where
    T: Send + 'static,
    F: FnOnce() -> T + Send + 'static,

    requires
        call_requires(task, ()),
    ensures
        v matches Some(x) ==> call_ensures(task, (), x),
{
    let routine = pool.submit_for_result(task);
    routine.wait()
}

/// Bulk fan-out: submits `k` independent computations, each returning
/// `constant`, and sums what their handles deliver. When every handle
/// delivers, the sum is exactly `k * constant`.
pub fn fan_out(pool: &Pool, k: u32, constant: i32) -> (sum: Option<i64>)
    ensures
        sum matches Some(s) ==> s == k as int * constant as int,
        k == 0 ==> sum == Some(0i64),
{
    let mut routines: Vec<Routine<i32>> = Vec::new();
    let mut i: u32 = 0;
    while i < k
        invariant
            i <= k,
            routines.len() == i,
            forall|j: int, v: i32|
                0 <= j < i && #[trigger] ((routines[j].accepts())(v)) ==> v == constant,
        decreases k - i,
    {
        let routine = pool.submit_for_result(move || -> (r: i32)
            ensures
                r == constant,
            {
                constant
            });
        routines.push(routine);
        i += 1;
    }
    let mut sum: i64 = 0;
    let mut j: usize = 0;
    while j < routines.len()
        invariant
            routines.len() == k,
            j <= k,
            sum == j as int * constant as int,
            forall|j2: int, v: i32|
                0 <= j2 < k && #[trigger] ((routines[j2].accepts())(v)) ==> v == constant,
        decreases routines.len() - j,
    {
        let got = routines[j].wait();
        match got {
            Some(v) => {
                proof {
                    assert(v == constant);
                    assert((j as int + 1) * (constant as int) == j as int * (constant as int)
                        + constant as int) by (nonlinear_arith);
                    assert(-0x8000_0000_0000_0000 <= (j as int + 1) * (constant as int)
                        <= 0x7fff_ffff_ffff_ffff) by (nonlinear_arith)
                        requires
                            0 <= j as int + 1 <= 0x1_0000_0000,
                            -0x8000_0000 <= constant as int <= 0x7fff_ffff,
                    ;
                }
                sum = sum + (v as i64);
            },
            None => {
                return None;
            },
        }
        j += 1;
    }
    Some(sum)
}

/// Chained handles compose: submits a computation that itself first waits
/// on the earlier handle `x` and then derives its result from whatever that
/// wait delivered. Whatever the new handle delivers is `derive` applied to
/// a value the earlier handle could deliver.
pub fn chain<T, U, F>(pool: &Pool, x: Routine<T>, derive: F) -> (routine: Routine<U>) where
    T: Send + 'static,
    U: Send + 'static,
    F: FnOnce(Option<T>) -> U + Send + 'static,

    requires
        forall|t: Option<T>|
            (t matches Some(w) ==> (x.accepts())(w)) ==> call_requires(derive, (t,)),
    ensures
        forall|u: U| #[trigger] ((routine.accepts())(u)) ==> exists|t: Option<T>|
            (t matches Some(w) ==> (x.accepts())(w)) && call_ensures(derive, (t,), u),
{
    let g = move || -> (u: U)
        ensures
            exists|t: Option<T>|
                (t matches Some(w) ==> (x.accepts())(w)) && call_ensures(derive, (t,), u),
        {
            let t = x.wait();
            derive(t)
        };
    pool.submit_for_result(g)
}

/// What the [`Plugin`] spec functions mean on a one-shot callable: it is
/// ready exactly when its own precondition holds, and allows exactly its
/// own possible results. Stated as a lemma because the blanket impl's spec
/// functions do not unfold at a concrete closure type on their own.
pub proof fn lemma_plugin_spec<T, F>(c: F, v: T) where
    T: Send + 'static,
    F: FnOnce() -> T + Send + 'static,

    ensures
        c.ready() == call_requires(c, ()),
        c.allows(v) == call_ensures(c, (), v),
{
}

/// The unconditional composition law, a corollary of [`chain`]'s contract:
/// when the derivation yields one fixed value on every input the inner
/// handle can put before it — the no-delivery case included — the chained
/// handle can deliver only that value.
pub proof fn lemma_chain_pins<T, U, F: FnOnce(Option<T>) -> U>(
    x_accepts: spec_fn(T) -> bool,
    derive: F,
    y_accepts: spec_fn(U) -> bool,
    target: U,
)
    requires
        forall|u: U| #[trigger] y_accepts(u) ==> exists|t: Option<T>|
            (t matches Some(w) ==> x_accepts(w)) && call_ensures(derive, (t,), u),
        forall|t: Option<T>, u: U|
            (t matches Some(w) ==> x_accepts(w)) && #[trigger] call_ensures(derive, (t,), u)
                ==> u == target,
    ensures
        forall|u: U| #[trigger] y_accepts(u) ==> u == target,
{
}

/// Lets a deferred computation submit itself: `c.f(&pool)` queues `c` for a
/// result, `c.io(&pool)` queues it fire and forget.
pub trait Plugin<T>: Sized {
    /// When the computation may be started.
    spec fn ready(self) -> bool;

    /// Whether `v` is a result this computation allows.
    spec fn allows(self, v: T) -> bool;

    fn f(self, pool: &Pool) -> (routine: Routine<T>)
        requires
            self.ready(),
        ensures
            forall|v: T| #[trigger] ((routine.accepts())(v)) ==> self.allows(v),
    ;

    fn io(self, pool: &Pool)
        requires
            self.ready(),
    ;
}

impl<T, F> Plugin<T> for F where T: Send + 'static, F: FnOnce() -> T + Send + 'static {
    open spec fn ready(self) -> bool {
        call_requires(self, ())
    }

    open spec fn allows(self, v: T) -> bool {
        call_ensures(self, (), v)
    }

    fn f(self, pool: &Pool) -> (routine: Routine<T>) {
        pool.submit_for_result(self)
    }

    fn io(self, pool: &Pool) {
        pool.submit_fire_and_forget(self)
    }
}

} // verus!
