use vstd::prelude::*;

verus! {

/// A deferred computation that a worker can run.
///
/// `Send` is a supertrait so that a boxed job can travel from the submitting
/// thread, through the shared queue, to whichever worker dequeues it.
pub trait Job: Send {
    fn run(&mut self);
}

/// Wraps a one-shot callable as a [`Job`].
///
/// The slot is emptied on the first run, so running a second time does
/// nothing: the callable itself is consumed exactly once.
pub struct Closure<F: FnOnce() -> () + Send> {
    f: Option<F>,
}

impl<F: FnOnce() -> () + Send> Closure<F> {
    #[verifier::type_invariant]
    spec fn inv(self) -> bool {
        self.f is Some ==> call_requires(self.f->0, ())
    }

    pub fn new(f: F) -> (c: Self)
        requires
            call_requires(f, ()),
    {
        Closure { f: Some(f) }
    }
}

impl<F: FnOnce() -> () + Send> Job for Closure<F> {
    fn run(&mut self) {
        proof {
            use_type_invariant(&*self);
        }
        let mut slot: Option<F> = None;
        core::mem::swap(&mut slot, &mut self.f);
        if let Some(f) = slot {
            f();
        }
    }
}

/// The execution status of a [`Task`].
#[derive(PartialEq, Eq, Structural)]
pub enum Ts {
    Pending,
    Active,
    Finish,
}

/// A one-shot executable unit: a take-once slot holding the deferred
/// computation, a status tag, and a ghost count of how often the
/// computation has run.
pub struct Task {
    s: Ts,
    f: Option<Box<dyn Job>>,
    runs: Ghost<nat>,
}

impl Task {
    #[verifier::type_invariant]
    spec fn inv(self) -> bool {
        &&& self.f is Some ==> self.runs@ == 0
        &&& self.runs@ <= 1
    }

    /// Whether the slot still holds the computation.
    pub closed spec fn has_job(self) -> bool {
        self.f is Some
    }

    /// The status tag.
    pub closed spec fn status(self) -> Ts {
        self.s
    }

    /// How often the wrapped computation has been run.
    pub closed spec fn run_count(self) -> nat {
        self.runs@
    }

    /// The state change a call of [`Task::exec`] makes: afterwards the slot
    /// is empty for good; a task that still held its computation has run it
    /// exactly once and is finished; one that did not is left untouched.
    pub open spec fn exec_step(pre: Task, post: Task) -> bool {
        &&& !post.has_job()
        &&& post.run_count() <= 1
        &&& pre.has_job() ==> post.run_count() == pre.run_count() + 1
            && post.status() == Ts::Finish
        &&& !pre.has_job() ==> post == pre
    }

    pub fn new(f: Box<dyn Job>) -> (task: Task)
        ensures
            task.has_job(),
            task.status() == Ts::Pending,
            task.run_count() == 0,
    {
        let task = Task { s: Ts::Pending, f: Some(f), runs: Ghost(0) };
        task
    }

    pub fn is_active(&self) -> (r: bool)
        ensures
            r == (self.status() == Ts::Active),
    {
        self.s == Ts::Active
    }

    /// Runs the wrapped computation if the slot still holds it, emptying the
    /// slot; on an already emptied task this is a no-op.
    pub fn exec(&mut self)
        ensures
            Task::exec_step(*old(self), *final(self)),
    {
        proof {
            use_type_invariant(&*self);
        }
        let mut slot: Option<Box<dyn Job>> = None;
        core::mem::swap(&mut slot, &mut self.f);
        if let Some(mut f) = slot {
            self.s = Ts::Active;
            proof {
                self.runs@ = self.runs@ + 1;
            }
            f.run();
            self.s = Ts::Finish;
        }
    }
}

/// A task's computation runs at most once: after one execution the slot is
/// permanently empty, so a second execution changes nothing and does not run
/// the computation again.
pub proof fn lemma_exec_idempotent(t0: Task, t1: Task, t2: Task)
    requires
        Task::exec_step(t0, t1),
        Task::exec_step(t1, t2),
    ensures
        t2 == t1,
        t2.run_count() == t1.run_count(),
        t1.run_count() <= 1,
{
}

} // verus!
