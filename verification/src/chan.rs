use vstd::prelude::*;

verus! {

#[verifier::external_type_specification]
#[verifier::external_body]
#[verifier::reject_recursive_types(T)]
pub struct ExSender<T>(crossbeam::channel::Sender<T>);

#[verifier::external_type_specification]
#[verifier::external_body]
#[verifier::reject_recursive_types(T)]
pub struct ExReceiver<T>(crossbeam::channel::Receiver<T>);

#[verifier::external_type_specification]
#[verifier::external_body]
#[verifier::reject_recursive_types(T)]
pub struct ExSendError<T>(crossbeam::channel::SendError<T>);

/// Relies on crossbeam::channel::unbounded: creates a connected channel of
/// unbounded capacity; nothing is assumed of it here beyond well-formedness.
pub assume_specification<T>[ crossbeam::channel::unbounded::<T> ]() -> (pair: (
    crossbeam::channel::Sender<T>,
    crossbeam::channel::Receiver<T>,
));

/// Relies on crossbeam::channel::bounded: creates a connected channel that
/// holds at most `cap` messages; nothing is assumed of it here beyond
/// well-formedness. A capacity near the index type's range makes crossbeam
/// panic while sizing the ring (its next power of two, doubled, must fit),
/// so capacities are kept well below that on every target; this crate only
/// ever asks for one slot.
pub assume_specification<T>[ crossbeam::channel::bounded::<T> ](cap: usize) -> (pair: (
    crossbeam::channel::Sender<T>,
    crossbeam::channel::Receiver<T>,
))
    requires
        cap < 0x1000_0000,
;

/// Relies on crossbeam::channel::Sender::send: hands the message to the
/// channel, or hands it back in the error when all receivers are gone.
/// Which of the two happens depends on the other threads, so nothing is
/// stated of the result.
pub assume_specification<T>[ crossbeam::channel::Sender::<T>::send ](
    this: &crossbeam::channel::Sender<T>,
    msg: T,
) -> (r: Result<(), crossbeam::channel::SendError<T>>);

/// Relies on Clone for crossbeam::channel::Sender: the clone feeds the same
/// channel as the original.
pub assume_specification<T>[ <crossbeam::channel::Sender<T> as Clone>::clone ](
    this: &crossbeam::channel::Sender<T>,
) -> (r: crossbeam::channel::Sender<T>);

/// Relies on Clone for crossbeam::channel::Receiver: the clone drains the
/// same channel as the original.
pub assume_specification<T>[ <crossbeam::channel::Receiver<T> as Clone>::clone ](
    this: &crossbeam::channel::Receiver<T>,
) -> (r: crossbeam::channel::Receiver<T>);

/// The sending half of a channel whose messages all satisfy one predicate,
/// fixed when the channel is created and shared with the receiving half.
#[verifier::reject_recursive_types(T)]
pub struct SendEnd<T> {
    raw: crossbeam::channel::Sender<T>,
    ok: Ghost<spec_fn(T) -> bool>,
}

/// The receiving half of a channel whose messages all satisfy the predicate
/// shared with the sending half.
#[verifier::reject_recursive_types(T)]
pub struct RecvEnd<T> {
    raw: crossbeam::channel::Receiver<T>,
    ok: Ghost<spec_fn(T) -> bool>,
}

/// Creates an unbounded channel whose ends share the message predicate `ok`.
pub fn channel<T>(Ghost(ok): Ghost<spec_fn(T) -> bool>) -> (pair: (SendEnd<T>, RecvEnd<T>))
    ensures
        pair.0.accepts() == ok,
        pair.1.accepts() == ok,
{
    let (s, r) = crossbeam::channel::unbounded();
    (SendEnd { raw: s, ok: Ghost(ok) }, RecvEnd { raw: r, ok: Ghost(ok) })
}

/// Creates a channel of capacity one whose ends share the message predicate
/// `ok`; made for carrying a single result.
pub fn oneshot<T>(Ghost(ok): Ghost<spec_fn(T) -> bool>) -> (pair: (SendEnd<T>, RecvEnd<T>))
    ensures
        pair.0.accepts() == ok,
        pair.1.accepts() == ok,
{
    let (s, r) = crossbeam::channel::bounded(1);
    (SendEnd { raw: s, ok: Ghost(ok) }, RecvEnd { raw: r, ok: Ghost(ok) })
}

impl<T> SendEnd<T> {
    /// The predicate every message sent through this end satisfies.
    pub closed spec fn accepts(self) -> spec_fn(T) -> bool {
        self.ok@
    }

    /// Sends `v`, which must satisfy the channel's predicate. When every
    /// receiver is gone the message is silently discarded, so that a worker
    /// delivering to a dropped handle does not fall over.
    pub fn send(&self, v: T)
        requires
            (self.accepts())(v),
    {
        let _ = self.raw.send(v);
    }

    /// Another sending end of the same channel, under the same predicate.
    pub fn duplicate(&self) -> (r: Self)
        ensures
            r.accepts() == self.accepts(),
    {
        SendEnd { raw: self.raw.clone(), ok: self.ok }
    }
}

impl<T> RecvEnd<T> {
    /// The predicate every message received through this end satisfies.
    pub closed spec fn accepts(self) -> spec_fn(T) -> bool {
        self.ok@
    }

    /// Blocks until a message arrives and returns it; returns `None` once
    /// the channel is empty and every sending end is gone.
    ///
    /// Relies on crossbeam::channel::Receiver::recv: a received message was
    /// sent on a sending end of this same channel. Both ends of a channel
    /// are only ever created together, sharing one predicate, and
    /// [`SendEnd::send`] admits only messages satisfying it, so a received
    /// message satisfies it too.
    #[verifier::external_body]
    pub fn recv(&self) -> (r: Option<T>)
        ensures
            r matches Some(v) ==> (self.accepts())(v),
    {
        match self.raw.recv() {
            Ok(v) => Some(v),
            Err(_) => None,
        }
    }

    /// Another receiving end of the same channel, under the same predicate.
    pub fn duplicate(&self) -> (r: Self)
        ensures
            r.accepts() == self.accepts(),
    {
        RecvEnd { raw: self.raw.clone(), ok: self.ok }
    }
}

} // verus!
