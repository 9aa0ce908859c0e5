//! One-shot result handoff: a capacity-1 channel carrying exactly one value
//! from one producer (the task) to one consumer (the [`Waiter`]).
//!
//! Each channel is created for a single task. In ghost state, both ends carry
//! the same predicate over the carried value: the postcondition of the task
//! the channel was created for. The producer end only accepts values
//! satisfying the predicate, so every value the consumer can ever receive
//! satisfies it.

use vstd::prelude::*;

verus! {

/// Verus declaration of the producer half of a crossbeam channel.
#[verifier::external_type_specification]
#[verifier::external_body]
#[verifier::reject_recursive_types(T)]
pub struct ExSender<T>(crossbeam_channel::Sender<T>);

/// Verus declaration of the consumer half of a crossbeam channel.
#[verifier::external_type_specification]
#[verifier::external_body]
#[verifier::reject_recursive_types(T)]
pub struct ExReceiver<T>(crossbeam_channel::Receiver<T>);

/// The error a failed [`Waiter::wait`] reports.
#[derive(Clone, Copy, Debug, PartialEq, Eq, Structural)]
pub enum WaitError {
    /// The producer side of the handoff was dropped without ever sending a
    /// value; the result will never arrive. This happens when the task that
    /// was to produce the value panicked instead of completing.
    ChannelBroken,
}

/// The producer end of a one-shot handoff. Consumed by its single send.
#[verifier::reject_recursive_types(T)]
pub struct OneShotSender<T> {
    tx: crossbeam_channel::Sender<T>,
    pred: Ghost<spec_fn(T) -> bool>,
}

/// The consumer end of a one-shot handoff: the handle on which the eventual
/// result of one task is awaited.
///
/// A `Waiter` is obtained either from submitting a task to a pool, or from
/// [`Waiter::done`], which wraps an already-known value. Its one meaningful
/// operation is [`Waiter::wait`].
#[verifier::reject_recursive_types(T)]
pub struct Waiter<T> {
    rx: crossbeam_channel::Receiver<T>,
    pred: Ghost<spec_fn(T) -> bool>,
    resolved: Ghost<bool>,
}

impl<T> OneShotSender<T> {
    /// The values this producer end may publish.
    pub closed spec fn admits(self, v: T) -> bool {
        (self.pred@)(v)
    }
}

impl<T> Waiter<T> {
    /// The values a wait on this handle may yield. Pinned at creation to the
    /// postcondition of the task the handle stands for.
    pub closed spec fn predicate(self, v: T) -> bool {
        (self.pred@)(v)
    }

    /// True when the handle's value is already deposited in its channel,
    /// with the one receive still to come: a wait on such a handle cannot
    /// block measurably and cannot fail. Established only by
    /// [`Waiter::done`], right after it pre-loads the channel.
    pub closed spec fn resolved(self) -> bool {
        self.resolved@
    }

    /// True when every value this handle can yield equals `val`.
    pub open spec fn yields_only(self, val: T) -> bool {
        forall|x: T| #[trigger] self.predicate(x) ==> x == val
    }

    /// True when every value this handle can yield is a possible result of
    /// the closure `f`.
    pub open spec fn resolves_with<F: FnOnce() -> T>(self, f: F) -> bool {
        forall|x: T| #[trigger] self.predicate(x) ==> f.ensures((), x)
    }
}

/// Creates a fresh, empty, connected channel of capacity 1: the raw ends of
/// a one-shot handoff.
///
/// Relies on `crossbeam_channel::bounded` with capacity 1: messages sent on
/// the first end, at most one at a time, are received on the second.
#[verifier::external_body]
fn raw_one_shot<T>() -> (ends: (crossbeam_channel::Sender<T>, crossbeam_channel::Receiver<T>)) {
    crossbeam_channel::bounded(1)
}

/// Creates the linked producer/consumer pair of a fresh one-shot handoff for
/// the task `f`, tying both ends, in ghost state, to `f`'s postcondition.
/// This is the only place the two ends of a handoff are assembled, and both
/// always carry the same predicate.
pub(crate) fn channel_for<F: FnOnce() -> R, R>(f: &F) -> (ends: (OneShotSender<R>, Waiter<R>))
    ensures
        forall|v: R| #[trigger] ends.0.admits(v) <==> f.ensures((), v),
        forall|v: R| #[trigger] ends.1.predicate(v) <==> f.ensures((), v),
{
    let (tx, rx) = raw_one_shot();
    let ghost p = |v: R| f.ensures((), v);
    (
        OneShotSender { tx, pred: Ghost(p) },
        Waiter { rx, pred: Ghost(p), resolved: Ghost(false) },
    )
}

/// Publishes the one value of a one-shot handoff, consuming the producer end.
///
/// Relies on `crossbeam_channel::Sender::send`: it deposits `v` in the
/// channel, or returns an error if the consumer end was already dropped, in
/// which case `v` is discarded. The send never blocks: the channel has
/// capacity 1, and consuming `self` makes a second send on it impossible, so
/// the capacity is free. Dropping a [`Waiter`] before its task publishes is
/// allowed, so a failed send is ignored rather than treated as fatal.
#[verifier::external_body]
fn send_value<T>(sender: OneShotSender<T>, v: T)
    requires
        sender.admits(v),
{
    let _ = sender.tx.send(v);
}

/// Takes the one value out of a one-shot handoff, blocking until the producer
/// publishes it.
///
/// Relies on `crossbeam_channel::Receiver::recv`: it blocks until a message
/// arrives, returning it, or until the channel is empty with the producer end
/// dropped, returning an error; a value already in the channel is delivered
/// even after the producer end is gone. A received value is one the paired
/// [`OneShotSender`] sent, and every sent value satisfies the shared
/// predicate, so the result does too. On a resolved handle the receive cannot
/// fail: the flag is set in one place only, after the handle's value was
/// deposited (while the library still held this consumer end, so the channel
/// was not disconnected), and [`Waiter::wait`] consumes the handle, so the
/// buffered message is still there for the one receive ever performed.
#[verifier::external_body]
fn recv_value<T>(waiter: &Waiter<T>) -> (r: Option<T>)
    ensures
        r matches Some(v) ==> waiter.predicate(v),
        waiter.resolved() ==> r is Some,
{
    waiter.rx.recv().ok()
}

/// Runs the task `f` once and publishes its result into the handoff
/// `sender`. This is the whole body of a task as it executes on a pool
/// thread: produce the value, deposit it, and let the producer end go.
pub(crate) fn run_task<F: FnOnce() -> R, R>(f: F, sender: OneShotSender<R>)
    requires
        f.requires(()),
        forall|v: R| f.ensures((), v) ==> #[trigger] sender.admits(v),
{
    let v = f();
    send_value(sender, v);
}

impl<T> Waiter<T> {
    /// Blocks the calling thread until the associated value is published,
    /// then returns it; on a resolved handle it returns the value at once and
    /// cannot fail. Fails with [`WaitError::ChannelBroken`], rather than
    /// hanging, when the value will never arrive because the producing task
    /// panicked — panics are isolated per task on every pool this library
    /// initializes, which installs the panic handler that makes the failure
    /// observable here instead of fatal.
    ///
    /// Must only be called from a context that is not itself executing inside
    /// the pool the awaited task was submitted to; a pool thread blocking on
    /// work of its own pool can deadlock it. The call consumes the handle:
    /// each logical result is retrieved at most once, and a second wait is
    /// statically impossible.
    pub fn wait(self) -> (r: Result<T, WaitError>)
        ensures
            r matches Ok(v) ==> self.predicate(v),
            r matches Err(e) ==> e == WaitError::ChannelBroken,
            self.resolved() ==> r is Ok,
    {
        match recv_value(&self) {
            Some(v) => Ok(v),
            None => Err(WaitError::ChannelBroken),
        }
    }

    /// Wraps an already-known value as a resolved handle, without touching
    /// any pool: the handoff is pre-loaded with `val`, so a later
    /// [`Waiter::wait`] returns at once.
    pub fn done(val: T) -> (w: Waiter<T>)
        ensures
            w.yields_only(val),
            w.predicate(val),
            w.resolved(),
    {
        let produce = (move || -> (r: T)
            ensures
                r == val,
            { val });
        let (sender, mut waiter) = channel_for(&produce);
        let v = produce();
        send_value(sender, v);
        let ghost fresh = waiter;
        waiter.resolved = Ghost(true);
        proof {
            assert(waiter.pred == fresh.pred);
            assert forall|x: T| #[trigger] waiter.predicate(x) implies x == val by {
                assert(fresh.predicate(x));
            }
            assert(produce.ensures((), val));
            assert(fresh.predicate(val));
            assert(waiter.predicate(val));
        }
        waiter
    }
}

/// The round trip, for every value `val`: a handle created already holding
/// `val` is resolved and yields nothing but `val`, so a wait on it — any
/// result within [`Waiter::wait`]'s contract — returns exactly `Ok(val)`.
pub proof fn lemma_resolved_wait_returns_value<T>(w: Waiter<T>, val: T, r: Result<T, WaitError>)
    requires
        w.yields_only(val),
        w.resolved(),
        r matches Ok(v) ==> w.predicate(v),
        w.resolved() ==> r is Ok,
    ensures
        r == Ok::<T, WaitError>(val),
{
    match r {
        Ok(v) => {
            assert(w.predicate(v));
        },
        Err(_) => {
            assert(false);
        },
    }
}

} // verus!
