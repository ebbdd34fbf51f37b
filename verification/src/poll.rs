use std::sync::mpsc::{Receiver, TryRecvError};
use std::sync::{Mutex, MutexGuard};
use vstd::prelude::*;

verus! {

/// The outcome of one attempt to take a value from a channel without waiting.
pub enum RecvOutcome<T> {
    /// A value was waiting and has been taken.
    Received(T),
    /// The channel is open but holds nothing yet.
    Empty,
    /// Every sender is gone: nothing will ever arrive.
    Disconnected,
}

/// Poll.
pub enum Poll<T> {
    /// Ready.
    Ready(T),
    /// Pending.
    Pending,
}

/// Poll Error.
#[derive(Debug, Clone, Copy, PartialEq, Eq, Structural)]
pub enum PollError {
    /// Disconnected.
    Disconnected,
}

impl<T> Poll<T> {
    /// Maps a `Poll<T>` to `Poll<U>` by applying a function to a contained value.
    pub fn map<U, F>(self, f: F) -> (res: Poll<U>)
        where
            F: FnOnce(T) -> U,
        requires
            self matches Poll::Ready(t) ==> call_requires(f, (t,)),
        ensures
            self is Pending <==> res is Pending,
            self matches Poll::Ready(t) ==> (res matches Poll::Ready(u) && call_ensures(f, (t,), u)),
    {
        match self {
            Poll::Ready(t) => Poll::Ready(f(t)),
            Poll::Pending => Poll::Pending,
        }
    }
}

/// What a poll answers for one receive outcome: a waiting value is ready, a
/// closed channel is a ready error, and an empty channel is still pending.
pub open spec fn poll_of<T>(outcome: RecvOutcome<T>) -> Poll<Result<T, PollError>> {
    match outcome {
        RecvOutcome::Received(v) => Poll::Ready(Ok(v)),
        RecvOutcome::Disconnected => Poll::Ready(Err(PollError::Disconnected)),
        RecvOutcome::Empty => Poll::Pending,
    }
}

/// Turns one receive outcome into the poll answer.
pub fn poll_from_recv<T>(outcome: RecvOutcome<T>) -> (res: Poll<Result<T, PollError>>)
    ensures
        res == poll_of(outcome),
{
    match outcome {
        RecvOutcome::Received(v) => Poll::Ready(Ok(v)),
        RecvOutcome::Disconnected => Poll::Ready(Err(PollError::Disconnected)),
        RecvOutcome::Empty => Poll::Pending,
    }
}


#[verifier::external_type_specification]
#[verifier::external_body]
#[verifier::reject_recursive_types(T)]
pub struct ExReceiver<T>(Receiver<T>);

#[verifier::external_type_specification]
#[verifier::external_body]
#[verifier::reject_recursive_types(T)]
pub struct ExMutex<T: ?Sized>(Mutex<T>);

#[verifier::external_type_specification]
#[verifier::external_body]
#[verifier::reject_recursive_types(T)]
pub struct ExMutexGuard<'a, T: ?Sized + 'a>(MutexGuard<'a, T>);

/// Puts a receiver behind `std::sync::Mutex::new`, so that a value holding it
/// can be shared between threads. Nothing is claimed of the result: it is a
/// handle that only the receive wrappers below read.
#[verifier::external_body]
fn guard_receiver<T>(receiver: Receiver<T>) -> Mutex<Receiver<T>> {
    Mutex::new(receiver)
}

/// Takes the lock with `std::sync::Mutex::lock`. The call blocks only while
/// another thread holds the lock, and the library's own holders only take one
/// value without waiting. It panics if the mutex is poisoned, which needs a
/// holder that panicked while holding it; no holder in this library does.
#[verifier::external_body]
fn lock_receiver<T>(mutex: &Mutex<Receiver<T>>) -> MutexGuard<'_, Receiver<T>> {
    mutex.lock().expect("poisoned")
}

/// Takes one waiting value with `std::sync::mpsc::Receiver::try_recv`, without
/// waiting. What comes back depends on what other threads have sent, so
/// nothing is claimed of which outcome it is.
#[verifier::external_body]
fn recv_now<T>(guard: &MutexGuard<'_, Receiver<T>>) -> RecvOutcome<T> {
    match guard.try_recv() {
        Ok(value) => RecvOutcome::Received(value),
        Err(TryRecvError::Empty) => RecvOutcome::Empty,
        Err(TryRecvError::Disconnected) => RecvOutcome::Disconnected,
    }
}

#[verifier::reject_recursive_types(T)]
/// Future: the receiving end of a one-shot answer from another runtime.
pub struct Future<T> {
    receiver: Option<Mutex<Receiver<T>>>,
    answer: Ghost<Option<T>>,
}

impl<T> Future<T> {
    /// The future has answered: its receiver is gone, which disconnects the
    /// sending side, and every later poll answers that it is disconnected.
    pub closed spec fn is_spent(&self) -> bool {
        self.receiver is None
    }

    /// The value that the future answered with, once a poll has taken one.
    pub closed spec fn answer(&self) -> Option<T> {
        self.answer@
    }

    /// Creates a new [`Future`] that answers with what `receiver` is sent.
    pub fn new(receiver: Receiver<T>) -> (res: Self)
        ensures
            !res.is_spent(),
            res.answer() is None,
    {
        Future { receiver: Some(guard_receiver(receiver)), answer: Ghost(None) }
    }

    /// Takes a waiting value if there is one, without waiting, and says
    /// whether the channel was empty or closed instead. A spent future is
    /// closed.
    pub fn try_take(&self) -> (res: RecvOutcome<T>)
        ensures
            self.is_spent() ==> res is Disconnected,
    {
        match &self.receiver {
            Some(mutex) => {
                let guard = lock_receiver(mutex);
                recv_now(&guard)
            },
            None => RecvOutcome::Disconnected,
        }
    }

    /// Try Poll: takes the answer if it has arrived, without waiting.
    ///
    /// Answers `Ready(Err(Disconnected))` once the sending side is gone and
    /// `Pending` while nothing has arrived yet. The first `Ready` spends the
    /// future: its receiver is dropped, which disconnects the bridge, and
    /// every later poll answers `Ready(Err(Disconnected))`.
    pub fn try_poll(&mut self) -> (res: Poll<Result<T, PollError>>)
        ensures
            old(self).is_spent() ==> res matches Poll::Ready(Err(PollError::Disconnected)),
            res is Ready ==> final(self).is_spent(),
            res is Pending ==> !final(self).is_spent(),
            res matches Poll::Ready(Ok(v)) ==> final(self).answer() == Some(v),
            !(res matches Poll::Ready(Ok(_))) ==> final(self).answer() == old(self).answer(),
    {
        let outcome = self.try_take();
        let res = poll_from_recv(outcome);
        match res {
            Poll::Ready(_) => {
                self.receiver = None;
            },
            Poll::Pending => {},
        }
        if let Poll::Ready(Ok(_)) = &res {
            self.answer = Ghost(Some(res->Ready_0->Ok_0));
        }
        res
    }
}

} // verus!
