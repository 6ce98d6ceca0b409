//! A queue of requests, each carrying the channel its answer goes back on.

use vstd::prelude::*;

verus! {

/// The error of a request sent through the queue: either the queue went away,
/// or the request itself failed with `E`.
pub enum MsgQError<E> {
    QueueDrop,
    Inner(E),
}

impl<E> MsgQError<E> {
    /// The request's own error, if that is what this is.
    pub fn get_inner(self) -> (r: Option<E>)
        ensures
            match self {
                MsgQError::Inner(e) => r == Some(e),
                MsgQError::QueueDrop => r is None,
            },
    {
        match self {
            MsgQError::Inner(e) => Some(e),
            _ => None,
        }
    }

    /// Wrap the request's own error.
    pub fn from_error(e: E) -> (r: Self)
        ensures
            r == MsgQError::<E>::Inner(e),
    {
        MsgQError::Inner(e)
    }

    /// What a failed send or a dropped answer channel turns into.
    pub fn queue_drop() -> (r: Self)
        ensures
            r == MsgQError::<E>::QueueDrop,
    {
        MsgQError::QueueDrop
    }

    /// The error's text; `inner` is the text of the request's own error.
    pub fn message(&self, inner: &str) -> (r: String)
        ensures
            match self {
                MsgQError::QueueDrop => r@ == "message queue is dropped"@,
                MsgQError::Inner(_) => r@ == "inner error message: "@ + inner@,
            },
    {
        match self {
            MsgQError::QueueDrop => String::from_str("message queue is dropped"),
            MsgQError::Inner(_) => String::from_str("inner error message: ").concat(inner),
        }
    }
}

/// A request with the channel its answer goes back on; a message without a
/// request asks the worker to close the queue.
pub struct Message<M, T> {
    msg: Option<M>,
    cb_tx: T,
}

impl<M, T> Message<M, T> {
    pub closed spec fn request(&self) -> Option<M> {
        self.msg
    }

    pub closed spec fn responder(&self) -> T {
        self.cb_tx
    }

    /// A message carrying `msg`.
    pub fn new(msg: M, cb_tx: T) -> (r: Self)
        ensures
            r.request() == Some(msg),
            r.responder() == cb_tx,
    {
        Message { msg: Some(msg), cb_tx }
    }

    /// A message that asks the worker to close the queue.
    pub fn close_msg(cb_tx: T) -> (r: Self)
        ensures
            r.request() is None,
            r.responder() == cb_tx,
    {
        Message { msg: None, cb_tx }
    }

    /// Whether this message asks to close the queue.
    pub fn is_close_msg(&self) -> (r: bool)
        ensures
            r == self.request() is None,
    {
        self.msg.is_none()
    }

    /// Take the request out; a second call gets nothing.
    pub fn try_get_msg(&mut self) -> (r: Option<M>)
        ensures
            r == old(self).request(),
            final(self).request() is None,
            final(self).responder() == old(self).responder(),
    {
        self.msg.take()
    }

    /// Give up the message for its answer channel.
    pub fn into_responder(self) -> (r: T)
        ensures
            r == self.responder(),
    {
        self.cb_tx
    }
}

/// What the worker does with the next message it receives.
pub enum WorkerStep<M> {
    /// Serve this request and answer it.
    Serve(M),
    /// Close the queue, drop what is still in it, and stop.
    Drain,
    /// The queue is gone: stop.
    Stop,
}

/// Decide what the worker does with what the queue gave it.
pub fn worker_step<M, T>(received: Option<Message<M, T>>) -> (r: (WorkerStep<M>, Option<T>))
    ensures
        match received {
            None => r.0 is Stop && r.1 is None,
            Some(m) => match m.request() {
                None => r.0 is Drain && r.1 is None,
                Some(q) => r.0 == WorkerStep::Serve(q) && r.1 == Some(m.responder()),
            },
        },
{
    match received {
        None => (WorkerStep::Stop, None),
        Some(mut m) => {
            if m.is_close_msg() {
                (WorkerStep::Drain, None)
            } else {
                match m.try_get_msg() {
                    Some(q) => (WorkerStep::Serve(q), Some(m.into_responder())),
                    None => (WorkerStep::Drain, None),
                }
            }
        },
    }
}

} // verus!
