//! The handle that callers share. Each `execute` sends one request on the
//! bounded request channel (blocking while it is full) and waits on a
//! private rendezvous channel for the worker's reply.

use vstd::prelude::*;
use crate::channel::{
    bounded_channel, receive_message, send_message, Reply, Request, MAX_CAPACITY,
};

verus! {

/// Why a request could not reach the worker or its reply could not come back.
#[derive(PartialEq, Eq, Structural, Clone, Copy, Debug)]
pub enum ChannelError {
    /// This handle has released its side of the request channel.
    Released,
    /// The worker no longer takes requests.
    Rejected,
    /// The request was taken but no reply came back.
    ReplyLost,
}

/// What `execute` can fail with: the work item's own error, or a failure to
/// reach the worker.
pub enum TransactorError {
    Work(anyhow::Error),
    Channel(ChannelError),
}

impl TransactorError {
    /// Whether the failure is the work item's own.
    pub fn is_work(&self) -> (r: bool)
        ensures
            r == (self is Work),
    {
        match self {
            TransactorError::Work(_) => true,
            TransactorError::Channel(_) => false,
        }
    }

    /// The channel failure, if that is what this is.
    pub fn channel(&self) -> (r: Option<ChannelError>)
        ensures
            r == (match self {
                TransactorError::Channel(c) => Some(*c),
                TransactorError::Work(_) => None,
            }),
    {
        match self {
            TransactorError::Channel(c) => Some(*c),
            TransactorError::Work(_) => None,
        }
    }
}

/// What `execute` returns, given whether the request was sent and what came
/// back on the reply channel.
pub open spec fn settled(sent: bool, reply: Option<Reply>) -> Result<serde_json::Value, TransactorError> {
    if !sent {
        Err(TransactorError::Channel(ChannelError::Rejected))
    } else {
        match reply {
            None => Err(TransactorError::Channel(ChannelError::ReplyLost)),
            Some(Ok(v)) => Ok(v),
            Some(Err(e)) => Err(TransactorError::Work(e)),
        }
    }
}

/// Turns the outcome of one round trip into the caller's result: the work
/// item's value or error where a reply came back, a channel failure where
/// the request was refused or its reply lost.
pub fn settle(sent: bool, reply: Option<Reply>) -> (r: Result<serde_json::Value, TransactorError>)
    ensures
        r == settled(sent, reply),
{
    if !sent {
        Err(TransactorError::Channel(ChannelError::Rejected))
    } else {
        match reply {
            None => Err(TransactorError::Channel(ChannelError::ReplyLost)),
            Some(Ok(v)) => Ok(v),
            Some(Err(e)) => Err(TransactorError::Work(e)),
        }
    }
}

/// The callers' side of a worker: the sending end of its request channel.
/// `J` is the type of work item; every handle that shares the channel
/// reaches the same worker.
#[verifier::reject_recursive_types(J)]
pub struct SqliteTransactor<J> {
    sender: Option<crossbeam_channel::Sender<Request<J>>>,
}

impl<J> SqliteTransactor<J> {
    /// Whether this handle still holds its side of the request channel.
    pub closed spec fn is_open(&self) -> bool {
        self.sender is Some
    }

    /// Opens a request channel of capacity `cap`: the handle that sends on it
    /// and the receiving end for the worker.
    pub fn new(cap: usize) -> (r: (SqliteTransactor<J>, crossbeam_channel::Receiver<Request<J>>))
        requires
            cap <= MAX_CAPACITY,
        ensures
            r.0.is_open(),
    {
        let (sender, receiver) = bounded_channel(cap);
        (SqliteTransactor { sender: Some(sender) }, receiver)
    }

    pub fn is_released(&self) -> (r: bool)
        ensures
            r == !self.is_open(),
    {
        self.sender.is_none()
    }

    /// Runs `work` on the worker and returns its result. Blocks while the
    /// request channel is full, then until the reply comes.
    pub fn execute(&self, work: J) -> (r: Result<serde_json::Value, TransactorError>)
        ensures
            !self.is_open() ==> r == Err::<serde_json::Value, TransactorError>(
                TransactorError::Channel(ChannelError::Released),
            ),
            self.is_open() ==> exists|sent: bool, reply: Option<Reply>| r == settled(sent, reply),
    {
        match &self.sender {
            None => Err(TransactorError::Channel(ChannelError::Released)),
            Some(sender) => {
                let (reply_to, replies) = bounded_channel(0);
                match send_message(sender, (work, reply_to)) {
                    Err(_) => {
                        let r = settle(false, None);
                        assert(r == settled(false, None));
                        r
                    },
                    Ok(()) => {
                        let reply = receive_message(&replies);
                        let r = settle(true, reply);
                        assert(r == settled(true, reply));
                        r
                    },
                }
            },
        }
    }

    /// Gives up this handle's side of the request channel. Once every
    /// handle has done so (or been dropped), the worker sees the channel
    /// close and finishes.
    pub fn release(&mut self)
        ensures
            !final(self).is_open(),
    {
        self.sender = None;
    }
}

} // verus!
