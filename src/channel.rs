//! The channels between callers and the worker, and the outside types that
//! travel over them.

use vstd::prelude::*;

verus! {

#[verifier::external_type_specification]
#[verifier::external_body]
#[verifier::reject_recursive_types(T)]
pub struct ExSender<T>(crossbeam_channel::Sender<T>);

#[verifier::external_type_specification]
#[verifier::external_body]
#[verifier::reject_recursive_types(T)]
pub struct ExReceiver<T>(crossbeam_channel::Receiver<T>);

#[verifier::external_type_specification]
#[verifier::external_body]
pub struct ExValue(serde_json::Value);

#[verifier::external_type_specification]
#[verifier::external_body]
pub struct ExError(anyhow::Error);

/// What a work item hands back: a structured value, or its own error.
pub type Reply = Result<serde_json::Value, anyhow::Error>;

/// A request: the work item and the channel its reply goes back on.
pub type Request<J> = (J, crossbeam_channel::Sender<Reply>);

/// The largest request-channel capacity accepted. crossbeam's bounded
/// channel panics where its lap arithmetic on the capacity overflows, and
/// allocates every slot up front.
pub const MAX_CAPACITY: usize = 1 << 30;

/// Relies on crossbeam_channel::bounded: a channel holding at most `cap`
/// messages (zero: each send waits for a receive). It panics only on a
/// capacity too large for its index arithmetic, which `requires` rules out.
#[verifier::external_body]
pub(crate) fn bounded_channel<T>(cap: usize) -> (r: (
    crossbeam_channel::Sender<T>,
    crossbeam_channel::Receiver<T>,
))
    requires
        cap <= MAX_CAPACITY,
{
    crossbeam_channel::bounded(cap)
}

/// Relies on crossbeam_channel::Sender::send: it blocks while the channel is
/// full, and on failure (every receiver gone) hands the message back.
#[verifier::external_body]
pub(crate) fn send_message<T>(s: &crossbeam_channel::Sender<T>, msg: T) -> (r: Result<(), T>)
    ensures
        r matches Err(m) ==> m == msg,
{
    s.send(msg).map_err(|e| e.0)
}

/// Relies on crossbeam_channel::Receiver::recv: the next message in the
/// order sent, or `None` once the channel is empty and every sender gone.
#[verifier::external_body]
pub(crate) fn receive_message<T>(r: &crossbeam_channel::Receiver<T>) -> (m: Option<T>) {
    r.recv().ok()
}

/// Takes the next request off the request channel; `None` once the channel
/// is closed and drained.
pub fn next_request<J>(requests: &crossbeam_channel::Receiver<Request<J>>) -> (r: Option<
    Request<J>,
>) {
    receive_message(requests)
}

/// Sends a work item's result back to its caller. Where the caller is gone
/// the result comes back unchanged.
pub fn deliver(reply_to: crossbeam_channel::Sender<Reply>, result: Reply) -> (r: Result<(), Reply>)
    ensures
        r matches Err(back) ==> back == result,
{
    send_message(&reply_to, result)
}

} // verus!
