//! Decisions of the event sender: whether a request waits for its reply and
//! on which kind of channel, and what a request-response send returns.

use vstd::prelude::*;

use crate::error::{NetError, Res};
use crate::node::ReplyKind;

verus! {

/// The reply channel that a request carries. A request waits for its reply
/// unless the caller asked not to wait and wants no result back (an
/// endpoint or a response receiver); a waiting request from a blocking
/// caller carries a thread channel, one from an async caller a one-shot
/// channel.
pub fn plan_request(no_wait: bool, wants_result: bool, blocking: bool) -> (r: ReplyKind)
    ensures
        r is SendNone <==> (no_wait && !wants_result),
        r is Sync <==> (!(no_wait && !wants_result) && blocking),
        r is Async <==> (!(no_wait && !wants_result) && !blocking),
{
    if no_wait && !wants_result {
        ReplyKind::SendNone
    } else if blocking {
        ReplyKind::Sync
    } else {
        ReplyKind::Async
    }
}

/// What a request-response send returns, given the response receiver that
/// the reply carried: the receiver, or `NoneOption` when there is none.
pub fn response_receiver<R>(opt: Option<R>) -> (r: Res<R>)
    ensures
        opt matches Some(x) ==> r == Ok::<R, NetError>(x),
        opt is None ==> (r matches Err(e) && e is NoneOption),
{
    match opt {
        Some(recv) => Ok(recv),
        None => Err(NetError::NoneOption),
    }
}

} // verus!
