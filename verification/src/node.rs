//! Decisions of a node's event loop: whether the loop goes on after an
//! event, and which reply a request that waits for one receives.

use vstd::prelude::*;

use crate::error::Res;

verus! {

/// How the requester of an event waits for its reply.
#[derive(Clone, Copy)]
pub enum ReplyKind {
    /// The requester does not wait for a reply.
    SendNone,
    /// The requester blocks on a thread channel.
    Sync,
    /// The requester awaits a one-shot channel.
    Async,
}

/// The reply that is sent back to the requester of an event.
pub enum Reply<S, A> {
    /// No reply is sent.
    Nothing,
    /// This value is sent on the blocking reply channel.
    Sync(S),
    /// This value is sent on the asynchronous reply channel.
    Async(A),
}

/// The outcome of an endpoint request as the requester sees it: the
/// endpoint itself when it asked for it, nothing when it did not, the error
/// when the request failed.
pub open spec fn endpoint_outcome<E, X>(return_endpoint: bool, res: Result<E, X>) -> Result<Option<E>, X> {
    match res {
        Ok(e) => Ok(
            if return_endpoint {
                Some(e)
            } else {
                None
            },
        ),
        Err(err) => Err(err),
    }
}

/// The replies prepared for the blocking and for the asynchronous reply
/// channel: only the kind that the requester waits on gets one.
pub open spec fn prepared_replies<E, X>(return_endpoint: bool, res: Result<E, X>, kind: ReplyKind) -> (
    Option<Result<Option<E>, X>>,
    Option<Result<Option<E>, X>>,
) {
    match kind {
        ReplyKind::SendNone => (None, None),
        ReplyKind::Async => (None, Some(endpoint_outcome(return_endpoint, res))),
        ReplyKind::Sync => (Some(endpoint_outcome(return_endpoint, res)), None),
    }
}

/// The reply sent to a requester that waits on a channel of kind `kind`:
/// what was prepared for that kind of channel, if anything.
pub open spec fn chosen_reply<S, A>(opt_sync: Option<S>, opt_async: Option<A>, kind: ReplyKind) -> Reply<S, A> {
    match kind {
        ReplyKind::SendNone => Reply::Nothing,
        ReplyKind::Sync => match opt_sync {
            Some(s) => Reply::Sync(s),
            None => Reply::Nothing,
        },
        ReplyKind::Async => match opt_async {
            Some(a) => Reply::Async(a),
            None => Reply::Nothing,
        },
    }
}

fn to_outcome<E, X>(return_endpoint: bool, res: Result<E, X>) -> (r: Result<Option<E>, X>)
    ensures
        r == endpoint_outcome(return_endpoint, res),
{
    match res {
        Ok(e) => Ok(
            if return_endpoint {
                Some(e)
            } else {
                None
            },
        ),
        Err(err) => Err(err),
    }
}

/// The replies prepared for the blocking and for the asynchronous reply
/// channel after an endpoint request (connect, listen or send) ended with
/// `res_endpoint`, whatever the error type of the request.
pub fn handle_result_endpoint<E, X>(return_endpoint: bool, res_endpoint: Result<E, X>, kind: ReplyKind) -> (r: (
    Option<Result<Option<E>, X>>,
    Option<Result<Option<E>, X>>,
))
    ensures
        r == prepared_replies(return_endpoint, res_endpoint, kind),
        kind is SendNone ==> r.0 is None && r.1 is None,
        kind is Async ==> r.0 is None && r.1 is Some,
        kind is Sync ==> r.0 is Some && r.1 is None,
        forall|o: Result<Option<E>, X>|
            (r.0 == Some(o) || r.1 == Some(o)) ==> match res_endpoint {
                Ok(e) => o == Ok::<Option<E>, X>(
                    if return_endpoint {
                        Some(e)
                    } else {
                        None
                    },
                ),
                Err(x) => o == Err::<Option<E>, X>(x),
            },
{
    match kind {
        ReplyKind::SendNone => (None, None),
        ReplyKind::Async => (None, Some(to_outcome(return_endpoint, res_endpoint))),
        ReplyKind::Sync => (Some(to_outcome(return_endpoint, res_endpoint)), None),
    }
}

/// The reply sent to a requester that waits on a channel of kind `kind`,
/// given what was prepared for each kind of channel.
pub fn handle_opt_send_result<S, A>(opt_ep_sync: Option<S>, opt_ep_async: Option<A>, kind: ReplyKind) -> (r: Reply<S, A>)
    ensures
        r == chosen_reply(opt_ep_sync, opt_ep_async, kind),
        kind is SendNone ==> r is Nothing,
        kind is Sync ==> !(r is Async) && (r is Nothing <==> opt_ep_sync is None),
        kind is Async ==> !(r is Sync) && (r is Nothing <==> opt_ep_async is None),
        r matches Reply::Sync(s) ==> opt_ep_sync == Some(s),
        r matches Reply::Async(a) ==> opt_ep_async == Some(a),
{
    match kind {
        ReplyKind::SendNone => Reply::Nothing,
        ReplyKind::Sync => match opt_ep_sync {
            Some(s) => Reply::Sync(s),
            None => Reply::Nothing,
        },
        ReplyKind::Async => match opt_ep_async {
            Some(a) => Reply::Async(a),
            None => Reply::Nothing,
        },
    }
}

/// A reply goes only to the channel that the requester waits on, and is
/// what was prepared for that channel: a requester that does not wait gets
/// nothing, whatever was prepared; a blocking requester never gets an
/// asynchronous reply and the reverse.
pub proof fn lemma_reply_only_on_waited_channel<S, A>(opt_sync: Option<S>, opt_async: Option<A>)
    ensures
        chosen_reply(opt_sync, opt_async, ReplyKind::SendNone) is Nothing,
        !(chosen_reply(opt_sync, opt_async, ReplyKind::Sync) is Async),
        !(chosen_reply(opt_sync, opt_async, ReplyKind::Async) is Sync),
        chosen_reply(opt_sync, opt_async, ReplyKind::Sync) is Nothing <==> opt_sync is None,
        chosen_reply(opt_sync, opt_async, ReplyKind::Async) is Nothing <==> opt_async is None,
        forall|s: S|
            chosen_reply(opt_sync, opt_async, ReplyKind::Sync) == Reply::<S, A>::Sync(s) <==> opt_sync
                == Some(s),
        forall|a: A|
            chosen_reply(opt_sync, opt_async, ReplyKind::Async) == Reply::<S, A>::Async(a)
                <==> opt_async == Some(a),
{
}

/// Only the channel that the requester waits on gets a prepared reply, and
/// that reply is the outcome of the request: the error when it failed, the
/// endpoint when it succeeded and the requester asked for it, nothing when
/// it succeeded and the requester did not.
pub proof fn lemma_prepared_only_for_waited_channel<E, X>(return_endpoint: bool, res: Result<E, X>)
    ensures
        prepared_replies(return_endpoint, res, ReplyKind::SendNone).0 is None,
        prepared_replies(return_endpoint, res, ReplyKind::SendNone).1 is None,
        prepared_replies(return_endpoint, res, ReplyKind::Async).0 is None,
        prepared_replies(return_endpoint, res, ReplyKind::Sync).1 is None,
        prepared_replies(return_endpoint, res, ReplyKind::Async).1 == prepared_replies(
            return_endpoint,
            res,
            ReplyKind::Sync,
        ).0,
        prepared_replies(return_endpoint, res, ReplyKind::Async).1 == Some(
            match res {
                Ok(e) => Ok::<Option<E>, X>(
                    if return_endpoint {
                        Some(e)
                    } else {
                        None
                    },
                ),
                Err(x) => Err::<Option<E>, X>(x),
            },
        ),
{
}

/// Whether the event loop goes on after handling an event with outcome
/// `r`: it stops exactly when the outcome is the end-of-stream error, which
/// the stop event returns.
pub fn continue_main_loop(r: &Res<()>) -> (c: bool)
    ensures
        c <==> !(r matches Err(e) && e is EOF),
{
    match r {
        Ok(()) => true,
        Err(e) => !e.is_eof(),
    }
}

/// A requester of an endpoint request receives exactly the outcome of the
/// request, on the channel it waits on, and a requester that does not wait
/// receives nothing; the outcome holds the endpoint exactly when the
/// request succeeded and the requester asked for the endpoint.
pub proof fn lemma_requester_gets_outcome<E, X>(return_endpoint: bool, res: Result<E, X>, kind: ReplyKind)
    ensures
        ({
            let prepared = prepared_replies(return_endpoint, res, kind);
            let outcome = endpoint_outcome(return_endpoint, res);
            chosen_reply(prepared.0, prepared.1, kind) == match kind {
                ReplyKind::SendNone => Reply::Nothing,
                ReplyKind::Sync => Reply::Sync(outcome),
                ReplyKind::Async => Reply::<Result<Option<E>, X>, Result<Option<E>, X>>::Async(outcome),
            }
        }),
        endpoint_outcome(return_endpoint, res) matches Ok(Some(_)) <==> (res is Ok && return_endpoint),
        endpoint_outcome(return_endpoint, res) matches Ok(None) <==> (res is Ok && !return_endpoint),
{
}

} // verus!
