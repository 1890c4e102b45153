//! Decisions of the network handler: how many message channels it opens,
//! which channel an incoming message goes to, and how the loop that reads
//! the messages of one connection goes on and ends.

use vstd::prelude::*;

use crate::error::{NetError, Res};

verus! {

/// How many asynchronous and how many blocking message channels a handler
/// opens: `num_message_receiver` of the kind that the service offers, none
/// of the other. A handler needs at least one channel.
pub fn receiver_channel_counts(sync_service: bool, num_message_receiver: u32) -> (r: (u32, u32))
    requires
        num_message_receiver > 0,
    ensures
        r == (if sync_service {
            (0u32, num_message_receiver)
        } else {
            (num_message_receiver, 0u32)
        }),
{
    if !sync_service {
        (num_message_receiver, 0)
    } else {
        (0, num_message_receiver)
    }
}

/// The channel that a message with hash `hash` goes to, among
/// `num_channels` channels: the hash (taken as a `usize`) modulo the number
/// of channels.
pub fn message_channel_index(hash: u64, num_channels: usize) -> (r: usize)
    requires
        num_channels > 0,
    ensures
        r == (hash as usize) as int % num_channels as int,
        r < num_channels,
{
    (hash as usize) % num_channels
}

/// Messages with equal hashes go to the same channel, and every message goes
/// to one of the channels.
pub proof fn lemma_equal_hashes_same_channel(h1: u64, h2: u64, num_channels: usize)
    requires
        num_channels > 0,
        h1 == h2,
    ensures
        (h1 as usize) as int % num_channels as int == (h2 as usize) as int % num_channels as int,
        0 <= (h1 as usize) as int % (num_channels as int) < num_channels,
{
}

/// What the message loop of a connection does after handling one message.
pub enum LoopStep {
    /// Read the next message.
    Continue,
    /// Leave the loop; `report` says whether the error is reported.
    Stop { report: bool },
}

/// After one message of a connection was handled with outcome `r`: go on
/// when it succeeded; otherwise stop, reporting every error but the end of
/// the stream.
pub fn after_next_message(r: &Res<()>) -> (s: LoopStep)
    ensures
        r is Ok <==> s is Continue,
        s matches LoopStep::Stop { report } ==> report == !(r->Err_0 is EOF),
{
    match r {
        Ok(()) => LoopStep::Continue,
        Err(e) => LoopStep::Stop { report: !e.is_eof() },
    }
}

/// How the handling of a connection ends, once its message loop ended with
/// `r`.
pub struct LoopEnd {
    /// Whether the error is reported (again).
    pub report: bool,
    /// Whether the endpoint is closed.
    pub close_endpoint: bool,
    /// What the handling of the connection returns.
    pub result: Res<()>,
}

/// The end of the handling of a connection: at the end of the stream the
/// endpoint is left open and `EOF` is returned; after any other error the
/// error is reported, the endpoint closed and success returned; after
/// success the endpoint is closed and success returned.
pub fn after_message_loop(r: Res<()>) -> (end: LoopEnd)
    ensures
        (r matches Err(e) && e is EOF) ==> {
            &&& !end.report
            &&& !end.close_endpoint
            &&& end.result matches Err(e2) && e2 is EOF
        },
        !(r matches Err(e) && e is EOF) ==> {
            &&& end.close_endpoint
            &&& end.result is Ok
            &&& end.report == (r is Err)
        },
{
    match r {
        Ok(()) => LoopEnd { report: false, close_endpoint: true, result: Ok(()) },
        Err(e) => {
            if e.is_eof() {
                LoopEnd { report: false, close_endpoint: false, result: Err(NetError::EOF) }
            } else {
                LoopEnd { report: true, close_endpoint: true, result: Ok(()) }
            }
        },
    }
}

} // verus!
