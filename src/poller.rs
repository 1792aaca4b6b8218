use vstd::prelude::*;

use crate::web::{WUpdate, Wrapper};

verus! {

/// Seconds the gateway may hold a long poll open.
pub const CONSUMER_INTERVAL: u64 = 2;

/// Seconds to wait before the next poll cycle.
pub const IDLE_DELAY: u64 = 3;

/// Why a poll cycle yielded no updates.
#[derive(Clone, Copy, Debug, PartialEq, Eq, Structural)]
pub enum PollError {
    /// The cursor could not be read from the store.
    Store,
    /// The gateway could not be reached or did not answer in time.
    Transport,
    /// The gateway answered with a status outside 200..=299.
    Status(u16),
    /// The gateway's reply could not be decoded.
    Decode,
}

/// What the gateway did with a long-poll request.
#[derive(Clone, Debug)]
pub enum GatewayReply {
    /// No reply: the request failed or timed out.
    Unreachable,
    /// A reply with its HTTP status and its body decoded as an envelope of updates
    /// (`None` when the body could not be decoded).
    Answered(u16, Option<Wrapper<Vec<WUpdate>>>),
}

/// A status in the success range.
pub open spec fn is_success(status: u16) -> bool {
    200 <= status <= 299
}

/// The items of a poll cycle that received `reply`.
pub open spec fn poll_outcome(reply: GatewayReply) -> Seq<Result<WUpdate, PollError>> {
    match reply {
        GatewayReply::Unreachable => seq![Err(PollError::Transport)],
        GatewayReply::Answered(status, body) => if !is_success(status) {
            seq![Err(PollError::Status(status))]
        } else {
            match body {
                None => seq![Err(PollError::Decode)],
                Some(w) => match w.result {
                    Some(v) => v@.map_values(|u: WUpdate| Ok(u)),
                    None => Seq::empty(),
                },
            }
        },
    }
}

/// The items that a poll cycle yields for the gateway's reply: the updates in the order
/// the gateway gave them, or exactly one error when the request failed, the status was
/// not a success, or the body could not be decoded. A reply without a result yields
/// nothing.
pub fn poll_items(reply: GatewayReply) -> (r: Vec<Result<WUpdate, PollError>>)
    ensures
        r@ == poll_outcome(reply),
{
    match reply {
        GatewayReply::Unreachable => vec![Err(PollError::Transport)],
        GatewayReply::Answered(status, body) => {
            if status < 200 || status > 299 {
                return vec![Err(PollError::Status(status))];
            }
            match body {
                None => vec![Err(PollError::Decode)],
                Some(w) => match w.result {
                    Some(updates) => {
                        let ghost src = updates@;
                        let mut out: Vec<Result<WUpdate, PollError>> = Vec::new();
                        let mut rest = updates;
                        while rest.len() > 0
                            invariant
                                out@.len() + rest@.len() == src.len(),
                                forall|j: int|
                                    0 <= j < out@.len() ==> #[trigger] out@[j] == Ok::<
                                        WUpdate,
                                        PollError,
                                    >(src[j]),
                                forall|j: int|
                                    0 <= j < rest@.len() ==> #[trigger] rest@[j] == src[out@.len()
                                        + j],
                            decreases rest@.len(),
                        {
                            let u = rest.remove(0);
                            out.push(Ok(u));
                        }
                        assert(out@ =~= src.map_values(|u: WUpdate| Ok(u)));
                        out
                    },
                    None => Vec::new(),
                },
            }
        },
    }
}

/// The request failed, the status was not a success, or the body could not be decoded.
pub open spec fn is_failed_reply(reply: GatewayReply) -> bool {
    match reply {
        GatewayReply::Unreachable => true,
        GatewayReply::Answered(status, body) => !is_success(status) || body is None,
    }
}

/// A failed reply yields exactly one error and no update, so nothing is dispatched and
/// the cursor, hence the next cycle's offset, stays where it was.
pub proof fn lemma_failed_poll_yields_one_error(reply: GatewayReply)
    requires
        is_failed_reply(reply),
    ensures
        poll_outcome(reply).len() == 1,
        poll_outcome(reply)[0] is Err,
{
}

} // verus!
