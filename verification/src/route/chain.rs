//! What a walk along a middleware chain may end in.

use vstd::prelude::*;
use crate::server::{RequestView, ResponseView};
use super::MiddleWare;

verus! {

/// The exchange as one middleware unit left it, and whether that unit
/// declared the request fully handled.
pub struct Step {
    pub req: RequestView,
    pub res: ResponseView,
    pub finished: bool,
}

/// Walking `chain` from position `from` on the exchange `(req, res)` may end
/// in `end`.
///
/// The units run in the order of the sequence, each on what the one before
/// left. The first unit that reports the request as finished ends the walk
/// with the exchange as that unit left it; no later unit runs. A walk that
/// reaches the end of the chain ends unfinished, with the exchange as the
/// last unit left it.
pub open spec fn chain_runs<M: MiddleWare>(
    chain: Seq<M>,
    from: int,
    req: RequestView,
    res: ResponseView,
    end: Step,
) -> bool
    decreases chain.len() - from,
{
    if 0 <= from < chain.len() {
        exists|mid: Step| #[trigger]
            chain[from].effect(req, res, mid) && if mid.finished {
                end == mid
            } else {
                chain_runs(chain, from + 1, mid.req, mid.res, end)
            }
    } else {
        end == (Step { req, res, finished: false })
    }
}

/// One unit's step, followed by a walk along the rest, is a walk from that
/// unit on.
pub proof fn lemma_chain_step<M: MiddleWare>(
    chain: Seq<M>,
    from: int,
    req: RequestView,
    res: ResponseView,
    mid: Step,
    end: Step,
)
    requires
        0 <= from < chain.len(),
        chain[from].effect(req, res, mid),
        if mid.finished {
            end == mid
        } else {
            chain_runs(chain, from + 1, mid.req, mid.res, end)
        },
    ensures
        chain_runs(chain, from, req, res, end),
{
}

} // verus!
