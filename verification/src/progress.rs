//! Why a run always gets on: a measure of the work that is left, which no
//! turn of a stage driver increases and which some turn of every round
//! decreases.

use crate::model::PipelineView;
use crate::runner::{after_consume, after_transform, next_of, rest_of};
use crate::state::StageStatus;
use vstd::prelude::*;

verus! {

/// One if the stage is active, else zero.
pub open spec fn active(status: StageStatus) -> nat {
    if status is Active {
        1
    } else {
        0
    }
}

/// The work that is left: every chunk still in the source has three hops
/// to make, every queued chunk two, every queued result one, and every
/// active stage has yet to exit.
pub open spec fn fuel<C, R>(v: PipelineView<C, R>, remaining: nat) -> nat {
    3 * remaining + 2 * v.chunks.items.len() + v.results.items.len() + active(v.source) + active(
        v.transformer,
    ) + active(v.sink)
}

/// Between two turns no stage holds an item.
pub open spec fn at_rest<C, R>(v: PipelineView<C, R>) -> bool {
    v.transforming.is_none() && v.consuming.is_none()
}

/// A turn of the source driver would change something.
pub open spec fn source_moves<C, R>(v: PipelineView<C, R>) -> bool {
    v.source_action() is Pull || (v.source is Active && v.state is Aborting)
}

/// A turn of the transformer driver would change something.
pub open spec fn transformer_moves<C, R>(v: PipelineView<C, R>) -> bool {
    v.transformer is Active && (v.state is Aborting || v.transformer_can_take()
        || v.transformer_at_end())
}

/// A turn of the sink driver would change something.
pub open spec fn sink_moves<C, R>(v: PipelineView<C, R>) -> bool {
    v.sink is Active && (v.state is Aborting || v.sink_can_take() || v.sink_at_end())
}

/// Progress: a started pipeline that is not terminal always has a stage
/// that can move. Full channels never block all three at once.
pub proof fn lemma_some_stage_moves<C, R>(v: PipelineView<C, R>)
    requires
        v.inv(),
        at_rest(v),
        !v.state.terminal(),
        !(v.state is Idle),
    ensures
        source_moves(v) || transformer_moves(v) || sink_moves(v),
{
}

/// A turn of the source driver never adds work, and removes some if the
/// driver can move.
pub(crate) proof fn lemma_load_fuel<C, R>(v: PipelineView<C, R>, pending: Seq<C>)
    requires
        v.inv(),
        at_rest(v),
    ensures
        ({
            let w = if v.source_action() is Pull {
                v.offer(next_of(pending))
            } else {
                v.poll_source()
            };
            let left = if v.source_action() is Pull {
                rest_of(pending)
            } else {
                pending
            };
            &&& fuel(w, left.len()) <= fuel(v, pending.len())
            &&& source_moves(v) ==> fuel(w, left.len()) < fuel(v, pending.len())
            &&& !source_moves(v) ==> w == v
            &&& at_rest(w)
            &&& v.state.abandoned() ==> w.state.abandoned() && w.first_error == v.first_error
            &&& w.state.abandoned() ==> v.state.abandoned()
            &&& w.state is Idle <==> v.state is Idle
        }),
{
    let w = if v.source_action() is Pull {
        v.offer(next_of(pending))
    } else {
        v.poll_source()
    };
    if !source_moves(v) {
        assert(w =~= v);
    }
}

/// A turn of the transformer driver never adds work, and removes some if
/// the driver can move.
pub(crate) proof fn lemma_process_fuel<C, R, E>(v: PipelineView<C, R>, out: Result<R, E>)
    requires
        v.inv(),
        at_rest(v),
    ensures
        ({
            let w = if v.transformer_work() is Item {
                after_transform(v, out)
            } else {
                v.poll_transformer()
            };
            &&& fuel(w, 0) <= fuel(v, 0)
            &&& transformer_moves(v) ==> fuel(w, 0) < fuel(v, 0)
            &&& !transformer_moves(v) ==> w == v
            &&& at_rest(w)
            &&& v.state.abandoned() ==> w.state.abandoned() && w.first_error == v.first_error
            &&& w.state is Idle <==> v.state is Idle
            &&& w.accepted == v.accepted
        }),
{
    let w = if v.transformer_work() is Item {
        after_transform(v, out)
    } else {
        v.poll_transformer()
    };
    v.lemma_poll_transformer_inv();
    if !transformer_moves(v) {
        assert(w =~= v);
    }
}

/// A turn of the sink driver never adds work, and removes some if the
/// driver can move.
pub(crate) proof fn lemma_write_fuel<C, R, E>(v: PipelineView<C, R>, out: Result<(), E>)
    requires
        v.inv(),
        at_rest(v),
    ensures
        ({
            let w = if v.sink_work() is Item {
                after_consume(v, out)
            } else {
                v.poll_sink()
            };
            &&& fuel(w, 0) <= fuel(v, 0)
            &&& sink_moves(v) ==> fuel(w, 0) < fuel(v, 0)
            &&& !sink_moves(v) ==> w == v
            &&& at_rest(w)
            &&& v.state.abandoned() ==> w.state.abandoned() && w.first_error == v.first_error
            &&& w.state is Idle <==> v.state is Idle
            &&& w.accepted == v.accepted
        }),
{
    let w = if v.sink_work() is Item {
        after_consume(v, out)
    } else {
        v.poll_sink()
    };
    v.lemma_poll_sink_inv();
    if !sink_moves(v) {
        assert(w =~= v);
    }
}

} // verus!
