//! What holds of every pipeline, whatever the drivers do and in whatever
//! order they are scheduled.

use crate::config::{Config, ErrorPolicy};
use crate::model::{held, increasing, PipelineView};
use crate::state::PipelineError;
use crate::trace::Step;
use vstd::prelude::*;

verus! {

/// Conservation. After any history, every accepted chunk is in exactly one
/// place: queued or held by a stage, delivered to the sink, failed in the
/// transformer, or dropped by an early stop. Nothing is duplicated or lost.
pub proof fn law_conservation<C, R>(config: Config, steps: Seq<Step<C, R>>)
    requires
        config.valid(),
        steps.len() <= u64::MAX,
    ensures
        ({
            let v = PipelineView::<C, R>::initial(config).run(steps);
            &&& v.accepted == v.in_flight() + v.processed + v.failed() + v.skipped
            &&& v.state.terminal() ==> v.in_flight() == 0
            &&& v.state.terminal() ==> v.accepted == v.processed + v.failed() + v.skipped
        }),
{
    PipelineView::<C, R>::lemma_initial_inv(config);
    PipelineView::<C, R>::initial(config).lemma_run_inv(steps);
}

/// Delivery count. When a history ends in `Completed`, the sink has been
/// handed one result for each accepted chunk except those on which the
/// transformer failed, and nothing was dropped. A pipeline whose
/// transformer failed at all can only complete under the skip policy.
pub proof fn law_completed_count<C, R>(config: Config, steps: Seq<Step<C, R>>)
    requires
        config.valid(),
        steps.len() <= u64::MAX,
        PipelineView::<C, R>::initial(config).run(steps).state is Completed,
    ensures
        ({
            let v = PipelineView::<C, R>::initial(config).run(steps);
            &&& v.delivered.len() == v.accepted - v.transform_failures
            &&& v.processed + v.consume_failures == v.accepted - v.transform_failures
            &&& v.skipped == 0
            &&& v.first_error.is_none()
            &&& v.transform_failures > 0 ==> config.on_transform_error == ErrorPolicy::Skip
            &&& v.consume_failures > 0 ==> config.on_consume_error == ErrorPolicy::Skip
        }),
{
    let init = PipelineView::<C, R>::initial(config);
    PipelineView::<C, R>::lemma_initial_inv(config);
    init.lemma_run_inv(steps);
    lemma_fatal_policy(config, steps);
}

/// Under the abort policy a failure is never survived: a pipeline that
/// has not been stopped early has no failure of that stage on record. The
/// configuration never changes.
pub proof fn lemma_fatal_policy<C, R>(config: Config, steps: Seq<Step<C, R>>)
    requires
        config.valid(),
        steps.len() <= u64::MAX,
    ensures
        ({
            let v = PipelineView::<C, R>::initial(config).run(steps);
            &&& v.inv()
            &&& v.config == config
            &&& !v.state.abandoned() && config.on_transform_error == ErrorPolicy::Abort
                ==> v.transform_failures == 0
            &&& !v.state.abandoned() && config.on_consume_error == ErrorPolicy::Abort
                ==> v.consume_failures == 0
        }),
    decreases steps.len(),
{
    let init = PipelineView::<C, R>::initial(config);
    PipelineView::<C, R>::lemma_initial_inv(config);
    if steps.len() > 0 {
        lemma_fatal_policy(config, steps.drop_last());
        init.lemma_run_inv(steps.drop_last());
        let before = init.run(steps.drop_last());
        before.lemma_step_inv(steps.last());
        if before.state.abandoned() {
            before.lemma_step_abandoned(steps.last());
        }
    }
}

/// First in, first out. After any history, the sequence numbers of the
/// results handed to the sink are strictly increasing and each belongs to
/// an accepted chunk: of two chunks whose results both reach the sink, the
/// one that the source produced first is seen first, and none is seen twice.
pub proof fn law_fifo<C, R>(config: Config, steps: Seq<Step<C, R>>)
    requires
        config.valid(),
        steps.len() <= u64::MAX,
    ensures
        ({
            let v = PipelineView::<C, R>::initial(config).run(steps);
            &&& increasing(v.delivered)
            &&& forall|i: int| 0 <= i < v.delivered.len() ==> v.delivered[i] < v.accepted
            &&& forall|i: int, j: int|
                0 <= i < v.delivered.len() && 0 <= j < v.results.items.len() ==> v.delivered[i]
                    < v.results.items[j].0
            &&& forall|j: int, k: int|
                0 <= j < v.results.items.len() && 0 <= k < v.chunks.items.len()
                    ==> v.results.items[j].0 < v.chunks.items[k].0
        }),
{
    let init = PipelineView::<C, R>::initial(config);
    PipelineView::<C, R>::lemma_initial_inv(config);
    init.lemma_run_inv(steps);
    let v = init.run(steps);
    assert forall|i: int| 0 <= i < v.delivered.len() implies v.delivered[i] < v.accepted by {
        if i < v.delivered.len() - 1 {
            assert(v.delivered[i] < v.delivered[v.delivered.len() - 1]);
        }
    }
    assert forall|i: int, j: int|
        0 <= i < v.delivered.len() && 0 <= j < v.results.items.len() implies v.delivered[i]
        < v.results.items[j].0 by {
        if i < v.delivered.len() - 1 {
            assert(v.delivered[i] < v.delivered[v.delivered.len() - 1]);
        }
    }
}

/// Backpressure. After any history, neither channel holds more items than
/// its capacity, and the result channel has room for what the transformer
/// will make of the chunk it holds.
pub proof fn law_bounded<C, R>(config: Config, steps: Seq<Step<C, R>>)
    requires
        config.valid(),
        steps.len() <= u64::MAX,
    ensures
        ({
            let v = PipelineView::<C, R>::initial(config).run(steps);
            &&& v.chunks.items.len() <= config.chunk_capacity
            &&& v.results.items.len() + held(v.transforming) <= config.result_capacity
        }),
{
    lemma_fatal_policy(config, steps);
}

/// Each item is reported once. After any history, the log of consumed
/// results, the log of transformer failures and the log of sink failures
/// each hold strictly increasing sequence numbers of accepted chunks, and
/// the counters are the lengths of the logs: no item is counted twice.
pub proof fn law_logs<C, R>(config: Config, steps: Seq<Step<C, R>>)
    requires
        config.valid(),
        steps.len() <= u64::MAX,
    ensures
        ({
            let v = PipelineView::<C, R>::initial(config).run(steps);
            &&& increasing(v.completed) && v.completed.len() == v.processed
            &&& increasing(v.failed_transforms) && v.failed_transforms.len()
                == v.transform_failures
            &&& increasing(v.failed_consumes) && v.failed_consumes.len() == v.consume_failures
            &&& forall|k: int| 0 <= k < v.completed.len() ==> v.completed[k] < v.accepted
            &&& forall|k: int|
                0 <= k < v.failed_transforms.len() ==> v.failed_transforms[k] < v.accepted
            &&& forall|k: int| 0 <= k < v.failed_consumes.len() ==> v.failed_consumes[k] < v.accepted
        }),
{
    PipelineView::<C, R>::lemma_initial_inv(config);
    PipelineView::<C, R>::initial(config).lemma_run_inv(steps);
}

/// The effect of a stop. The state that a stop leaves when the pipeline was
/// not terminal: stopping or stopped, both channels closed and empty, and
/// the cause on record.
pub proof fn law_stop_effect<C, R>(v: PipelineView<C, R>)
    requires
        v.inv(),
        !v.state.terminal(),
    ensures
        v.stop().inv(),
        v.stop().state.abandoned(),
        v.stop().chunks.drained(),
        v.stop().results.drained(),
        v.stop().first_error.is_some(),
        v.first_error.is_none() ==> v.stop().first_error == Some(PipelineError::Cancelled),
        v.stop().accepted == v.accepted,
{
    v.lemma_stop_inv();
}

/// Cancellation closes the input. After a stop, whatever calls follow, no
/// further chunk is accepted and the chunk channel stays empty. Unless the
/// pipeline had already completed, it stays stopping or stopped, with the
/// same first error.
pub proof fn law_cancel_freezes_input<C, R>(
    config: Config,
    before: Seq<Step<C, R>>,
    after: Seq<Step<C, R>>,
)
    requires
        config.valid(),
        before.len() <= u64::MAX,
    ensures
        ({
            let stopped = PipelineView::<C, R>::initial(config).run(before).stop();
            let later = stopped.run(after);
            &&& later.accepted == stopped.accepted
            &&& later.chunks.items.len() == 0
            &&& later.first_error == stopped.first_error
            &&& later.state.abandoned() || later.state is Completed
            &&& later.state is Completed <==> PipelineView::<C, R>::initial(config).run(
                before,
            ).state is Completed
        }),
{
    let init = PipelineView::<C, R>::initial(config);
    PipelineView::<C, R>::lemma_initial_inv(config);
    init.lemma_run_inv(before);
    let reached = init.run(before);
    if reached.state.terminal() {
        law_terminal_is_final(reached, after);
    } else {
        law_stop_effect(reached);
        reached.stop().lemma_run_abandoned(after);
    }
}

/// While stopping, the transformer's report clears what it held and
/// touches no other stage.
proof fn lemma_report_transform_stopping<C, R>(v: PipelineView<C, R>, transformed: Option<R>)
    requires
        v.inv(),
        v.state.abandoned(),
    ensures
        ({
            let a = match transformed {
                Some(result) => v.transformed(result),
                None => v.transform_failed(),
            };
            &&& a.inv()
            &&& a.state.abandoned()
            &&& a.transforming.is_none()
            &&& a.consuming == v.consuming
            &&& a.source == v.source
            &&& a.transformer == v.transformer
            &&& a.sink == v.sink
        }),
{
    match transformed {
        Some(result) => v.lemma_transformed_inv(result),
        None => v.lemma_transform_failed_inv(),
    }
}

/// While stopping, the sink's report clears what it held and touches no
/// other stage.
proof fn lemma_report_consume_stopping<C, R>(v: PipelineView<C, R>, consumed: bool)
    requires
        v.inv(),
        v.state.abandoned(),
    ensures
        ({
            let c = if consumed {
                v.consumed()
            } else {
                v.consume_failed()
            };
            &&& c.inv()
            &&& c.state.abandoned()
            &&& c.consuming.is_none()
            &&& c.transforming == v.transforming
            &&& c.source == v.source
            &&& c.transformer == v.transformer
            &&& c.sink == v.sink
        }),
{
    if consumed {
        v.lemma_consumed_inv();
    } else {
        v.lemma_consume_failed_inv();
    }
}

/// While stopping, a poll by a stage that holds nothing is its exit.
proof fn lemma_poll_stopping<C, R>(v: PipelineView<C, R>)
    requires
        v.inv(),
        v.state.abandoned(),
    ensures
        ({
            let t = v.poll_transformer();
            &&& t.inv()
            &&& t.state.abandoned()
            &&& v.transforming.is_none() ==> !(t.transformer is Active)
            &&& t.transforming == v.transforming
            &&& t.consuming == v.consuming
            &&& t.source == v.source
            &&& t.sink == v.sink
        }),
        ({
            let k = v.poll_sink();
            &&& k.inv()
            &&& k.state.abandoned()
            &&& v.consuming.is_none() ==> !(k.sink is Active)
            &&& k.transforming == v.transforming
            &&& k.consuming == v.consuming
            &&& k.source == v.source
            &&& k.transformer == v.transformer
        }),
        ({
            let s = v.poll_source();
            &&& s.inv()
            &&& s.state.abandoned()
            &&& !(s.source is Active)
            &&& s.transforming == v.transforming
            &&& s.consuming == v.consuming
            &&& s.transformer == v.transformer
            &&& s.sink == v.sink
        }),
{
    v.lemma_poll_transformer_inv();
    v.lemma_poll_sink_inv();
    v.lemma_poll_source_inv();
}

/// Cancellation completes in bounded time. After a stop on a pipeline
/// that has not completed, once each stage has reported on the item it may
/// hold and polled once (five driver calls at most, whatever the reports
/// say) the pipeline is `Aborted`.
pub proof fn law_cancel_bounded<C, R>(
    v: PipelineView<C, R>,
    transformed: Option<R>,
    consumed: bool,
)
    requires
        v.inv(),
        !(v.state is Completed),
    ensures
        wind_down(v.stop(), transformed, consumed).state is Aborted,
        wind_down(v.stop(), transformed, consumed).inv(),
{
    v.lemma_stop_inv();
    let s = v.stop();
    let a = match transformed {
        Some(result) => s.transformed(result),
        None => s.transform_failed(),
    };
    lemma_report_transform_stopping(s, transformed);
    lemma_poll_stopping(a);
    let b = a.poll_transformer();
    let c = if consumed {
        b.consumed()
    } else {
        b.consume_failed()
    };
    lemma_report_consume_stopping(b, consumed);
    lemma_poll_stopping(c);
    let d = c.poll_sink();
    lemma_poll_stopping(d);
    let e = d.poll_source();
    assert(e == wind_down(s, transformed, consumed));
    assert(!e.any_active());
}

/// One round of the stop protocol: the transformer reports on the chunk it
/// may hold (a result, or a failure when `transformed` is `None`) and
/// polls, the sink reports likewise and polls, and the source polls.
pub open spec fn wind_down<C, R>(
    v: PipelineView<C, R>,
    transformed: Option<R>,
    consumed: bool,
) -> PipelineView<C, R> {
    let a = match transformed {
        Some(result) => v.transformed(result),
        None => v.transform_failed(),
    };
    let b = a.poll_transformer();
    let c = if consumed {
        b.consumed()
    } else {
        b.consume_failed()
    };
    c.poll_sink().poll_source()
}

/// Shutdown is idempotent. A stop on a `Completed` or `Aborted` pipeline
/// changes nothing and leaves that same terminal state; and a second stop
/// never does anything that the first did not.
pub proof fn law_stop_idempotent<C, R>(v: PipelineView<C, R>)
    requires
        v.inv(),
    ensures
        v.state.terminal() ==> v.stop() == v,
        v.stop().stop() == v.stop(),
{
    v.lemma_stop_inv();
    assert(v.stop().stop() =~= v.stop());
}

/// Terminal states are final. Whatever is called on a `Completed` or
/// `Aborted` pipeline, it stays exactly as it is.
pub proof fn law_terminal_is_final<C, R>(v: PipelineView<C, R>, steps: Seq<Step<C, R>>)
    requires
        v.inv(),
        v.state.terminal(),
    ensures
        v.run(steps) == v,
    decreases steps.len(),
{
    if steps.len() > 0 {
        law_terminal_is_final(v, steps.drop_last());
        v.lemma_step_terminal(steps.last());
    }
}

} // verus!
