//! What holds between two rounds of a run, and why each turn keeps it.

use crate::config::{Config, ErrorPolicy};
use crate::model::PipelineView;
use crate::pipeline::Pipeline;
use crate::progress::{
    at_rest, fuel, lemma_load_fuel, lemma_process_fuel, lemma_some_stage_moves, lemma_write_fuel,
    sink_moves, source_moves, transformer_moves,
};
use crate::runner::{
    after_consume, after_transform, cancelled_at_once, cause_justified, certified, consumable,
    consume_fails_on, first_seen, next_of, rest_of, transform_fails_on,
};
use crate::state::{PipelineError, Summary};
use vstd::prelude::*;

verus! {

/// How a running pipeline hangs together with the input it is fed from:
/// the source holds the chunks not yet accepted, every queued chunk is the
/// input chunk of its sequence number, and every queued result is something
/// that `transform` returned for the input chunk of its sequence number.
pub(crate) open spec fn linked<C, R, TE, F>(
    chunks: Seq<C>,
    transform: F,
    v: PipelineView<C, R>,
    pending: Seq<C>,
) -> bool where F: Fn(C) -> Result<R, TE> {
    &&& v.accepted + pending.len() <= chunks.len()
    &&& pending =~= chunks.subrange(chunks.len() - pending.len(), chunks.len() as int)
    &&& v.state is Running ==> v.accepted + pending.len() == chunks.len()
    &&& v.state is Draining || v.state is Completed ==> pending.len() == 0 && v.accepted
        == chunks.len()
    &&& forall|i: int|
        0 <= i < v.chunks.items.len() ==> (#[trigger] v.chunks.items[i]).1 == chunks[v.chunks.items[i].0 as int]
    &&& forall|j: int|
        0 <= j < v.results.items.len() ==> call_ensures(
            transform,
            (chunks[(#[trigger] v.results.items[j]).0 as int],),
            Ok::<R, TE>(v.results.items[j].1),
        )
}

/// Everything that holds of a run between two turns. `asked` says that
/// the cancellation check has been consulted at least once.
#[verifier::opaque]
pub(crate) open spec fn sound<C, R, TE, CE, F, G, K>(
    chunks: Seq<C>,
    transform: F,
    consume: G,
    cancelled: K,
    config: Config,
    v: PipelineView<C, R>,
    pending: Seq<C>,
    asked: bool,
) -> bool where F: Fn(C) -> Result<R, TE>, G: Fn(R) -> Result<(), CE>, K: Fn(Summary) -> bool {
    &&& v.inv()
    &&& {
        ||| !asked && v == PipelineView::<C, R>::initial(config).start()
        ||| call_ensures(cancelled, (first_seen(),), false)
        ||| v.state.abandoned() && v.accepted == 0 && v.first_error == Some(
            PipelineError::Cancelled,
        )
    }
    &&& v.config == config
    &&& at_rest(v)
    &&& !(v.state is Idle)
    &&& chunks.len() <= u64::MAX
    &&& linked(chunks, transform, v, pending)
    &&& certified(chunks, transform, consume, v)
    &&& cause_justified(chunks, transform, consume, cancelled, config, v.first_error)
    &&& !v.state.abandoned() && config.on_transform_error == ErrorPolicy::Abort
        ==> v.transform_failures == 0
    &&& !v.state.abandoned() && config.on_consume_error == ErrorPolicy::Abort
        ==> v.consume_failures == 0
}

/// Asking for cancellation keeps a run sound, adds no work, and leaves a
/// pipeline in which some stage can move.
pub(crate) proof fn lemma_cancel_round<C, R, TE, CE, F, G, K>(
    chunks: Seq<C>,
    transform: F,
    consume: G,
    cancelled: K,
    config: Config,
    v: PipelineView<C, R>,
    pending: Seq<C>,
    seen: Summary,
    stop: bool,
) where F: Fn(C) -> Result<R, TE>, G: Fn(R) -> Result<(), CE>, K: Fn(Summary) -> bool
    requires
        sound(chunks, transform, consume, cancelled, config, v, pending, false),
        !v.state.terminal(),
        seen == Pipeline::summary_of(v),
        call_ensures(cancelled, (seen,), stop),
    ensures
        ({
            let w = if stop {
                v.stop()
            } else {
                v
            };
            &&& sound(chunks, transform, consume, cancelled, config, w, pending, true)
            &&& fuel(w, pending.len()) <= fuel(v, pending.len())
            &&& source_moves(w) || transformer_moves(w) || sink_moves(w)
        }),
{
    reveal(sound);
    let w = if stop {
        v.stop()
    } else {
        v
    };
    v.lemma_stop_inv();
    lemma_some_stage_moves(w);
}

/// A turn of the source driver in a sound run.
pub(crate) proof fn lemma_load_round<C, R, TE, CE, F, G, K>(
    chunks: Seq<C>,
    transform: F,
    consume: G,
    cancelled: K,
    config: Config,
    v: PipelineView<C, R>,
    pending: Seq<C>,
) where F: Fn(C) -> Result<R, TE>, G: Fn(R) -> Result<(), CE>, K: Fn(Summary) -> bool
    requires
        sound(chunks, transform, consume, cancelled, config, v, pending, true),
    ensures
        v.inv(),
        pending.len() > 0 ==> v.accepted < u64::MAX,
        ({
            let w = if v.source_action() is Pull {
                v.offer(next_of(pending))
            } else {
                v.poll_source()
            };
            let left = if v.source_action() is Pull {
                rest_of(pending)
            } else {
                pending
            };
            &&& sound(chunks, transform, consume, cancelled, config, w, left, true)
            &&& fuel(w, left.len()) <= fuel(v, pending.len())
            &&& source_moves(v) ==> fuel(w, left.len()) < fuel(v, pending.len())
            &&& !source_moves(v) ==> w == v && left == pending
        }),
{
    reveal(sound);
    lemma_load_fuel(v, pending);
    lemma_load_linked(chunks, transform, v, pending);
    v.lemma_offer_inv(next_of(pending));
    v.lemma_poll_source_inv();
}

/// A turn of the transformer driver in a sound run.
pub(crate) proof fn lemma_process_round<C, R, TE, CE, F, G, K>(
    chunks: Seq<C>,
    transform: F,
    consume: G,
    cancelled: K,
    config: Config,
    v: PipelineView<C, R>,
    pending: Seq<C>,
    out: Result<R, TE>,
) where F: Fn(C) -> Result<R, TE>, G: Fn(R) -> Result<(), CE>, K: Fn(Summary) -> bool
    requires
        sound(chunks, transform, consume, cancelled, config, v, pending, true),
        v.transformer_work() is Item ==> call_ensures(transform, (v.chunks.items[0].1,), out),
    ensures
        ({
            let w = if v.transformer_work() is Item {
                after_transform(v, out)
            } else {
                v.poll_transformer()
            };
            &&& sound(chunks, transform, consume, cancelled, config, w, pending, true)
            &&& fuel(w, pending.len()) <= fuel(v, pending.len())
            &&& transformer_moves(v) ==> fuel(w, pending.len()) < fuel(v, pending.len())
            &&& !transformer_moves(v) ==> w == v
        }),
{
    reveal(sound);
    lemma_process_fuel(v, out);
    lemma_process_linked(chunks, transform, v, pending, out);
    v.lemma_poll_transformer_inv();
    if v.transformer_work() is Item {
        lemma_process_cause(chunks, transform, consume, cancelled, v, pending, out);
        match out {
            Ok(result) => v.poll_transformer().lemma_transformed_inv(result),
            Err(_) => v.poll_transformer().lemma_transform_failed_inv(),
        }
    }
}

/// A turn of the sink driver in a sound run.
pub(crate) proof fn lemma_write_round<C, R, TE, CE, F, G, K>(
    chunks: Seq<C>,
    transform: F,
    consume: G,
    cancelled: K,
    config: Config,
    v: PipelineView<C, R>,
    pending: Seq<C>,
    out: Result<(), CE>,
) where F: Fn(C) -> Result<R, TE>, G: Fn(R) -> Result<(), CE>, K: Fn(Summary) -> bool
    requires
        sound(chunks, transform, consume, cancelled, config, v, pending, true),
        v.sink_work() is Item ==> call_ensures(consume, (v.results.items[0].1,), out),
    ensures
        ({
            let w = if v.sink_work() is Item {
                after_consume(v, out)
            } else {
                v.poll_sink()
            };
            &&& sound(chunks, transform, consume, cancelled, config, w, pending, true)
            &&& fuel(w, pending.len()) <= fuel(v, pending.len())
            &&& sink_moves(v) ==> fuel(w, pending.len()) < fuel(v, pending.len())
            &&& !sink_moves(v) ==> w == v
        }),
{
    reveal(sound);
    lemma_write_fuel(v, out);
    lemma_write_linked(chunks, transform, v, pending, out);
    v.lemma_poll_sink_inv();
    if v.sink_work() is Item {
        lemma_write_cause(chunks, transform, consume, cancelled, v, pending, out);
        if out.is_ok() {
            v.poll_sink().lemma_consumed_inv();
        } else {
            v.poll_sink().lemma_consume_failed_inv();
        }
    }
}

/// What a sound run has to show for itself once it is terminal.
pub(crate) proof fn lemma_sound_terminal<C, R, TE, CE, F, G, K>(
    chunks: Seq<C>,
    transform: F,
    consume: G,
    cancelled: K,
    config: Config,
    v: PipelineView<C, R>,
    pending: Seq<C>,
) where F: Fn(C) -> Result<R, TE>, G: Fn(R) -> Result<(), CE>, K: Fn(Summary) -> bool
    requires
        sound(chunks, transform, consume, cancelled, config, v, pending, false),
        v.state.terminal(),
    ensures
        v.inv(),
        config.valid(),
        v.accepted <= chunks.len(),
        v.accepted == v.processed + v.failed() + v.skipped,
        v.state is Completed <==> v.first_error.is_none(),
        v.state is Completed ==> v.accepted == chunks.len() && v.skipped == 0,
        v.state is Completed && config.on_transform_error == ErrorPolicy::Abort
            ==> v.transform_failures == 0,
        v.state is Completed && config.on_consume_error == ErrorPolicy::Abort
            ==> v.consume_failures == 0,
        cause_justified(chunks, transform, consume, cancelled, config, v.first_error),
        certified(chunks, transform, consume, v),
        Pipeline::summary_of(v) == cancelled_at_once() || call_ensures(
            cancelled,
            (first_seen(),),
            false,
        ),
{
    reveal(sound);
}

/// A turn of the source driver keeps the pipeline linked to its input.
proof fn lemma_load_linked<C, R, TE, F>(
    chunks: Seq<C>,
    transform: F,
    v: PipelineView<C, R>,
    pending: Seq<C>,
) where F: Fn(C) -> Result<R, TE>
    requires
        v.inv(),
        linked(chunks, transform, v, pending),
    ensures
        ({
            let w = if v.source_action() is Pull {
                v.offer(next_of(pending))
            } else {
                v.poll_source()
            };
            let left = if v.source_action() is Pull {
                rest_of(pending)
            } else {
                pending
            };
            linked(chunks, transform, w, left)
        }),
{
    if v.source_action() is Pull {
        let w = v.offer(next_of(pending));
        let left = rest_of(pending);
        if pending.len() > 0 {
            assert(pending[0] == chunks[chunks.len() - pending.len()]);
            assert(left =~= chunks.subrange(chunks.len() - left.len(), chunks.len() as int));
            assert forall|i: int| 0 <= i < w.chunks.items.len() implies (
            #[trigger] w.chunks.items[i]).1 == chunks[w.chunks.items[i].0 as int] by {
                if i < v.chunks.items.len() {
                    assert(w.chunks.items[i] == v.chunks.items[i]);
                }
            }
        }
    }
}

/// A turn of the transformer driver keeps the pipeline linked to its input.
proof fn lemma_process_linked<C, R, TE, F>(
    chunks: Seq<C>,
    transform: F,
    v: PipelineView<C, R>,
    pending: Seq<C>,
    out: Result<R, TE>,
) where F: Fn(C) -> Result<R, TE>
    requires
        v.inv(),
        at_rest(v),
        linked(chunks, transform, v, pending),
        v.transformer_work() is Item ==> call_ensures(transform, (v.chunks.items[0].1,), out),
    ensures
        ({
            let w = if v.transformer_work() is Item {
                after_transform(v, out)
            } else {
                v.poll_transformer()
            };
            linked(chunks, transform, w, pending)
        }),
{
    let w = if v.transformer_work() is Item {
        after_transform(v, out)
    } else {
        v.poll_transformer()
    };
    v.lemma_poll_transformer_inv();
    if v.transformer_work() is Item {
        let taken = v.poll_transformer();
        assert(v.chunks.items[0].1 == chunks[v.chunks.items[0].0 as int]);
        assert forall|i: int| 0 <= i < taken.chunks.items.len() implies (
        #[trigger] taken.chunks.items[i]).1 == chunks[taken.chunks.items[i].0 as int] by {
            assert(taken.chunks.items[i] == v.chunks.items[i + 1]);
        }
        assert forall|j: int| 0 <= j < w.results.items.len() implies call_ensures(
            transform,
            (chunks[(#[trigger] w.results.items[j]).0 as int],),
            Ok::<R, TE>(w.results.items[j].1),
        ) by {
            if j < v.results.items.len() {
                assert(w.results.items[j] == v.results.items[j]);
            }
        }
    }
}

/// A turn of the sink driver keeps the pipeline linked to its input.
proof fn lemma_write_linked<C, R, TE, CE, F>(
    chunks: Seq<C>,
    transform: F,
    v: PipelineView<C, R>,
    pending: Seq<C>,
    out: Result<(), CE>,
) where F: Fn(C) -> Result<R, TE>
    requires
        v.inv(),
        at_rest(v),
        linked(chunks, transform, v, pending),
    ensures
        ({
            let w = if v.sink_work() is Item {
                after_consume(v, out)
            } else {
                v.poll_sink()
            };
            linked(chunks, transform, w, pending)
        }),
{
    let w = if v.sink_work() is Item {
        after_consume(v, out)
    } else {
        v.poll_sink()
    };
    v.lemma_poll_sink_inv();
    if v.sink_work() is Item {
        assert forall|j: int| 0 <= j < w.results.items.len() implies call_ensures(
            transform,
            (chunks[(#[trigger] w.results.items[j]).0 as int],),
            Ok::<R, TE>(w.results.items[j].1),
        ) by {
            if w.results.items.len() == v.results.items.len() - 1 {
                assert(w.results.items[j] == v.results.items[j + 1]);
            }
        }
    }
}

/// What a turn of the transformer driver puts on record is justified.
proof fn lemma_process_cause<C, R, TE, CE, F, G, K>(
    chunks: Seq<C>,
    transform: F,
    consume: G,
    cancelled: K,
    v: PipelineView<C, R>,
    pending: Seq<C>,
    out: Result<R, TE>,
) where F: Fn(C) -> Result<R, TE>, G: Fn(R) -> Result<(), CE>, K: Fn(Summary) -> bool
    requires
        v.inv(),
        at_rest(v),
        v.transformer_work() is Item,
        linked(chunks, transform, v, pending),
        call_ensures(transform, (v.chunks.items[0].1,), out),
        certified(chunks, transform, consume, v),
        cause_justified(chunks, transform, consume, cancelled, v.config, v.first_error),
        !v.state.abandoned() && v.config.on_transform_error == ErrorPolicy::Abort
            ==> v.transform_failures == 0,
        !v.state.abandoned() && v.config.on_consume_error == ErrorPolicy::Abort
            ==> v.consume_failures == 0,
    ensures
        ({
            let w = after_transform(v, out);
            &&& w.config == v.config
            &&& certified(chunks, transform, consume, w)
            &&& cause_justified(chunks, transform, consume, cancelled, w.config, w.first_error)
            &&& !w.state.abandoned() && w.config.on_transform_error == ErrorPolicy::Abort
                ==> w.transform_failures == 0
            &&& !w.state.abandoned() && w.config.on_consume_error == ErrorPolicy::Abort
                ==> w.consume_failures == 0
        }),
{
    let id = v.chunks.items[0].0;
    v.lemma_poll_transformer_inv();
    assert(v.chunks.items[0].1 == chunks[id as int]);
    assert(id < v.accepted);
    let w = after_transform(v, out);
    match out {
        Ok(result) => {},
        Err(e) => {
            assert(call_ensures(transform, (chunks[id as int],), Err::<R, TE>(e)));
            assert(transform_fails_on(transform, chunks[id as int]));
            assert forall|k: int| 0 <= k < w.failed_transforms.len() implies transform_fails_on(
                transform,
                chunks[(#[trigger] w.failed_transforms[k]) as int],
            ) by {
                if k < v.failed_transforms.len() {
                    assert(w.failed_transforms[k] == v.failed_transforms[k]);
                }
            }
        },
    }
}

/// What a turn of the sink driver puts on record is justified.
proof fn lemma_write_cause<C, R, TE, CE, F, G, K>(
    chunks: Seq<C>,
    transform: F,
    consume: G,
    cancelled: K,
    v: PipelineView<C, R>,
    pending: Seq<C>,
    out: Result<(), CE>,
) where F: Fn(C) -> Result<R, TE>, G: Fn(R) -> Result<(), CE>, K: Fn(Summary) -> bool
    requires
        v.inv(),
        at_rest(v),
        v.sink_work() is Item,
        linked(chunks, transform, v, pending),
        call_ensures(consume, (v.results.items[0].1,), out),
        certified(chunks, transform, consume, v),
        cause_justified(chunks, transform, consume, cancelled, v.config, v.first_error),
        !v.state.abandoned() && v.config.on_transform_error == ErrorPolicy::Abort
            ==> v.transform_failures == 0,
        !v.state.abandoned() && v.config.on_consume_error == ErrorPolicy::Abort
            ==> v.consume_failures == 0,
    ensures
        ({
            let w = after_consume(v, out);
            &&& w.config == v.config
            &&& certified(chunks, transform, consume, w)
            &&& cause_justified(chunks, transform, consume, cancelled, w.config, w.first_error)
            &&& !w.state.abandoned() && w.config.on_transform_error == ErrorPolicy::Abort
                ==> w.transform_failures == 0
            &&& !w.state.abandoned() && w.config.on_consume_error == ErrorPolicy::Abort
                ==> w.consume_failures == 0
        }),
{
    let id = v.results.items[0].0;
    let result = v.results.items[0].1;
    v.lemma_poll_sink_inv();
    assert(call_ensures(transform, (chunks[id as int],), Ok::<R, TE>(result)));
    assert(id < v.accepted);
    let w = after_consume(v, out);
    match out {
        Ok(unit) => {
            assert(unit == ());
            assert(out == Ok::<(), CE>(()));
            assert(call_ensures(consume, (result,), Ok::<(), CE>(())));
            assert(consumable(transform, consume, chunks[id as int]));
            assert forall|k: int| 0 <= k < w.completed.len() implies consumable(
                transform,
                consume,
                chunks[(#[trigger] w.completed[k]) as int],
            ) by {
                if k < v.completed.len() {
                    assert(w.completed[k] == v.completed[k]);
                }
            }
        },
        Err(e) => {
            assert(call_ensures(consume, (result,), Err::<(), CE>(e)));
            assert(consume_fails_on(transform, consume, chunks[id as int]));
            assert forall|k: int| 0 <= k < w.failed_consumes.len() implies consume_fails_on(
                transform,
                consume,
                chunks[(#[trigger] w.failed_consumes[k]) as int],
            ) by {
                if k < v.failed_consumes.len() {
                    assert(w.failed_consumes[k] == v.failed_consumes[k]);
                }
            }
        },
    }
}

} // verus!
