//! Stage drivers that do their outside work through plain calls, and a
//! cooperative scheduler that runs a whole pipeline with them on one thread.

use crate::config::{Config, ConfigError, ErrorPolicy};
use crate::model::PipelineView;
use crate::pipeline::Pipeline;
use crate::progress::{fuel, sink_moves, source_moves, transformer_moves};
use crate::run_proof::{
    lemma_cancel_round, lemma_load_round, lemma_process_round, lemma_sound_terminal,
    lemma_write_round, sound,
};
use crate::source::ChunkSource;
use crate::state::{Outcome, PipelineError, PipelineState, SourceAction, Summary, Turn, Work};
use vstd::prelude::*;

verus! {

/// What a source with these chunks left yields next.
pub open spec fn next_of<C>(pending: Seq<C>) -> Option<C> {
    if pending.len() > 0 {
        Some(pending[0])
    } else {
        None
    }
}

/// What such a source has left afterwards.
pub open spec fn rest_of<C>(pending: Seq<C>) -> Seq<C> {
    if pending.len() > 0 {
        pending.drop_first()
    } else {
        pending
    }
}

/// The pipeline after the transformer has taken the chunk at the head of
/// its channel and reported `out` for it.
pub open spec fn after_transform<C, R, E>(v: PipelineView<C, R>, out: Result<R, E>) -> PipelineView<
    C,
    R,
> {
    match out {
        Ok(result) => v.poll_transformer().transformed(result),
        Err(_) => v.poll_transformer().transform_failed(),
    }
}

/// How that report is recorded.
pub open spec fn transform_outcome<C, R, E>(v: PipelineView<C, R>, out: Result<R, E>) -> Outcome {
    match out {
        Ok(_) => v.poll_transformer().transformed_outcome(),
        Err(_) => v.poll_transformer().transform_failed_outcome(),
    }
}

/// The pipeline after the sink has taken the result at the head of its
/// channel and reported `out` for it.
pub open spec fn after_consume<C, R, E>(v: PipelineView<C, R>, out: Result<(), E>) -> PipelineView<
    C,
    R,
> {
    match out {
        Ok(_) => v.poll_sink().consumed(),
        Err(_) => v.poll_sink().consume_failed(),
    }
}

/// How that report is recorded.
pub open spec fn consume_outcome<C, R, E>(v: PipelineView<C, R>, out: Result<(), E>) -> Outcome {
    match out {
        Ok(_) => v.poll_sink().consumed_outcome(),
        Err(_) => v.poll_sink().consume_failed_outcome(),
    }
}

/// One turn of the source driver. If the pipeline asks for input, the
/// source's next chunk (or its end) is pulled and offered; otherwise the
/// source is left alone.
pub fn load<C, R>(pipeline: &mut Pipeline<C, R>, source: &mut ChunkSource<C>) -> (action:
    SourceAction)
    requires
        old(pipeline).wf(),
        old(source)@.len() > 0 ==> old(pipeline)@.accepted < u64::MAX,
    ensures
        final(pipeline).wf(),
        action == old(pipeline)@.source_action(),
        action is Pull ==> final(pipeline)@ == old(pipeline)@.offer(next_of(old(source)@))
            && final(source)@ == rest_of(old(source)@),
        !(action is Pull) ==> final(pipeline)@ == old(pipeline)@.poll_source() && final(source)@
            == old(source)@,
{
    let action = pipeline.source_poll();
    match action {
        SourceAction::Pull => {
            let next = source.next_chunk();
            let _ = pipeline.source_offer(next);
        },
        _ => {},
    }
    action
}

/// One turn of the transformer driver. If the pipeline hands out a chunk,
/// `transform` is applied to it and its result or failure is reported.
pub fn process<C, R, E, F: Fn(C) -> Result<R, E>>(
    pipeline: &mut Pipeline<C, R>,
    transform: &F,
) -> (turn: Turn)
    requires
        old(pipeline).wf(),
        forall|chunk: C| call_requires(*transform, (chunk,)),
    ensures
        final(pipeline).wf(),
        match old(pipeline)@.transformer_work() {
            Work::Item(id, chunk) => exists|out: Result<R, E>|
                {
                    &&& #[trigger] call_ensures(*transform, (chunk,), out)
                    &&& final(pipeline)@ == after_transform(old(pipeline)@, out)
                    &&& turn == Turn::Worked(transform_outcome(old(pipeline)@, out))
                },
            Work::Wait => turn == Turn::Waited && final(pipeline)@ == old(pipeline)@,
            Work::Exit => turn == Turn::Exited && final(pipeline)@ == old(
                pipeline,
            )@.poll_transformer(),
        },
{
    let ghost pre = pipeline@;
    match pipeline.transformer_poll() {
        Work::Item(_, chunk) => {
            let out = transform(chunk);
            let outcome = match out {
                Ok(result) => pipeline.transform_succeeded(result),
                Err(_) => pipeline.transform_failed(),
            };
            proof {
                assert(call_ensures(*transform, (chunk,), out));
                assert(pipeline@ == after_transform(pre, out));
            }
            Turn::Worked(outcome)
        },
        Work::Wait => {
            assert(pipeline@ =~= pre);
            Turn::Waited
        },
        Work::Exit => Turn::Exited,
    }
}

/// One turn of the sink driver. If the pipeline hands out a result,
/// `consume` is applied to it and its success or failure is reported.
pub fn write_results<C, R, E, G: Fn(R) -> Result<(), E>>(
    pipeline: &mut Pipeline<C, R>,
    consume: &G,
) -> (turn: Turn)
    requires
        old(pipeline).wf(),
        forall|result: R| call_requires(*consume, (result,)),
    ensures
        final(pipeline).wf(),
        match old(pipeline)@.sink_work() {
            Work::Item(id, result) => exists|out: Result<(), E>|
                {
                    &&& #[trigger] call_ensures(*consume, (result,), out)
                    &&& final(pipeline)@ == after_consume(old(pipeline)@, out)
                    &&& turn == Turn::Worked(consume_outcome(old(pipeline)@, out))
                },
            Work::Wait => turn == Turn::Waited && final(pipeline)@ == old(pipeline)@,
            Work::Exit => turn == Turn::Exited && final(pipeline)@ == old(pipeline)@.poll_sink(),
        },
{
    let ghost pre = pipeline@;
    match pipeline.sink_poll() {
        Work::Item(_, result) => {
            let out = consume(result);
            let outcome = match out {
                Ok(_) => pipeline.consume_succeeded(),
                Err(_) => pipeline.consume_failed(),
            };
            proof {
                assert(call_ensures(*consume, (result,), out));
                assert(pipeline@ == after_consume(pre, out));
            }
            Turn::Worked(outcome)
        },
        Work::Wait => {
            assert(pipeline@ =~= pre);
            Turn::Waited
        },
        Work::Exit => Turn::Exited,
    }
}

/// `transform` can fail on this chunk: some error is among its outcomes.
pub open spec fn transform_fails_on<C, R, TE, F>(transform: F, chunk: C) -> bool where
    F: Fn(C) -> Result<R, TE>,
 {
    exists|e: TE| #[trigger] call_ensures(transform, (chunk,), Err::<R, TE>(e))
}

/// `transform` can turn this chunk into a result that `consume` accepts.
pub open spec fn consumable<C, R, TE, CE, F, G>(transform: F, consume: G, chunk: C) -> bool where
    F: Fn(C) -> Result<R, TE>,
    G: Fn(R) -> Result<(), CE>,
 {
    exists|result: R|
        call_ensures(transform, (chunk,), Ok::<R, TE>(result)) && #[trigger] call_ensures(
            consume,
            (result,),
            Ok::<(), CE>(()),
        )
}

/// `transform` can turn this chunk into a result on which `consume` can
/// fail.
pub open spec fn consume_fails_on<C, R, TE, CE, F, G>(transform: F, consume: G, chunk: C) -> bool where
    F: Fn(C) -> Result<R, TE>,
    G: Fn(R) -> Result<(), CE>,
 {
    exists|result: R, e: CE|
        call_ensures(transform, (chunk,), Ok::<R, TE>(result)) && #[trigger] call_ensures(
            consume,
            (result,),
            Err::<(), CE>(e),
        )
}

/// Every entry of the pipeline's logs is backed by what the caller's
/// functions can return on the input chunk of that number: a processed
/// item was transformed and consumed, a failed one met a failure of the
/// stage that reported it.
pub open spec fn certified<C, R, TE, CE, F, G>(
    chunks: Seq<C>,
    transform: F,
    consume: G,
    v: PipelineView<C, R>,
) -> bool where F: Fn(C) -> Result<R, TE>, G: Fn(R) -> Result<(), CE> {
    &&& v.accepted <= chunks.len()
    &&& forall|k: int|
        0 <= k < v.completed.len() ==> consumable(
            transform,
            consume,
            chunks[(#[trigger] v.completed[k]) as int],
        )
    &&& forall|k: int|
        0 <= k < v.failed_transforms.len() ==> transform_fails_on(
            transform,
            chunks[(#[trigger] v.failed_transforms[k]) as int],
        )
    &&& forall|k: int|
        0 <= k < v.failed_consumes.len() ==> consume_fails_on(
            transform,
            consume,
            chunks[(#[trigger] v.failed_consumes[k]) as int],
        )
}

/// Why a run may have stopped early. A recorded cause is always backed by
/// something that one of the caller's functions actually returned: the
/// cancellation check said yes, or a stage whose failures are fatal failed
/// on the chunk with that sequence number.
pub open spec fn cause_justified<C, R, TE, CE, F, G, K>(
    chunks: Seq<C>,
    transform: F,
    consume: G,
    cancelled: K,
    config: Config,
    cause: Option<PipelineError>,
) -> bool where F: Fn(C) -> Result<R, TE>, G: Fn(R) -> Result<(), CE>, K: Fn(Summary) -> bool {
    match cause {
        None => true,
        Some(PipelineError::Cancelled) => exists|seen: Summary|
            #[trigger] call_ensures(cancelled, (seen,), true),
        Some(PipelineError::Transform { item }) => {
            &&& config.on_transform_error == ErrorPolicy::Abort
            &&& item < chunks.len()
            &&& transform_fails_on(transform, chunks[item as int])
        },
        Some(PipelineError::Consume { item }) => {
            &&& config.on_consume_error == ErrorPolicy::Abort
            &&& item < chunks.len()
            &&& consume_fails_on(transform, consume, chunks[item as int])
        },
        Some(PipelineError::Source { item }) => false,
    }
}

/// What the cancellation check is shown first: a running pipeline that
/// has not accepted anything yet.
pub open spec fn first_seen() -> Summary {
    Summary {
        state: PipelineState::Running,
        accepted: 0,
        processed: 0,
        skipped: 0,
        failed: 0,
        transform_failures: 0,
        consume_failures: 0,
        first_error: None,
    }
}

/// The summary of a run that was cancelled before it accepted anything.
pub open spec fn cancelled_at_once() -> Summary {
    Summary {
        state: PipelineState::Aborted,
        accepted: 0,
        processed: 0,
        skipped: 0,
        failed: 0,
        transform_failures: 0,
        consume_failures: 0,
        first_error: Some(PipelineError::Cancelled),
    }
}

/// Runs a whole pipeline on one thread. The three stage drivers take turns
/// (source, transformer, sink) until the pipeline is terminal; before each
/// round `cancelled` is asked, with the summary as it stands, whether to
/// stop. The bounded channels are real: a driver whose channel is full
/// waits for its turn after the next stage has made room.
///
/// An invalid configuration is rejected before anything is called.
/// Otherwise the run ends, `Completed` or `Aborted`, with every accepted
/// chunk counted exactly once as processed, failed or skipped. It completes
/// if and only if nothing fatal happened; an early stop has a cause that
/// one of the three functions really gave; and each count is the length of
/// a list of distinct chunks on which the functions can behave that way.
/// A run that is cancelled at the first check accepts nothing.
pub fn run_sequential<C, R, TE, CE, F, G, K>(
    chunks: Vec<C>,
    transform: F,
    consume: G,
    cancelled: K,
    config: Config,
) -> (r: Result<Summary, ConfigError>) where
    F: Fn(C) -> Result<R, TE>,
    G: Fn(R) -> Result<(), CE>,
    K: Fn(Summary) -> bool,

    requires
        forall|chunk: C| call_requires(transform, (chunk,)),
        forall|result: R| call_requires(consume, (result,)),
        forall|seen: Summary| call_requires(cancelled, (seen,)),
    ensures
        match r {
            Err(e) => config.defect() == Some(e),
            Ok(s) => {
                &&& config.valid()
                &&& s.state.terminal()
                &&& s.accepted <= chunks.len()
                &&& s.accepted == s.processed + s.failed + s.skipped
                &&& s.failed == s.transform_failures + s.consume_failures
                &&& s.state is Completed <==> s.first_error.is_none()
                &&& s.state is Completed ==> s.accepted == chunks.len() && s.skipped == 0
                &&& s.state is Completed ==> s.processed + s.consume_failures == chunks.len()
                    - s.transform_failures
                &&& s.state is Completed && config.on_transform_error == ErrorPolicy::Abort
                    ==> s.transform_failures == 0
                &&& s.state is Completed && config.on_consume_error == ErrorPolicy::Abort
                    ==> s.consume_failures == 0
                &&& cause_justified(chunks@, transform, consume, cancelled, config, s.first_error)
                &&& s == cancelled_at_once() || call_ensures(cancelled, (first_seen(),), false)
                &&& exists|v: PipelineView<C, R>|
                    {
                        &&& v.inv()
                        &&& #[trigger] Pipeline::summary_of(v) == s
                        &&& certified(chunks@, transform, consume, v)
                    }
            },
        },
{
    let mut pipeline = match Pipeline::<C, R>::new(config) {
        Ok(p) => p,
        Err(e) => {
            return Err(e);
        },
    };
    let ghost input = chunks@;
    let total = chunks.len();
    let mut source = ChunkSource::from_vec(chunks);
    pipeline.start();
    proof {
        assert(input.subrange(0, input.len() as int) =~= input);
        reveal(sound);
        assert(sound(input, transform, consume, cancelled, config, pipeline@, source@, false));
    }
    while !pipeline.is_terminal()
        invariant
            pipeline.wf(),
            sound(input, transform, consume, cancelled, config, pipeline@, source@, false),
            forall|chunk: C| call_requires(transform, (chunk,)),
            forall|result: R| call_requires(consume, (result,)),
            forall|seen: Summary| call_requires(cancelled, (seen,)),
        decreases fuel(pipeline@, source@.len()),
    {
        cancel_turn(
            &mut pipeline,
            Ghost(source@),
            Ghost(input),
            Ghost(config),
            &transform,
            &consume,
            &cancelled,
        );
        source_turn(
            &mut pipeline,
            &mut source,
            Ghost(input),
            Ghost(config),
            &transform,
            &consume,
            &cancelled,
        );
        transformer_turn(
            &mut pipeline,
            Ghost(source@),
            Ghost(input),
            Ghost(config),
            &transform,
            &consume,
            &cancelled,
        );
        sink_turn(
            &mut pipeline,
            Ghost(source@),
            Ghost(input),
            Ghost(config),
            &transform,
            &consume,
            &cancelled,
        );
        proof {
            reveal(sound);
        }
    }
    let summary = pipeline.summary();
    proof {
        lemma_sound_terminal(input, transform, consume, cancelled, config, pipeline@, source@);
        assert(Pipeline::summary_of(pipeline@) == summary);
    }
    Ok(summary)
}

/// Asks whether to stop, and stops if so.
fn cancel_turn<C, R, TE, CE, F, G, K>(
    pipeline: &mut Pipeline<C, R>,
    Ghost(pending): Ghost<Seq<C>>,
    Ghost(input): Ghost<Seq<C>>,
    Ghost(config): Ghost<Config>,
    transform: &F,
    consume: &G,
    cancelled: &K,
) where F: Fn(C) -> Result<R, TE>, G: Fn(R) -> Result<(), CE>, K: Fn(Summary) -> bool
    requires
        old(pipeline).wf(),
        !old(pipeline)@.state.terminal(),
        sound(input, *transform, *consume, *cancelled, config, old(pipeline)@, pending, false),
        forall|seen: Summary| call_requires(*cancelled, (seen,)),
    ensures
        final(pipeline).wf(),
        sound(input, *transform, *consume, *cancelled, config, final(pipeline)@, pending, true),
        fuel(final(pipeline)@, pending.len()) <= fuel(old(pipeline)@, pending.len()),
        source_moves(final(pipeline)@) || transformer_moves(final(pipeline)@) || sink_moves(
            final(pipeline)@,
        ),
{
    let ghost v = pipeline@;
    let seen = pipeline.summary();
    let stop = cancelled(seen);
    if stop {
        pipeline.stop();
    }
    proof {
        lemma_cancel_round(input, *transform, *consume, *cancelled, config, v, pending, seen, stop);
    }
}

/// The source driver's turn in a run.
fn source_turn<C, R, TE, CE, F, G, K>(
    pipeline: &mut Pipeline<C, R>,
    source: &mut ChunkSource<C>,
    Ghost(input): Ghost<Seq<C>>,
    Ghost(config): Ghost<Config>,
    transform: &F,
    consume: &G,
    cancelled: &K,
) where F: Fn(C) -> Result<R, TE>, G: Fn(R) -> Result<(), CE>, K: Fn(Summary) -> bool
    requires
        old(pipeline).wf(),
        sound(
            input,
            *transform,
            *consume,
            *cancelled,
            config,
            old(pipeline)@,
            old(source)@,
            true,
        ),
    ensures
        final(pipeline).wf(),
        sound(
            input,
            *transform,
            *consume,
            *cancelled,
            config,
            final(pipeline)@,
            final(source)@,
            true,
        ),
        fuel(final(pipeline)@, final(source)@.len()) <= fuel(old(pipeline)@, old(source)@.len()),
        source_moves(old(pipeline)@) ==> fuel(final(pipeline)@, final(source)@.len()) < fuel(
            old(pipeline)@,
            old(source)@.len(),
        ),
        !source_moves(old(pipeline)@) ==> final(pipeline)@ == old(pipeline)@ && final(source)@
            == old(source)@,
{
    let ghost v = pipeline@;
    proof {
        lemma_load_round(input, *transform, *consume, *cancelled, config, v, source@);
    }
    let _ = load(pipeline, source);
}

/// The transformer driver's turn in a run.
fn transformer_turn<C, R, TE, CE, F, G, K>(
    pipeline: &mut Pipeline<C, R>,
    Ghost(pending): Ghost<Seq<C>>,
    Ghost(input): Ghost<Seq<C>>,
    Ghost(config): Ghost<Config>,
    transform: &F,
    consume: &G,
    cancelled: &K,
) where F: Fn(C) -> Result<R, TE>, G: Fn(R) -> Result<(), CE>, K: Fn(Summary) -> bool
    requires
        old(pipeline).wf(),
        sound(input, *transform, *consume, *cancelled, config, old(pipeline)@, pending, true),
        forall|chunk: C| call_requires(*transform, (chunk,)),
    ensures
        final(pipeline).wf(),
        sound(input, *transform, *consume, *cancelled, config, final(pipeline)@, pending, true),
        fuel(final(pipeline)@, pending.len()) <= fuel(old(pipeline)@, pending.len()),
        transformer_moves(old(pipeline)@) ==> fuel(final(pipeline)@, pending.len()) < fuel(
            old(pipeline)@,
            pending.len(),
        ),
        !transformer_moves(old(pipeline)@) ==> final(pipeline)@ == old(pipeline)@,
{
    let ghost v = pipeline@;
    let _ = process(pipeline, transform);
    proof {
        let w = pipeline@;
        let out = if v.transformer_work() is Item {
            choose|out: Result<R, TE>| #[trigger]
                call_ensures(*transform, (v.chunks.items[0].1,), out) && w == after_transform(v, out)
        } else {
            arbitrary()
        };
        lemma_process_round(input, *transform, *consume, *cancelled, config, v, pending, out);
    }
}

/// The sink driver's turn in a run.
fn sink_turn<C, R, TE, CE, F, G, K>(
    pipeline: &mut Pipeline<C, R>,
    Ghost(pending): Ghost<Seq<C>>,
    Ghost(input): Ghost<Seq<C>>,
    Ghost(config): Ghost<Config>,
    transform: &F,
    consume: &G,
    cancelled: &K,
) where F: Fn(C) -> Result<R, TE>, G: Fn(R) -> Result<(), CE>, K: Fn(Summary) -> bool
    requires
        old(pipeline).wf(),
        sound(input, *transform, *consume, *cancelled, config, old(pipeline)@, pending, true),
        forall|result: R| call_requires(*consume, (result,)),
    ensures
        final(pipeline).wf(),
        sound(input, *transform, *consume, *cancelled, config, final(pipeline)@, pending, true),
        fuel(final(pipeline)@, pending.len()) <= fuel(old(pipeline)@, pending.len()),
        sink_moves(old(pipeline)@) ==> fuel(final(pipeline)@, pending.len()) < fuel(
            old(pipeline)@,
            pending.len(),
        ),
        !sink_moves(old(pipeline)@) ==> final(pipeline)@ == old(pipeline)@,
{
    let ghost v = pipeline@;
    let _ = write_results(pipeline, consume);
    proof {
        let w = pipeline@;
        let out = if v.sink_work() is Item {
            choose|out: Result<(), CE>| #[trigger]
                call_ensures(*consume, (v.results.items[0].1,), out) && w == after_consume(v, out)
        } else {
            arbitrary()
        };
        lemma_write_round(input, *transform, *consume, *cancelled, config, v, pending, out);
    }
}

} // verus!
