//! The orchestrator: two bounded channels, the lifecycle state, and the
//! decisions that the three stage drivers ask of it. The drivers do the
//! outside work (pulling from the source, transforming, consuming) and
//! report back; every decision is a step of the state machine.

use crate::channel::Channel;
use crate::config::{Config, ConfigError, ErrorPolicy};
use crate::model::PipelineView;
use crate::state::{
    Offer, Outcome, PipelineError, PipelineState, SourceAction, StageStatus, Summary, Work,
};
use vstd::prelude::*;

verus! {

/// A pipeline of chunks `C` and results `R`.
pub struct Pipeline<C, R> {
    config: Config,
    state: PipelineState,
    source: StageStatus,
    transformer: StageStatus,
    sink: StageStatus,
    chunks: Channel<(u64, C)>,
    results: Channel<(u64, R)>,
    transforming: Option<u64>,
    consuming: Option<u64>,
    accepted: u64,
    processed: u64,
    transform_failures: u64,
    consume_failures: u64,
    skipped: u64,
    first_error: Option<PipelineError>,
    taken: Ghost<nat>,
    delivered: Ghost<Seq<u64>>,
    completed: Ghost<Seq<u64>>,
    failed_transforms: Ghost<Seq<u64>>,
    failed_consumes: Ghost<Seq<u64>>,
}

impl<C, R> View for Pipeline<C, R> {
    type V = PipelineView<C, R>;

    closed spec fn view(&self) -> PipelineView<C, R> {
        PipelineView {
            config: self.config,
            state: self.state,
            source: self.source,
            transformer: self.transformer,
            sink: self.sink,
            chunks: self.chunks@,
            results: self.results@,
            transforming: self.transforming,
            consuming: self.consuming,
            accepted: self.accepted as nat,
            taken: self.taken@,
            processed: self.processed as nat,
            transform_failures: self.transform_failures as nat,
            consume_failures: self.consume_failures as nat,
            skipped: self.skipped as nat,
            first_error: self.first_error,
            delivered: self.delivered@,
            completed: self.completed@,
            failed_transforms: self.failed_transforms@,
            failed_consumes: self.failed_consumes@,
        }
    }
}

impl<C, R> Pipeline<C, R> {
    /// The pipeline is in a state that the state machine can reach.
    pub open spec fn wf(&self) -> bool {
        self@.inv()
    }

    /// The summary that the state stands for.
    pub open spec fn summary_of(v: PipelineView<C, R>) -> Summary {
        Summary {
            state: v.state,
            accepted: v.accepted as u64,
            processed: v.processed as u64,
            skipped: v.skipped as u64,
            failed: v.failed() as u64,
            transform_failures: v.transform_failures as u64,
            consume_failures: v.consume_failures as u64,
            first_error: v.first_error,
        }
    }

    /// An idle pipeline with the given configuration, or the reason why the
    /// configuration is rejected.
    pub fn new(config: Config) -> (r: Result<Self, ConfigError>)
        ensures
            match r {
                Ok(p) => config.valid() && p.wf() && p@ == PipelineView::<C, R>::initial(config),
                Err(e) => config.defect() == Some(e),
            },
    {
        match config.validate() {
            Err(e) => Err(e),
            Ok(_) => {
                let p = Pipeline {
                    config,
                    state: PipelineState::Idle,
                    source: StageStatus::Pending,
                    transformer: StageStatus::Pending,
                    sink: StageStatus::Pending,
                    chunks: Channel::new(config.chunk_capacity),
                    results: Channel::new(config.result_capacity),
                    transforming: None,
                    consuming: None,
                    accepted: 0,
                    processed: 0,
                    transform_failures: 0,
                    consume_failures: 0,
                    skipped: 0,
                    first_error: None,
                    taken: Ghost(0),
                    delivered: Ghost(Seq::empty()),
                    completed: Ghost(Seq::empty()),
                    failed_transforms: Ghost(Seq::empty()),
                    failed_consumes: Ghost(Seq::empty()),
                };
                proof {
                    assert(p@ =~= PipelineView::<C, R>::initial(config));
                    PipelineView::<C, R>::lemma_initial_inv(config);
                }
                Ok(p)
            },
        }
    }

    /// The configuration that the pipeline was built with.
    pub fn config(&self) -> (c: Config)
        ensures
            c == self@.config,
    {
        self.config
    }

    /// The lifecycle state.
    pub fn state(&self) -> (s: PipelineState)
        ensures
            s == self@.state,
    {
        self.state
    }

    /// Whether the pipeline has reached `Completed` or `Aborted`.
    pub fn is_terminal(&self) -> (b: bool)
        ensures
            b == self@.state.terminal(),
    {
        self.state.is_terminal()
    }

    /// The number of chunks accepted from the source so far.
    pub fn accepted(&self) -> (n: u64)
        ensures
            n == self@.accepted,
    {
        self.accepted
    }

    /// The first fatal condition, if the pipeline was stopped early.
    pub fn first_error(&self) -> (e: Option<PipelineError>)
        ensures
            e == self@.first_error,
    {
        self.first_error
    }

    /// The counts and the final condition as they stand.
    pub fn summary(&self) -> (s: Summary)
        requires
            self.wf(),
        ensures
            s == Self::summary_of(self@),
            s.failed == s.transform_failures + s.consume_failures,
            s.accepted == self@.accepted,
            s.processed == self@.processed,
            s.skipped == self@.skipped,
            s.transform_failures == self@.transform_failures,
            s.consume_failures == self@.consume_failures,
    {
        Summary {
            state: self.state,
            accepted: self.accepted,
            processed: self.processed,
            skipped: self.skipped,
            failed: self.transform_failures + self.consume_failures,
            transform_failures: self.transform_failures,
            consume_failures: self.consume_failures,
            first_error: self.first_error,
        }
    }

    fn any_active(&self) -> (b: bool)
        ensures
            b == self@.any_active(),
    {
        self.source == StageStatus::Active || self.transformer == StageStatus::Active || self.sink
            == StageStatus::Active
    }

    fn settle(&mut self)
        requires
            old(self).chunks.wf(),
            old(self).results.wf(),
        ensures
            final(self)@ == old(self)@.settle(),
    {
        let ghost pre = self@;
        if self.state == PipelineState::Aborting {
            if !self.any_active() {
                self.state = PipelineState::Aborted;
            }
        } else if self.state == PipelineState::Draining {
            if self.source == StageStatus::Exited && self.transformer == StageStatus::Exited
                && self.sink == StageStatus::Exited && self.chunks.is_drained()
                && self.results.is_drained() {
                self.state = PipelineState::Completed;
            }
        }
        assert(self@ =~= pre.settle());
    }

    fn abort(&mut self, cause: PipelineError)
        requires
            old(self).wf(),
        ensures
            final(self).wf(),
            final(self)@ == old(self)@.abort(cause),
    {
        let ghost pre = self@;
        proof {
            pre.lemma_abort_inv(cause);
        }
        let active = self.any_active();
        let dropped_chunks = self.chunks.close_discarding();
        let dropped_results = self.results.close_discarding();
        self.skipped = self.skipped + dropped_chunks as u64 + dropped_results as u64;
        if self.first_error.is_none() {
            self.first_error = Some(cause);
        }
        self.state = if active {
            PipelineState::Aborting
        } else {
            PipelineState::Aborted
        };
        assert(self@ =~= pre.abort(cause));
    }

    /// Spawns the stages of an idle pipeline: `Idle` becomes `Running`.
    /// Any other pipeline is left unchanged. Returns whether it started.
    pub fn start(&mut self) -> (started: bool)
        requires
            old(self).wf(),
        ensures
            final(self).wf(),
            final(self)@ == old(self)@.start(),
            started == (old(self)@.state is Idle),
    {
        let ghost pre = self@;
        proof {
            pre.lemma_start_inv();
        }
        if self.state == PipelineState::Idle {
            self.state = PipelineState::Running;
            self.source = StageStatus::Active;
            self.transformer = StageStatus::Active;
            self.sink = StageStatus::Active;
            assert(self@ =~= pre.start());
            true
        } else {
            false
        }
    }

    /// Requests cancellation and returns the state that results. A pipeline
    /// that is terminal or already stopping is left exactly as it is.
    /// Otherwise both channels are closed, what they held is dropped, and
    /// the pipeline is `Aborting` until its active stages have acknowledged
    /// (`Aborted` at once if none is active).
    pub fn stop(&mut self) -> (state: PipelineState)
        requires
            old(self).wf(),
        ensures
            final(self).wf(),
            final(self)@ == old(self)@.stop(),
            state == final(self)@.state,
            old(self)@.state.terminal() ==> state == old(self)@.state && final(self)@ == old(
                self,
            )@,
            !old(self)@.state.terminal() ==> state.abandoned(),
    {
        if !self.state.is_terminal() && self.state != PipelineState::Aborting {
            self.abort(PipelineError::Cancelled);
        }
        self.state
    }

    /// Tells the source driver what to do. While the pipeline is stopping,
    /// this poll is the driver's acknowledgement: the stage exits.
    pub fn source_poll(&mut self) -> (action: SourceAction)
        requires
            old(self).wf(),
        ensures
            final(self).wf(),
            final(self)@ == old(self)@.poll_source(),
            action == old(self)@.source_action(),
    {
        let ghost pre = self@;
        proof {
            pre.lemma_poll_source_inv();
        }
        if self.source != StageStatus::Active {
            SourceAction::Exit
        } else if self.state == PipelineState::Aborting {
            self.source = StageStatus::Exited;
            self.settle();
            SourceAction::Exit
        } else if self.state == PipelineState::Running && !self.chunks.is_full() {
            SourceAction::Pull
        } else {
            SourceAction::Wait
        }
    }

    /// Takes what the source produced: its next chunk, or `None` at its end.
    /// A chunk is enqueued under the next sequence number if the pipeline is
    /// running and the chunk channel has room; at the end of the source the
    /// chunk channel is closed and the pipeline starts draining. Sequence
    /// numbers are 64-bit: a chunk can only be offered while one is left.
    pub fn source_offer(&mut self, next: Option<C>) -> (reply: Offer<C>)
        requires
            old(self).wf(),
            next.is_some() ==> old(self)@.accepted < u64::MAX,
        ensures
            final(self).wf(),
            final(self)@ == old(self)@.offer(next),
            reply == old(self)@.offer_reply(next),
    {
        let ghost pre = self@;
        proof {
            pre.lemma_offer_inv(next);
        }
        if !(self.state == PipelineState::Running && self.source == StageStatus::Active) {
            return Offer::Rejected(next);
        }
        match next {
            Some(chunk) => {
                if self.chunks.is_full() {
                    Offer::Full(chunk)
                } else {
                    let id = self.accepted;
                    match self.chunks.send((id, chunk)) {
                        Ok(_) => {},
                        Err(_) => {
                            assert(false);
                        },
                    }
                    self.accepted = id + 1;
                    assert(self@ =~= pre.offer(next));
                    Offer::Accepted(id)
                }
            },
            None => {
                self.chunks.close();
                self.source = StageStatus::Exited;
                self.state = PipelineState::Draining;
                assert(self@ =~= pre.offer(next));
                Offer::Finished
            },
        }
    }

    /// Records that the source failed to produce a chunk. While input is
    /// taken this is fatal; otherwise nothing changes.
    pub fn source_failed(&mut self)
        requires
            old(self).wf(),
        ensures
            final(self).wf(),
            final(self)@ == old(self)@.source_failed(),
    {
        if self.state == PipelineState::Running && self.source == StageStatus::Active {
            self.abort(PipelineError::Source { item: self.accepted });
        }
    }

    /// Hands the transformer driver its next chunk, if the chunk channel
    /// has one and the result channel has room for what will come of it.
    /// At the end of the input the result channel is closed and the stage
    /// exits; while the pipeline is stopping, the poll acknowledges the stop.
    pub fn transformer_poll(&mut self) -> (work: Work<C>)
        requires
            old(self).wf(),
        ensures
            final(self).wf(),
            final(self)@ == old(self)@.poll_transformer(),
            work == old(self)@.transformer_work(),
    {
        let ghost pre = self@;
        proof {
            pre.lemma_poll_transformer_inv();
        }
        if self.transformer != StageStatus::Active {
            Work::Exit
        } else if self.transforming.is_some() {
            Work::Wait
        } else if self.state == PipelineState::Aborting {
            self.transformer = StageStatus::Exited;
            self.settle();
            Work::Exit
        } else if self.chunks.is_empty() {
            if self.chunks.is_closed() {
                self.results.close();
                self.transformer = StageStatus::Exited;
                self.settle();
                Work::Exit
            } else {
                Work::Wait
            }
        } else if self.results.is_full() {
            Work::Wait
        } else {
            match self.chunks.recv() {
                Ok((id, chunk)) => {
                    self.transforming = Some(id);
                    self.taken = Ghost((id + 1) as nat);
                    assert(self@ =~= pre.poll_transformer());
                    Work::Item(id, chunk)
                },
                Err(_) => {
                    assert(false);
                    Work::Wait
                },
            }
        }
    }

    /// Takes the result for the chunk that the transformer holds and
    /// enqueues it for the sink under the chunk's sequence number. While the
    /// pipeline is stopping the result is dropped and counted as skipped.
    pub fn transform_succeeded(&mut self, result: R) -> (outcome: Outcome)
        requires
            old(self).wf(),
        ensures
            final(self).wf(),
            final(self)@ == old(self)@.transformed(result),
            outcome == old(self)@.transformed_outcome(),
    {
        let ghost pre = self@;
        proof {
            pre.lemma_transformed_inv(result);
        }
        match self.transforming {
            None => Outcome::Idle,
            Some(id) => {
                self.transforming = None;
                if self.state == PipelineState::Aborting {
                    self.skipped = self.skipped + 1;
                    assert(self@ =~= pre.transformed(result));
                    Outcome::Discarded(id)
                } else {
                    match self.results.send((id, result)) {
                        Ok(_) => {},
                        Err(_) => {
                            assert(false);
                        },
                    }
                    assert(self@ =~= pre.transformed(result));
                    Outcome::Forwarded(id)
                }
            },
        }
    }

    /// Records that the transformer failed on the chunk it holds. No result
    /// is enqueued for it. Under the skip policy the pipeline carries on;
    /// under the abort policy the failure is fatal.
    pub fn transform_failed(&mut self) -> (outcome: Outcome)
        requires
            old(self).wf(),
        ensures
            final(self).wf(),
            final(self)@ == old(self)@.transform_failed(),
            outcome == old(self)@.transform_failed_outcome(),
    {
        let ghost pre = self@;
        match self.transforming {
            None => Outcome::Idle,
            Some(id) => {
                self.transforming = None;
                self.transform_failures = self.transform_failures + 1;
                self.failed_transforms = Ghost(self.failed_transforms@.push(id));
                proof {
                    let counted = PipelineView {
                        transforming: None,
                        transform_failures: pre.transform_failures + 1,
                        failed_transforms: pre.failed_transforms.push(id),
                        ..pre
                    };
                    assert(self@ =~= counted);
                    assert(counted.inv());
                }
                match self.config.on_transform_error {
                    ErrorPolicy::Skip => Outcome::Skipped(id),
                    ErrorPolicy::Abort => {
                        self.abort(PipelineError::Transform { item: id });
                        Outcome::Fatal(id)
                    },
                }
            },
        }
    }

    /// Hands the sink driver the next result, in arrival order. At the end
    /// of the input the stage exits, which completes a drain; while the
    /// pipeline is stopping, the poll acknowledges the stop.
    pub fn sink_poll(&mut self) -> (work: Work<R>)
        requires
            old(self).wf(),
        ensures
            final(self).wf(),
            final(self)@ == old(self)@.poll_sink(),
            work == old(self)@.sink_work(),
    {
        let ghost pre = self@;
        proof {
            pre.lemma_poll_sink_inv();
        }
        if self.sink != StageStatus::Active {
            Work::Exit
        } else if self.consuming.is_some() {
            Work::Wait
        } else if self.state == PipelineState::Aborting {
            self.sink = StageStatus::Exited;
            self.settle();
            Work::Exit
        } else if self.results.is_empty() {
            if self.results.is_closed() {
                self.sink = StageStatus::Exited;
                self.settle();
                Work::Exit
            } else {
                Work::Wait
            }
        } else {
            match self.results.recv() {
                Ok((id, result)) => {
                    self.consuming = Some(id);
                    self.delivered = Ghost(self.delivered@.push(id));
                    assert(self@ =~= pre.poll_sink());
                    Work::Item(id, result)
                },
                Err(_) => {
                    assert(false);
                    Work::Wait
                },
            }
        }
    }

    /// Records that the sink consumed the result it holds.
    pub fn consume_succeeded(&mut self) -> (outcome: Outcome)
        requires
            old(self).wf(),
        ensures
            final(self).wf(),
            final(self)@ == old(self)@.consumed(),
            outcome == old(self)@.consumed_outcome(),
    {
        let ghost pre = self@;
        proof {
            pre.lemma_consumed_inv();
        }
        match self.consuming {
            None => Outcome::Idle,
            Some(id) => {
                self.consuming = None;
                self.processed = self.processed + 1;
                self.completed = Ghost(self.completed@.push(id));
                assert(self@ =~= pre.consumed());
                Outcome::Processed(id)
            },
        }
    }

    /// Records that the sink failed on the result it holds. Under the skip
    /// policy the pipeline carries on with the remaining results; under the
    /// abort policy the failure is fatal.
    pub fn consume_failed(&mut self) -> (outcome: Outcome)
        requires
            old(self).wf(),
        ensures
            final(self).wf(),
            final(self)@ == old(self)@.consume_failed(),
            outcome == old(self)@.consume_failed_outcome(),
    {
        let ghost pre = self@;
        match self.consuming {
            None => Outcome::Idle,
            Some(id) => {
                self.consuming = None;
                self.consume_failures = self.consume_failures + 1;
                self.failed_consumes = Ghost(self.failed_consumes@.push(id));
                proof {
                    let counted = PipelineView {
                        consuming: None,
                        consume_failures: pre.consume_failures + 1,
                        failed_consumes: pre.failed_consumes.push(id),
                        ..pre
                    };
                    assert(self@ =~= counted);
                    assert(counted.inv());
                }
                match self.config.on_consume_error {
                    ErrorPolicy::Skip => Outcome::Skipped(id),
                    ErrorPolicy::Abort => {
                        self.abort(PipelineError::Consume { item: id });
                        Outcome::Fatal(id)
                    },
                }
            },
        }
    }
}

} // verus!
