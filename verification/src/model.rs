//! The pipeline as a mathematical state machine: its state, the step that
//! each driver call takes, and the invariant that every step keeps.

use crate::channel::ChannelView;
use crate::config::{Config, ErrorPolicy};
use crate::state::{
    Offer, Outcome, PipelineError, PipelineState, SourceAction, StageStatus, Work,
};
use vstd::prelude::*;

verus! {

/// One if the slot holds an item, else zero.
pub open spec fn held(slot: Option<u64>) -> nat {
    if slot.is_some() {
        1
    } else {
        0
    }
}

/// Each sequence number is smaller than every later one.
pub open spec fn increasing(ids: Seq<u64>) -> bool {
    forall|i: int, j: int| 0 <= i < j < ids.len() ==> ids[i] < ids[j]
}

/// A channel after an early close: closed, with nothing queued.
pub open spec fn shut<T>(capacity: nat) -> ChannelView<T> {
    ChannelView { items: Seq::empty(), capacity, closed: true }
}

/// Everything the orchestrator knows. Items travel with the sequence number
/// that the source driver gave them, counted from zero in source order.
#[verifier::ext_equal]
pub struct PipelineView<C, R> {
    pub config: Config,
    pub state: PipelineState,
    pub source: StageStatus,
    pub transformer: StageStatus,
    pub sink: StageStatus,
    /// Channel from source to transformer.
    pub chunks: ChannelView<(u64, C)>,
    /// Channel from transformer to sink.
    pub results: ChannelView<(u64, R)>,
    /// The chunk that the transformer holds, if any.
    pub transforming: Option<u64>,
    /// The result that the sink holds, if any.
    pub consuming: Option<u64>,
    /// Chunks accepted from the source; also the next sequence number.
    pub accepted: nat,
    /// Every chunk with a smaller number has left the chunk channel.
    pub taken: nat,
    pub processed: nat,
    pub transform_failures: nat,
    pub consume_failures: nat,
    /// Items dropped unprocessed because the pipeline stopped early.
    pub skipped: nat,
    pub first_error: Option<PipelineError>,
    /// Sequence numbers of the results handed to the sink, in the order
    /// in which the sink received them.
    pub delivered: Seq<u64>,
    /// Sequence numbers of the results that the sink consumed, in order.
    pub completed: Seq<u64>,
    /// Sequence numbers of the chunks on which the transformer failed.
    pub failed_transforms: Seq<u64>,
    /// Sequence numbers of the results on which the sink failed.
    pub failed_consumes: Seq<u64>,
}

impl<C, R> PipelineView<C, R> {
    /// A freshly constructed pipeline.
    pub open spec fn initial(config: Config) -> Self {
        PipelineView {
            config,
            state: PipelineState::Idle,
            source: StageStatus::Pending,
            transformer: StageStatus::Pending,
            sink: StageStatus::Pending,
            chunks: ChannelView {
                items: Seq::empty(),
                capacity: config.chunk_capacity as nat,
                closed: false,
            },
            results: ChannelView {
                items: Seq::empty(),
                capacity: config.result_capacity as nat,
                closed: false,
            },
            transforming: None,
            consuming: None,
            accepted: 0,
            taken: 0,
            processed: 0,
            transform_failures: 0,
            consume_failures: 0,
            skipped: 0,
            first_error: None,
            delivered: Seq::empty(),
            completed: Seq::empty(),
            failed_transforms: Seq::empty(),
            failed_consumes: Seq::empty(),
        }
    }

    /// Some stage is spawned and has not exited.
    pub open spec fn any_active(self) -> bool {
        self.source is Active || self.transformer is Active || self.sink is Active
    }

    /// Items on which a stage failed.
    pub open spec fn failed(self) -> nat {
        self.transform_failures + self.consume_failures
    }

    /// Items that are inside the pipeline: queued or held by a stage.
    pub open spec fn in_flight(self) -> nat {
        self.chunks.items.len() + held(self.transforming) + self.results.items.len() + held(
            self.consuming,
        )
    }

    /// No result can reach the result channel with a number at or above this.
    pub open spec fn transform_mark(self) -> nat {
        match self.transforming {
            Some(t) => t as nat,
            None => self.taken,
        }
    }

    /// Every delivered number is below this.
    pub open spec fn sink_mark(self) -> nat {
        if self.delivered.len() == 0 {
            0
        } else {
            (self.delivered.last() + 1) as nat
        }
    }

    /// Every number that the sink has reported on is below this.
    pub open spec fn settled_mark(self) -> nat {
        match self.consuming {
            Some(id) => id as nat,
            None => self.sink_mark(),
        }
    }

    /// The logs agree with the counters, and each item is logged once: a
    /// log holds increasing numbers of items that have passed its stage.
    pub open spec fn logged(self) -> bool {
        &&& self.processed == self.completed.len()
        &&& self.transform_failures == self.failed_transforms.len()
        &&& self.consume_failures == self.failed_consumes.len()
        &&& increasing(self.completed)
        &&& increasing(self.failed_transforms)
        &&& increasing(self.failed_consumes)
        &&& forall|k: int|
            0 <= k < self.completed.len() ==> #[trigger] self.completed[k] < self.settled_mark()
        &&& forall|k: int|
            0 <= k < self.failed_consumes.len() ==> #[trigger] self.failed_consumes[k]
                < self.settled_mark()
        &&& forall|k: int|
            0 <= k < self.failed_transforms.len() ==> #[trigger] self.failed_transforms[k]
                < self.transform_mark()
        &&& self.settled_mark() <= self.sink_mark() <= self.transform_mark() <= self.accepted
    }

    /// Sequence numbers are handed on in source order and never repeated.
    pub open spec fn ordered(self) -> bool {
        &&& self.taken + self.chunks.items.len() <= self.accepted
        &&& !self.state.abandoned() ==> self.taken + self.chunks.items.len() == self.accepted
        &&& forall|i: int|
            0 <= i < self.chunks.items.len() ==> (#[trigger] self.chunks.items[i]).0 == self.taken
                + i
        &&& self.transforming matches Some(t) ==> t < self.taken
        &&& forall|j: int|
            0 <= j < self.results.items.len() ==> self.sink_mark() <= (
            #[trigger] self.results.items[j]).0 < self.transform_mark()
        &&& forall|j: int, k: int|
            0 <= j < k < self.results.items.len() ==> (#[trigger] self.results.items[j]).0 < (
            #[trigger] self.results.items[k]).0
        &&& self.sink_mark() <= self.transform_mark()
        &&& increasing(self.delivered)
        &&& self.consuming matches Some(id) ==> self.delivered.len() > 0 && self.delivered.last()
            == id
    }

    /// Every accepted chunk is accounted for exactly once.
    pub open spec fn conserved(self) -> bool {
        &&& self.accepted == self.chunks.items.len() + held(self.transforming)
            + self.results.items.len() + self.delivered.len() + self.transform_failures
            + self.skipped
        &&& self.delivered.len() == self.processed + self.consume_failures + held(self.consuming)
        &&& self.accepted <= u64::MAX
    }

    /// The channels respect their bounds, and the transformer only holds a
    /// chunk when the result channel has room for what it will produce.
    pub open spec fn bounded(self) -> bool {
        &&& self.config.valid()
        &&& self.chunks.capacity == self.config.chunk_capacity
        &&& self.results.capacity == self.config.result_capacity
        &&& self.chunks.within_bound()
        &&& self.results.items.len() + held(self.transforming) <= self.results.capacity
    }

    /// What each lifecycle state implies for stages, channels and errors.
    pub open spec fn coherent(self) -> bool {
        &&& !(self.transformer is Active) ==> self.transforming.is_none()
        &&& !(self.sink is Active) ==> self.consuming.is_none()
        &&& match self.state {
            PipelineState::Idle => {
                &&& self == Self::initial(self.config)
            },
            PipelineState::Running => {
                &&& self.source is Active
                &&& self.transformer is Active
                &&& self.sink is Active
                &&& !self.chunks.closed
                &&& !self.results.closed
                &&& self.first_error.is_none()
                &&& self.skipped == 0
            },
            PipelineState::Draining => {
                &&& self.source is Exited
                &&& !(self.transformer is Pending)
                &&& self.sink is Active
                &&& self.chunks.closed
                &&& self.results.closed <==> self.transformer is Exited
                &&& self.transformer is Exited ==> self.chunks.items.len() == 0
                &&& self.first_error.is_none()
                &&& self.skipped == 0
            },
            PipelineState::Completed => {
                &&& self.source is Exited
                &&& self.transformer is Exited
                &&& self.sink is Exited
                &&& self.chunks.drained()
                &&& self.results.drained()
                &&& self.first_error.is_none()
                &&& self.skipped == 0
            },
            PipelineState::Aborting => {
                &&& self.any_active()
                &&& self.chunks.drained()
                &&& self.results.drained()
                &&& self.first_error.is_some()
            },
            PipelineState::Aborted => {
                &&& !self.any_active()
                &&& self.chunks.drained()
                &&& self.results.drained()
                &&& self.first_error.is_some()
            },
        }
    }

    /// The invariant of the state machine.
    pub open spec fn inv(self) -> bool {
        &&& self.bounded()
        &&& self.ordered()
        &&& self.conserved()
        &&& self.logged()
        &&& self.coherent()
    }

    /// Stops early: both channels are closed and what they held is dropped
    /// and counted as skipped; the first cause is kept. With no stage left
    /// to acknowledge, the stop is complete at once.
    pub open spec fn abort(self, cause: PipelineError) -> Self {
        PipelineView {
            state: if self.any_active() {
                PipelineState::Aborting
            } else {
                PipelineState::Aborted
            },
            chunks: shut(self.chunks.capacity),
            results: shut(self.results.capacity),
            skipped: self.skipped + self.chunks.items.len() + self.results.items.len(),
            first_error: if self.first_error.is_some() {
                self.first_error
            } else {
                Some(cause)
            },
            ..self
        }
    }

    /// After a stage has exited: an early stop is complete once no stage is
    /// active, and a drain is complete once every stage has exited with both
    /// channels closed and empty.
    pub open spec fn settle(self) -> Self {
        if self.state is Aborting && !self.any_active() {
            PipelineView { state: PipelineState::Aborted, ..self }
        } else if self.state is Draining && self.source is Exited && self.transformer is Exited
            && self.sink is Exited && self.chunks.drained() && self.results.drained() {
            PipelineView { state: PipelineState::Completed, ..self }
        } else {
            self
        }
    }

    /// Start: an idle pipeline spawns its three stages.
    pub open spec fn start(self) -> Self {
        if self.state is Idle {
            PipelineView {
                state: PipelineState::Running,
                source: StageStatus::Active,
                transformer: StageStatus::Active,
                sink: StageStatus::Active,
                ..self
            }
        } else {
            self
        }
    }

    /// Stop: a cancellation request. Terminal and already stopping
    /// pipelines are left as they are.
    pub open spec fn stop(self) -> Self {
        if self.state.terminal() || self.state is Aborting {
            self
        } else {
            self.abort(PipelineError::Cancelled)
        }
    }

    /// The source driver may hand in chunks.
    pub open spec fn accepting(self) -> bool {
        self.state is Running && self.source is Active
    }

    /// Offer of the source's next chunk, or of its end (`None`).
    pub open spec fn offer(self, next: Option<C>) -> Self {
        if !self.accepting() {
            self
        } else {
            match next {
                Some(chunk) => if self.chunks.full() {
                    self
                } else {
                    PipelineView {
                        chunks: ChannelView {
                            items: self.chunks.items.push((self.accepted as u64, chunk)),
                            ..self.chunks
                        },
                        accepted: self.accepted + 1,
                        ..self
                    }
                },
                None => PipelineView {
                    state: PipelineState::Draining,
                    source: StageStatus::Exited,
                    chunks: ChannelView { closed: true, ..self.chunks },
                    ..self
                },
            }
        }
    }

    /// The reply to that offer.
    pub open spec fn offer_reply(self, next: Option<C>) -> Offer<C> {
        if !self.accepting() {
            Offer::Rejected(next)
        } else {
            match next {
                Some(chunk) => if self.chunks.full() {
                    Offer::Full(chunk)
                } else {
                    Offer::Accepted(self.accepted as u64)
                },
                None => Offer::Finished,
            }
        }
    }

    /// The source failed to produce a chunk: fatal while input is taken.
    pub open spec fn source_failed(self) -> Self {
        if self.accepting() {
            self.abort(PipelineError::Source { item: self.accepted as u64 })
        } else {
            self
        }
    }

    /// The source driver polls.
    pub open spec fn poll_source(self) -> Self {
        if self.source is Active && self.state is Aborting {
            PipelineView { source: StageStatus::Exited, ..self }.settle()
        } else {
            self
        }
    }

    /// What the source driver is told.
    pub open spec fn source_action(self) -> SourceAction {
        if !(self.source is Active) || self.state is Aborting {
            SourceAction::Exit
        } else if self.state is Running && !self.chunks.full() {
            SourceAction::Pull
        } else {
            SourceAction::Wait
        }
    }

    /// The transformer is free to look at its input.
    pub open spec fn transformer_ready(self) -> bool {
        self.transformer is Active && self.transforming.is_none()
    }

    /// The transformer can take the chunk at the head of its channel.
    pub open spec fn transformer_can_take(self) -> bool {
        &&& self.transformer_ready()
        &&& !(self.state is Aborting)
        &&& self.chunks.items.len() > 0
        &&& !self.results.full()
    }

    /// The transformer sees the end of its input.
    pub open spec fn transformer_at_end(self) -> bool {
        &&& self.transformer_ready()
        &&& !(self.state is Aborting)
        &&& self.chunks.drained()
    }

    /// The transformer driver polls.
    pub open spec fn poll_transformer(self) -> Self {
        if !self.transformer_ready() {
            self
        } else if self.state is Aborting {
            PipelineView { transformer: StageStatus::Exited, ..self }.settle()
        } else if self.transformer_can_take() {
            PipelineView {
                chunks: ChannelView { items: self.chunks.items.drop_first(), ..self.chunks },
                transforming: Some(self.chunks.items[0].0),
                taken: (self.chunks.items[0].0 + 1) as nat,
                ..self
            }
        } else if self.transformer_at_end() {
            PipelineView {
                transformer: StageStatus::Exited,
                results: ChannelView { closed: true, ..self.results },
                ..self
            }.settle()
        } else {
            self
        }
    }

    /// What the transformer driver is handed.
    pub open spec fn transformer_work(self) -> Work<C> {
        if !(self.transformer is Active) {
            Work::Exit
        } else if self.transforming.is_some() {
            Work::Wait
        } else if self.state is Aborting {
            Work::Exit
        } else if self.transformer_can_take() {
            Work::Item(self.chunks.items[0].0, self.chunks.items[0].1)
        } else if self.transformer_at_end() {
            Work::Exit
        } else {
            Work::Wait
        }
    }

    /// The transformer reports the result for the chunk it holds.
    pub open spec fn transformed(self, result: R) -> Self {
        match self.transforming {
            None => self,
            Some(id) => if self.state is Aborting {
                PipelineView { transforming: None, skipped: self.skipped + 1, ..self }
            } else {
                PipelineView {
                    transforming: None,
                    results: ChannelView {
                        items: self.results.items.push((id, result)),
                        ..self.results
                    },
                    ..self
                }
            },
        }
    }

    /// How that report is recorded.
    pub open spec fn transformed_outcome(self) -> Outcome {
        match self.transforming {
            None => Outcome::Idle,
            Some(id) => if self.state is Aborting {
                Outcome::Discarded(id)
            } else {
                Outcome::Forwarded(id)
            },
        }
    }

    /// The transformer reports that it failed on the chunk it holds.
    pub open spec fn transform_failed(self) -> Self {
        match self.transforming {
            None => self,
            Some(id) => {
                let counted = PipelineView {
                    transforming: None,
                    transform_failures: self.transform_failures + 1,
                    failed_transforms: self.failed_transforms.push(id),
                    ..self
                };
                match self.config.on_transform_error {
                    ErrorPolicy::Skip => counted,
                    ErrorPolicy::Abort => counted.abort(PipelineError::Transform { item: id }),
                }
            },
        }
    }

    /// How that failure is recorded.
    pub open spec fn transform_failed_outcome(self) -> Outcome {
        match self.transforming {
            None => Outcome::Idle,
            Some(id) => match self.config.on_transform_error {
                ErrorPolicy::Skip => Outcome::Skipped(id),
                ErrorPolicy::Abort => Outcome::Fatal(id),
            },
        }
    }

    /// The sink is free to look at its input.
    pub open spec fn sink_ready(self) -> bool {
        self.sink is Active && self.consuming.is_none()
    }

    /// The sink can take the result at the head of its channel.
    pub open spec fn sink_can_take(self) -> bool {
        &&& self.sink_ready()
        &&& !(self.state is Aborting)
        &&& self.results.items.len() > 0
    }

    /// The sink sees the end of its input.
    pub open spec fn sink_at_end(self) -> bool {
        &&& self.sink_ready()
        &&& !(self.state is Aborting)
        &&& self.results.drained()
    }

    /// The sink driver polls.
    pub open spec fn poll_sink(self) -> Self {
        if !self.sink_ready() {
            self
        } else if self.state is Aborting {
            PipelineView { sink: StageStatus::Exited, ..self }.settle()
        } else if self.sink_can_take() {
            PipelineView {
                results: ChannelView { items: self.results.items.drop_first(), ..self.results },
                consuming: Some(self.results.items[0].0),
                delivered: self.delivered.push(self.results.items[0].0),
                ..self
            }
        } else if self.sink_at_end() {
            PipelineView { sink: StageStatus::Exited, ..self }.settle()
        } else {
            self
        }
    }

    /// What the sink driver is handed.
    pub open spec fn sink_work(self) -> Work<R> {
        if !(self.sink is Active) {
            Work::Exit
        } else if self.consuming.is_some() {
            Work::Wait
        } else if self.state is Aborting {
            Work::Exit
        } else if self.sink_can_take() {
            Work::Item(self.results.items[0].0, self.results.items[0].1)
        } else if self.sink_at_end() {
            Work::Exit
        } else {
            Work::Wait
        }
    }

    /// The sink reports that it consumed the result it holds.
    pub open spec fn consumed(self) -> Self {
        match self.consuming {
            None => self,
            Some(id) => PipelineView {
                consuming: None,
                processed: self.processed + 1,
                completed: self.completed.push(id),
                ..self
            },
        }
    }

    /// How that report is recorded.
    pub open spec fn consumed_outcome(self) -> Outcome {
        match self.consuming {
            None => Outcome::Idle,
            Some(id) => Outcome::Processed(id),
        }
    }

    /// The sink reports that it failed on the result it holds.
    pub open spec fn consume_failed(self) -> Self {
        match self.consuming {
            None => self,
            Some(id) => {
                let counted = PipelineView {
                    consuming: None,
                    consume_failures: self.consume_failures + 1,
                    failed_consumes: self.failed_consumes.push(id),
                    ..self
                };
                match self.config.on_consume_error {
                    ErrorPolicy::Skip => counted,
                    ErrorPolicy::Abort => counted.abort(PipelineError::Consume { item: id }),
                }
            },
        }
    }

    /// How that failure is recorded.
    pub open spec fn consume_failed_outcome(self) -> Outcome {
        match self.consuming {
            None => Outcome::Idle,
            Some(id) => match self.config.on_consume_error {
                ErrorPolicy::Skip => Outcome::Skipped(id),
                ErrorPolicy::Abort => Outcome::Fatal(id),
            },
        }
    }

    /// A valid configuration gives an initial state that meets the invariant.
    pub proof fn lemma_initial_inv(config: Config)
        requires
            config.valid(),
        ensures
            Self::initial(config).inv(),
    {
    }

    /// An early stop keeps the invariant, whatever its cause.
    pub proof fn lemma_abort_inv(self, cause: PipelineError)
        requires
            self.inv(),
        ensures
            self.abort(cause).inv(),
    {
    }

    /// Start keeps the invariant.
    pub proof fn lemma_start_inv(self)
        requires
            self.inv(),
        ensures
            self.start().inv(),
    {
    }

    /// Stop keeps the invariant.
    pub proof fn lemma_stop_inv(self)
        requires
            self.inv(),
        ensures
            self.stop().inv(),
    {
    }

    /// An offer keeps the invariant.
    pub proof fn lemma_offer_inv(self, next: Option<C>)
        requires
            self.inv(),
            next.is_some() ==> self.accepted < u64::MAX,
        ensures
            self.offer(next).inv(),
    {
    }

    /// A source failure keeps the invariant.
    pub proof fn lemma_source_failed_inv(self)
        requires
            self.inv(),
        ensures
            self.source_failed().inv(),
    {
    }

    /// A poll by the source driver keeps the invariant.
    pub proof fn lemma_poll_source_inv(self)
        requires
            self.inv(),
        ensures
            self.poll_source().inv(),
    {
    }

    /// A poll by the transformer driver keeps the invariant.
    pub proof fn lemma_poll_transformer_inv(self)
        requires
            self.inv(),
        ensures
            self.poll_transformer().inv(),
    {
    }

    /// A transformer result keeps the invariant.
    pub proof fn lemma_transformed_inv(self, result: R)
        requires
            self.inv(),
        ensures
            self.transformed(result).inv(),
    {
    }

    /// A transformer failure keeps the invariant.
    pub proof fn lemma_transform_failed_inv(self)
        requires
            self.inv(),
        ensures
            self.transform_failed().inv(),
    {
    }

    /// A poll by the sink driver keeps the invariant.
    pub proof fn lemma_poll_sink_inv(self)
        requires
            self.inv(),
        ensures
            self.poll_sink().inv(),
    {
    }

    /// A sink success keeps the invariant.
    pub proof fn lemma_consumed_inv(self)
        requires
            self.inv(),
        ensures
            self.consumed().inv(),
    {
    }

    /// A sink failure keeps the invariant.
    pub proof fn lemma_consume_failed_inv(self)
        requires
            self.inv(),
        ensures
            self.consume_failed().inv(),
    {
    }
}

} // verus!
