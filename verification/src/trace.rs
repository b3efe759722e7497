//! Histories of a pipeline: any finite sequence of driver calls, applied
//! to the state machine one after the other.

use crate::model::PipelineView;
use vstd::prelude::*;

verus! {

/// One call that a driver or the embedding application can make.
pub enum Step<C, R> {
    Start,
    Stop,
    /// The source driver offers its next chunk, or the end of the source.
    Offer(Option<C>),
    SourceFailed,
    PollSource,
    PollTransformer,
    /// The transformer reports a result for the chunk it holds.
    Transformed(R),
    TransformFailed,
    PollSink,
    Consumed,
    ConsumeFailed,
}

impl<C, R> PipelineView<C, R> {
    /// The state after one call.
    pub open spec fn step(self, s: Step<C, R>) -> Self {
        match s {
            Step::Start => self.start(),
            Step::Stop => self.stop(),
            Step::Offer(next) => self.offer(next),
            Step::SourceFailed => self.source_failed(),
            Step::PollSource => self.poll_source(),
            Step::PollTransformer => self.poll_transformer(),
            Step::Transformed(result) => self.transformed(result),
            Step::TransformFailed => self.transform_failed(),
            Step::PollSink => self.poll_sink(),
            Step::Consumed => self.consumed(),
            Step::ConsumeFailed => self.consume_failed(),
        }
    }

    /// The state after a sequence of calls, made in order.
    pub open spec fn run(self, steps: Seq<Step<C, R>>) -> Self
        decreases steps.len(),
    {
        if steps.len() == 0 {
            self
        } else {
            self.run(steps.drop_last()).step(steps.last())
        }
    }

    /// One call keeps the invariant and accepts at most one chunk.
    pub proof fn lemma_step_inv(self, s: Step<C, R>)
        requires
            self.inv(),
            self.accepted < u64::MAX,
        ensures
            self.step(s).inv(),
            self.accepted <= self.step(s).accepted <= self.accepted + 1,
    {
        match s {
            Step::Start => self.lemma_start_inv(),
            Step::Stop => self.lemma_stop_inv(),
            Step::Offer(next) => self.lemma_offer_inv(next),
            Step::SourceFailed => self.lemma_source_failed_inv(),
            Step::PollSource => self.lemma_poll_source_inv(),
            Step::PollTransformer => self.lemma_poll_transformer_inv(),
            Step::Transformed(result) => self.lemma_transformed_inv(result),
            Step::TransformFailed => self.lemma_transform_failed_inv(),
            Step::PollSink => self.lemma_poll_sink_inv(),
            Step::Consumed => self.lemma_consumed_inv(),
            Step::ConsumeFailed => self.lemma_consume_failed_inv(),
        }
    }

    /// Every history keeps the invariant, as long as the sequence numbers
    /// cannot run out on the way.
    pub proof fn lemma_run_inv(self, steps: Seq<Step<C, R>>)
        requires
            self.inv(),
            self.accepted + steps.len() <= u64::MAX,
        ensures
            self.run(steps).inv(),
            self.accepted <= self.run(steps).accepted <= self.accepted + steps.len(),
        decreases steps.len(),
    {
        if steps.len() > 0 {
            self.lemma_run_inv(steps.drop_last());
            self.run(steps.drop_last()).lemma_step_inv(steps.last());
        }
    }

    /// Once a pipeline is stopping or stopped it stays so, and no call
    /// makes it accept another chunk.
    pub proof fn lemma_step_abandoned(self, s: Step<C, R>)
        requires
            self.inv(),
            self.state.abandoned(),
        ensures
            self.step(s).inv(),
            self.step(s).state.abandoned(),
            self.step(s).accepted == self.accepted,
            self.step(s).chunks.items.len() == 0,
            self.step(s).first_error == self.first_error,
    {
        match s {
            Step::Start => self.lemma_start_inv(),
            Step::Stop => self.lemma_stop_inv(),
            Step::Offer(next) => {},
            Step::SourceFailed => self.lemma_source_failed_inv(),
            Step::PollSource => self.lemma_poll_source_inv(),
            Step::PollTransformer => self.lemma_poll_transformer_inv(),
            Step::Transformed(result) => self.lemma_transformed_inv(result),
            Step::TransformFailed => self.lemma_transform_failed_inv(),
            Step::PollSink => self.lemma_poll_sink_inv(),
            Step::Consumed => self.lemma_consumed_inv(),
            Step::ConsumeFailed => self.lemma_consume_failed_inv(),
        }
    }

    /// The same, for a whole history.
    pub proof fn lemma_run_abandoned(self, steps: Seq<Step<C, R>>)
        requires
            self.inv(),
            self.state.abandoned(),
        ensures
            self.run(steps).inv(),
            self.run(steps).state.abandoned(),
            self.run(steps).accepted == self.accepted,
            self.run(steps).chunks.items.len() == 0,
            self.run(steps).first_error == self.first_error,
        decreases steps.len(),
    {
        if steps.len() > 0 {
            self.lemma_run_abandoned(steps.drop_last());
            self.run(steps.drop_last()).lemma_step_abandoned(steps.last());
        }
    }

    /// A terminal pipeline is changed by no call at all.
    pub proof fn lemma_step_terminal(self, s: Step<C, R>)
        requires
            self.inv(),
            self.state.terminal(),
        ensures
            self.step(s) == self,
    {
        assert(self.step(s) =~= self);
    }
}

} // verus!
