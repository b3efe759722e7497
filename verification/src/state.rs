//! The vocabulary of the orchestrator: lifecycle states, stage statuses,
//! errors, and the replies that the stage drivers get.

use vstd::prelude::*;

verus! {

/// Lifecycle of a pipeline. `Completed` and `Aborted` are terminal.
#[derive(Clone, Copy, Debug, PartialEq, Eq, Structural)]
pub enum PipelineState {
    /// Constructed, stages not yet spawned.
    Idle,
    /// All three stages are at work.
    Running,
    /// The source is exhausted; what is queued is still flowing through.
    Draining,
    /// Everything drained and every stage exited without a fatal error.
    Completed,
    /// Stopping early; waiting for the stages to acknowledge.
    Aborting,
    /// Stopped early and every stage has acknowledged.
    Aborted,
}

impl PipelineState {
    /// No transition leaves this state.
    pub open spec fn terminal(self) -> bool {
        self is Completed || self is Aborted
    }

    /// The pipeline was stopped early, by request or by a fatal error.
    pub open spec fn abandoned(self) -> bool {
        self is Aborting || self is Aborted
    }

    /// Whether no transition leaves this state.
    pub fn is_terminal(&self) -> (b: bool)
        ensures
            b == self.terminal(),
    {
        match self {
            PipelineState::Completed => true,
            PipelineState::Aborted => true,
            _ => false,
        }
    }
}

/// Where one stage stands.
#[derive(Clone, Copy, Debug, PartialEq, Eq, Structural)]
pub enum StageStatus {
    /// Not yet spawned.
    Pending,
    /// Spawned and not yet exited.
    Active,
    /// Exited, after its input ended or after acknowledging a stop.
    Exited,
}

/// The first fatal condition that a pipeline met. Stage errors carry the
/// sequence number of the item they concern.
#[derive(Clone, Copy, Debug, PartialEq, Eq, Structural)]
pub enum PipelineError {
    /// The source failed to produce the chunk with this sequence number.
    Source { item: u64 },
    /// The transformer failed on the chunk with this sequence number.
    Transform { item: u64 },
    /// The sink failed on the result of the chunk with this sequence number.
    Consume { item: u64 },
    /// The pipeline was stopped by request.
    Cancelled,
}

/// What the source driver is told to do next.
#[derive(Clone, Copy, Debug, PartialEq, Eq, Structural)]
pub enum SourceAction {
    /// Ask the source for its next chunk and offer it.
    Pull,
    /// The chunk channel is full: suspend until there is room.
    Wait,
    /// The stage is done and must not be driven again.
    Exit,
}

/// The reply to an offer of the source's next chunk.
pub enum Offer<C> {
    /// The chunk was enqueued under this sequence number.
    Accepted(u64),
    /// The chunk channel is full; the chunk comes back to be offered again.
    Full(C),
    /// The pipeline takes no input (any more); what was offered comes back.
    Rejected(Option<C>),
    /// End of stream was recorded and the chunk channel closed.
    Finished,
}

/// What a consuming stage (transformer or sink) is handed when it polls.
pub enum Work<T> {
    /// The next item with its sequence number; the stage now holds it.
    Item(u64, T),
    /// Nothing to do right now: suspend.
    Wait,
    /// The stage is done and must not be driven again.
    Exit,
}

/// How a stage's report on the item it held was recorded.
#[derive(Clone, Copy, Debug, PartialEq, Eq, Structural)]
pub enum Outcome {
    /// The result was enqueued for the sink.
    Forwarded(u64),
    /// The result was consumed.
    Processed(u64),
    /// The result was dropped because the pipeline is stopping.
    Discarded(u64),
    /// The failure was counted and the pipeline carries on.
    Skipped(u64),
    /// The failure was counted and the pipeline is stopping.
    Fatal(u64),
    /// The stage held no item; nothing was recorded.
    Idle,
}

/// What a stage driver did in one turn.
#[derive(Clone, Copy, Debug, PartialEq, Eq, Structural)]
pub enum Turn {
    /// It took an item, did its work on it, and the report was recorded so.
    Worked(Outcome),
    /// It had nothing to do, or no room to do it.
    Waited,
    /// Its stage is over.
    Exited,
}

/// Counts and final condition of a pipeline.
#[derive(Clone, Copy, Debug, PartialEq, Eq, Structural)]
pub struct Summary {
    /// The lifecycle state when the summary was taken.
    pub state: PipelineState,
    /// Chunks accepted from the source.
    pub accepted: u64,
    /// Results that the sink consumed successfully.
    pub processed: u64,
    /// Items dropped unprocessed because the pipeline stopped early.
    pub skipped: u64,
    /// Items on which the transformer or the sink failed.
    pub failed: u64,
    /// Of those, the chunks on which the transformer failed.
    pub transform_failures: u64,
    /// Of those, the results on which the sink failed.
    pub consume_failures: u64,
    /// The first fatal condition, if the pipeline was stopped early.
    pub first_error: Option<PipelineError>,
}

} // verus!
