//! Construction-time settings of a pipeline.

use vstd::prelude::*;

verus! {

/// What the orchestrator does when a stage fails on one item.
#[derive(Clone, Copy, Debug, PartialEq, Eq, Structural)]
pub enum ErrorPolicy {
    /// The failure is fatal: the whole pipeline is aborted.
    Abort,
    /// The item is counted as failed and the pipeline carries on.
    Skip,
}

/// Why a configuration was rejected.
#[derive(Clone, Copy, Debug, PartialEq, Eq, Structural)]
pub enum ConfigError {
    /// The chunk channel could never hold an item.
    ZeroChunkCapacity,
    /// The result channel could never hold an item.
    ZeroResultCapacity,
}

/// Channel capacities and failure policies.
#[derive(Clone, Copy, Debug, PartialEq, Eq, Structural)]
pub struct Config {
    /// Bound of the channel between source and transformer.
    pub chunk_capacity: usize,
    /// Bound of the channel between transformer and sink.
    pub result_capacity: usize,
    /// Applied when the transformer fails on a chunk.
    pub on_transform_error: ErrorPolicy,
    /// Applied when the sink fails on a result.
    pub on_consume_error: ErrorPolicy,
}

impl Config {
    /// Both capacities are at least one, so every channel can hold an item.
    pub open spec fn valid(self) -> bool {
        self.chunk_capacity >= 1 && self.result_capacity >= 1
    }

    /// The error that `validate` reports: the chunk capacity is looked at first.
    pub open spec fn defect(self) -> Option<ConfigError> {
        if self.chunk_capacity == 0 {
            Some(ConfigError::ZeroChunkCapacity)
        } else if self.result_capacity == 0 {
            Some(ConfigError::ZeroResultCapacity)
        } else {
            None
        }
    }

    /// A configuration with the given capacities in which every stage
    /// failure is fatal.
    pub fn new(chunk_capacity: usize, result_capacity: usize) -> (config: Config)
        ensures
            config == (Config {
                chunk_capacity,
                result_capacity,
                on_transform_error: ErrorPolicy::Abort,
                on_consume_error: ErrorPolicy::Abort,
            }),
    {
        Config {
            chunk_capacity,
            result_capacity,
            on_transform_error: ErrorPolicy::Abort,
            on_consume_error: ErrorPolicy::Abort,
        }
    }

    /// The same configuration with another policy for transformer failures.
    pub fn with_transform_policy(self, policy: ErrorPolicy) -> (config: Config)
        ensures
            config == (Config { on_transform_error: policy, ..self }),
    {
        Config { on_transform_error: policy, ..self }
    }

    /// The same configuration with another policy for sink failures.
    pub fn with_consume_policy(self, policy: ErrorPolicy) -> (config: Config)
        ensures
            config == (Config { on_consume_error: policy, ..self }),
    {
        Config { on_consume_error: policy, ..self }
    }

    /// Accepts exactly the valid configurations.
    pub fn validate(&self) -> (r: Result<(), ConfigError>)
        ensures
            r.is_ok() <==> self.valid(),
            match r {
                Ok(_) => self.defect().is_none(),
                Err(e) => self.defect() == Some(e),
            },
    {
        if self.chunk_capacity == 0 {
            Err(ConfigError::ZeroChunkCapacity)
        } else if self.result_capacity == 0 {
            Err(ConfigError::ZeroResultCapacity)
        } else {
            Ok(())
        }
    }
}

} // verus!
