//! The closed set of failures of an inference attempt.

use vstd::prelude::*;
use vstd::string::StringExecFns;

verus! {

/// A part of the process-wide state that an operation found unset.
#[derive(Debug, Clone, Copy, PartialEq, Eq, Structural)]
pub enum Missing {
    Graph,
    MaxBufferSize,
    Metadata,
}

/// Why an inference attempt, or the construction of the graph, failed. Each
/// variant names the stage; the text it carries is the underlying message.
#[derive(Debug, PartialEq, Eq)]
pub enum InferError {
    NotInitialized(Missing),
    LoadError(String),
    ContextError(String),
    LockPoisoned(String),
    SetInputError(String),
    ComputeError(String),
    GetOutputError(String),
}

impl Clone for InferError {
    fn clone(&self) -> (copy: InferError)
        ensures
            copy == *self,
    {
        match self {
            InferError::NotInitialized(missing) => InferError::NotInitialized(*missing),
            InferError::LoadError(text) => InferError::LoadError(text.clone()),
            InferError::ContextError(text) => InferError::ContextError(text.clone()),
            InferError::LockPoisoned(text) => InferError::LockPoisoned(text.clone()),
            InferError::SetInputError(text) => InferError::SetInputError(text.clone()),
            InferError::ComputeError(text) => InferError::ComputeError(text.clone()),
            InferError::GetOutputError(text) => InferError::GetOutputError(text.clone()),
        }
    }
}

impl Missing {
    pub open spec fn spec_message(&self) -> Seq<char> {
        match self {
            Missing::Graph => "Graph is not initialized."@,
            Missing::MaxBufferSize => "MAX_BUFFER_SIZE is not set."@,
            Missing::Metadata => "Metadata is not set."@,
        }
    }

    /// The sentence that reports this part as unset.
    pub fn message(&self) -> (text: &'static str)
        ensures
            text@ == self.spec_message(),
    {
        match self {
            Missing::Graph => "Graph is not initialized.",
            Missing::MaxBufferSize => "MAX_BUFFER_SIZE is not set.",
            Missing::Metadata => "Metadata is not set.",
        }
    }
}

impl InferError {
    /// The words that introduce the underlying message of each stage; empty
    /// where the message stands alone.
    pub open spec fn spec_prefix(&self) -> Seq<char> {
        match *self {
            InferError::NotInitialized(_) => ""@,
            InferError::LoadError(_) => "Fail to load model into wasi-nn: "@,
            InferError::ContextError(_) => "Fail to create wasi-nn execution context: "@,
            InferError::LockPoisoned(_) => ""@,
            InferError::SetInputError(_) => "Failed to set input tensor: "@,
            InferError::ComputeError(_) => "Failed to execute model inference: "@,
            InferError::GetOutputError(_) => "Failed to get output tensor: "@,
        }
    }

    /// The underlying message that the failure carries.
    pub open spec fn spec_detail(&self) -> Seq<char> {
        match *self {
            InferError::NotInitialized(missing) => missing.spec_message(),
            InferError::LoadError(text) => text@,
            InferError::ContextError(text) => text@,
            InferError::LockPoisoned(text) => text@,
            InferError::SetInputError(text) => text@,
            InferError::ComputeError(text) => text@,
            InferError::GetOutputError(text) => text@,
        }
    }

    pub open spec fn spec_message(&self) -> Seq<char> {
        self.spec_prefix() + self.spec_detail()
    }

    pub open spec fn spec_is_fatal(&self) -> bool {
        self is LockPoisoned
    }

    /// The text shown to a user: the stage that failed, then the underlying
    /// message.
    pub fn message(&self) -> (text: String)
        ensures
            text@ == self.spec_message(),
    {
        let (prefix, detail): (&str, &str) = match self {
            InferError::NotInitialized(missing) => ("", missing.message()),
            InferError::LoadError(text) => ("Fail to load model into wasi-nn: ", text.as_str()),
            InferError::ContextError(text) => (
                "Fail to create wasi-nn execution context: ",
                text.as_str(),
            ),
            InferError::LockPoisoned(text) => ("", text.as_str()),
            InferError::SetInputError(text) => ("Failed to set input tensor: ", text.as_str()),
            InferError::ComputeError(text) => (
                "Failed to execute model inference: ",
                text.as_str(),
            ),
            InferError::GetOutputError(text) => ("Failed to get output tensor: ", text.as_str()),
        };
        let text = String::from_str(prefix).concat(detail);
        text
    }

    /// Whether the process should stop using the graph: a poisoned lock means
    /// that an earlier call may have left the execution context half-written.
    /// Every other failure ends only the call that met it.
    #[verifier::when_used_as_spec(spec_is_fatal)]
    pub fn is_fatal(&self) -> (fatal: bool)
        ensures
            fatal == self.spec_is_fatal(),
    {
        match self {
            InferError::LockPoisoned(_) => true,
            _ => false,
        }
    }
}

} // verus!
