use wasm_embed::error::InferError;
use wasm_embed::error::Missing;

#[test]
fn message_of_each_missing_part() {
    assert_eq!(Missing::Graph.message(), "Graph is not initialized.");
    assert_eq!(Missing::MaxBufferSize.message(), "MAX_BUFFER_SIZE is not set.");
    assert_eq!(Missing::Metadata.message(), "Metadata is not set.");
}

#[test]
fn message_of_each_failure() {
    let detail = || "busy".to_string();
    assert_eq!(
        InferError::NotInitialized(Missing::Graph).message(),
        "Graph is not initialized."
    );
    assert_eq!(
        InferError::NotInitialized(Missing::MaxBufferSize).message(),
        "MAX_BUFFER_SIZE is not set."
    );
    assert_eq!(
        InferError::LoadError(detail()).message(),
        "Fail to load model into wasi-nn: busy"
    );
    assert_eq!(
        InferError::ContextError(detail()).message(),
        "Fail to create wasi-nn execution context: busy"
    );
    assert_eq!(InferError::LockPoisoned(detail()).message(), "busy");
    assert_eq!(
        InferError::SetInputError(detail()).message(),
        "Failed to set input tensor: busy"
    );
    assert_eq!(
        InferError::ComputeError(detail()).message(),
        "Failed to execute model inference: busy"
    );
    assert_eq!(
        InferError::GetOutputError(detail()).message(),
        "Failed to get output tensor: busy"
    );
}

#[test]
fn only_a_poisoned_lock_is_fatal() {
    assert!(InferError::LockPoisoned(String::new()).is_fatal());
    assert!(!InferError::NotInitialized(Missing::Graph).is_fatal());
    assert!(!InferError::LoadError(String::new()).is_fatal());
    assert!(!InferError::ContextError(String::new()).is_fatal());
    assert!(!InferError::SetInputError(String::new()).is_fatal());
    assert!(!InferError::ComputeError(String::new()).is_fatal());
    assert!(!InferError::GetOutputError(String::new()).is_fatal());
}

#[test]
fn clone_keeps_the_variant_and_its_text() {
    let failure = InferError::ComputeError("busy".to_string());
    assert_eq!(failure.clone(), failure);
    assert_eq!(
        InferError::NotInitialized(Missing::Metadata).clone(),
        InferError::NotInitialized(Missing::Metadata)
    );
    assert_ne!(failure.clone(), InferError::GetOutputError("busy".to_string()));
    assert_eq!(
        InferError::NotInitialized(Missing::Metadata).message(),
        "Metadata is not set."
    );
}
