//! A non-blocking bridge to an embedding engine: operations are started on a
//! background worker, tracked in a registry under an operation id, and their
//! results are collected by polling.
//!
//! The library holds the protocol: argument checks, the registry, the
//! worker's decisions, error classification and the form in which results
//! are handed over. Threads, the engine and the foreign boundary live around
//! it.

pub mod device;
pub mod direct;
pub mod failure;
pub mod laws;
pub mod metadata;
pub mod payload;
pub mod registry;
pub mod request;
pub mod text;
pub mod worker;

pub use device::{get_active_device_type, is_device_available, select_device, ComputeDevice};
pub use failure::{clear_last_error, set_last_error, take_last_error, FailureClass, FailureKind};
pub use metadata::{metadata_json, metadata_json_of, Metadata};
pub use payload::{
    AsyncResultData, AsyncResultType, BatchEmbeddingResult, DenseEmbedData, EmbedData,
    EmbeddingResult, FileEmbeddingResult, ModelLoadResult, ResultPayload, SingleEmbeddingResult,
};
pub use registry::{
    cancel_async_operation, invalid_id_message, poll_async_result, register_operation, store_cancelled, store_error,
    store_success, AsyncOperation, AsyncOperationStatus, PollOutcome, Registry,
};
pub use request::{
    start_embed_directory, start_embed_file, start_embed_text, start_embed_texts_batch,
    start_load_model, ArgText, Dtype, StartedOperation,
};
pub use worker::{worker_checkpoint, worker_finish, Verdict};
