//! Dispatch of text-embedding requests to interchangeable backends.
//!
//! A backend is selected by a small numeric method id and a model by a small
//! numeric model id, both resolved from names by the registry.
//! The backends themselves only decide: what has to be loaded or connected
//! before a request can run, what is sent, and how the vectors that come back
//! are laid out in one flat buffer. Loading models and talking to the network
//! is left to the caller, who reports each outcome back.

pub mod catalog;
pub mod error;
pub mod local;
pub mod lookup;
pub mod model;
pub mod registry;
pub mod remote;
pub mod shape;
pub mod text;

pub use error::EmbedError;
pub use local::{FastEmbedder, LocalStep, ModelCache, ModelDef, SlotState, EMBED_METHOD_FASTEMBED_ID};
pub use model::{Input, InputType, ModelInfo};
pub use registry::{Embedder, EmbedderRegistry};
pub use remote::{
    ClientSlot, ConnectionConfig, ConnectionState, EmbedBatchRequest, GrpcEmbedder, RemoteStep,
    EMBED_METHOD_GRPC_ID,
};
pub use shape::{flatten, EmbedResult};
