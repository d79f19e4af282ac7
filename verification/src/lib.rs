//! Google Gemini embeddings: the request that a batch of documents turns
//! into, and the embeddings that the service's reply turns into.

pub mod api_types;
pub mod laws;
pub mod model;
pub mod response;

pub use api_types::{Blob, FileData, TaskType};
pub use model::{EmbedRequest, EmbeddingModel, EMBEDDING_001, EMBEDDING_004, MAX_DOCUMENTS};
pub use response::{embeddings_from_response, ApiErrorResponse, ApiResponse, Embedding, EmbeddingError};
