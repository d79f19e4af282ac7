use vstd::prelude::*;

verus! {

/// Raw media bytes.
/// Text should not be sent as raw bytes, use the 'text' field.
#[derive(Clone, Debug, PartialEq, Eq)]
pub struct Blob {
    /// Raw bytes for media formats. A base64-encoded string.
    pub data: String,
    /// The IANA standard MIME type of the source data, such as image/png or
    /// image/jpeg. The service answers an unsupported MIME type with an error.
    pub mime_type: String,
}

/// URI based data.
#[derive(Clone, Debug, PartialEq, Eq)]
pub struct FileData {
    /// The URI of the file.
    pub file_uri: String,
    /// The IANA standard MIME type of the source data.
    pub mime_type: String,
}

/// What the embedded text will be used for.
#[derive(Clone, Copy, Debug, PartialEq, Eq, Structural)]
pub enum TaskType {
    /// Unset value, which will default to one of the other enum values.
    Unspecified,
    /// Specifies the given text is a query in a search/retrieval setting.
    RetrievalQuery,
    /// Specifies the given text is a document from the corpus being searched.
    RetrievalDocument,
    /// Specifies the given text will be used for STS.
    SemanticSimilarity,
    /// Specifies that the given text will be classified.
    Classification,
    /// Specifies that the embeddings will be used for clustering.
    Clustering,
    /// Specifies that the given text will be used for question answering.
    QuestionAnswering,
    /// Specifies that the given text will be used for fact verification.
    FactVerification,
}

} // verus!
