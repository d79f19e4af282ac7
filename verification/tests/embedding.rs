use gemini_embedding::{
    embeddings_from_response, ApiErrorResponse, ApiResponse, Blob, EmbedRequest, Embedding,
    EmbeddingError, EmbeddingModel, FileData, TaskType, EMBEDDING_001, EMBEDDING_004,
    MAX_DOCUMENTS,
};

fn docs(texts: &[&str]) -> Vec<String> {
    texts.iter().map(|t| t.to_string()).collect()
}

#[test]
fn known_models_have_768_dimensions() {
    assert_eq!(EmbeddingModel::new((), EMBEDDING_001, None).ndims(), 768);
    assert_eq!(EmbeddingModel::new((), EMBEDDING_004, Some(10)).ndims(), 768);
    assert_eq!(EmbeddingModel::new((), "embedding-001", None).ndims(), 768);
    assert_eq!(EmbeddingModel::new((), "text-embedding-004", None).ndims(), 768);
}

#[test]
fn unknown_models_have_0_dimensions() {
    assert_eq!(EmbeddingModel::new((), "gemini-embedding-exp", None).ndims(), 0);
    assert_eq!(EmbeddingModel::new((), "", None).ndims(), 0);
    assert_eq!(EmbeddingModel::new((), "embedding-00", None).ndims(), 0);
    assert_eq!(EmbeddingModel::new((), "embedding-0011", Some(768)).ndims(), 0);
}

#[test]
fn constants() {
    assert_eq!(EMBEDDING_001, "embedding-001");
    assert_eq!(EMBEDDING_004, "text-embedding-004");
    assert_eq!(MAX_DOCUMENTS, 1024);
}

#[test]
fn batch_path_names_the_model() {
    let model = EmbeddingModel::new(0u32, EMBEDDING_004, None);
    assert_eq!(
        model.batch_embed_path(),
        "/v1beta/models/text-embedding-004:batchEmbedContents"
    );
    let other = EmbeddingModel::new(0u32, "my-model", None);
    assert_eq!(other.batch_embed_path(), "/v1beta/models/my-model:batchEmbedContents");
}

#[test]
fn one_request_per_document_in_order() {
    let model = EmbeddingModel::new((), EMBEDDING_001, Some(256));
    let requests = model.build_requests(&docs(&["first doc", "second doc", "third"]));
    assert_eq!(
        requests,
        vec![
            EmbedRequest {
                model: "models/embedding-001".to_string(),
                text: "first doc".to_string(),
                output_dimensionality: Some(256),
            },
            EmbedRequest {
                model: "models/embedding-001".to_string(),
                text: "second doc".to_string(),
                output_dimensionality: Some(256),
            },
            EmbedRequest {
                model: "models/embedding-001".to_string(),
                text: "third".to_string(),
                output_dimensionality: Some(256),
            },
        ]
    );
}

#[test]
fn requests_without_dimensions() {
    let model = EmbeddingModel::new((), "custom", None);
    let requests = model.build_requests(&docs(&["x"]));
    assert_eq!(requests.len(), 1);
    assert_eq!(requests[0].model, "models/custom");
    assert_eq!(requests[0].text, "x");
    assert_eq!(requests[0].output_dimensionality, None);
}

#[test]
fn no_documents_no_requests() {
    let model = EmbeddingModel::new((), EMBEDDING_004, None);
    assert!(model.build_requests(&Vec::new()).is_empty());
}

#[test]
fn embeddings_pair_documents_with_vectors() {
    let response = ApiResponse::Success(vec![vec![0.5f64, 1.0], vec![-2.0, 3.25]]);
    let result = embeddings_from_response(docs(&["a", "b"]), response);
    assert_eq!(
        result,
        Ok(vec![
            Embedding { document: "a".to_string(), vec: vec![0.5, 1.0] },
            Embedding { document: "b".to_string(), vec: vec![-2.0, 3.25] },
        ])
    );
}

#[test]
fn fewer_vectors_drop_trailing_documents() {
    let response = ApiResponse::Success(vec![vec![1.0f64]]);
    let result = embeddings_from_response(docs(&["a", "b", "c"]), response);
    assert_eq!(result, Ok(vec![Embedding { document: "a".to_string(), vec: vec![1.0] }]));
}

#[test]
fn extra_vectors_are_dropped() {
    let response = ApiResponse::Success(vec![10u32, 20, 30]);
    let result = embeddings_from_response(docs(&["a", "b"]), response);
    assert_eq!(
        result,
        Ok(vec![
            Embedding { document: "a".to_string(), vec: 10 },
            Embedding { document: "b".to_string(), vec: 20 },
        ])
    );
}

#[test]
fn empty_answer_gives_no_embeddings() {
    let response: ApiResponse<Vec<u8>> = ApiResponse::Success(Vec::new());
    assert_eq!(embeddings_from_response(docs(&["a"]), response), Ok(Vec::new()));
}

#[test]
fn error_answer_is_a_provider_error() {
    let response: ApiResponse<Vec<Vec<f64>>> = ApiResponse::Failure(ApiErrorResponse {
        message: "API key not valid".to_string(),
    });
    assert_eq!(
        embeddings_from_response(docs(&["a", "b"]), response),
        Err(EmbeddingError::ProviderError("API key not valid".to_string()))
    );
}

#[test]
fn embeddings_follow_requests() {
    let model = EmbeddingModel::new((), EMBEDDING_004, None);
    let documents = docs(&["alpha", "beta", "gamma"]);
    let requests = model.build_requests(&documents);
    let vectors: Vec<usize> = (0..requests.len()).collect();
    let embeddings = embeddings_from_response(documents, ApiResponse::Success(vectors)).unwrap();
    assert_eq!(embeddings.len(), requests.len());
    for (i, (request, embedding)) in requests.iter().zip(embeddings.iter()).enumerate() {
        assert_eq!(request.text, embedding.document);
        assert_eq!(embedding.vec, i);
    }
}

#[test]
fn api_value_types() {
    let blob = Blob { data: "aGVsbG8=".to_string(), mime_type: "image/png".to_string() };
    assert_eq!(blob.clone(), blob);
    let file = FileData { file_uri: "gs://bucket/a".to_string(), mime_type: "text/plain".to_string() };
    assert_eq!(file.mime_type, "text/plain");
    assert_ne!(TaskType::RetrievalQuery, TaskType::RetrievalDocument);
    assert_eq!(TaskType::Clustering, TaskType::Clustering);
}
