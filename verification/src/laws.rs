use vstd::prelude::*;

verus! {

/// The embeddings of a batch follow its requests: the i-th embedding holds
/// the text of the i-th request, there are never more embeddings than
/// requests, and an answer with one vector per request gives every request
/// its embedding.
pub proof fn lemma_embeddings_follow_requests<E>(
    model: Seq<char>,
    dims: Option<usize>,
    docs: Seq<Seq<char>>,
    vectors: Seq<E>,
)
    ensures
        ({
            let requests = crate::model::requests_for(model, dims, docs);
            let embeddings = crate::response::paired(docs, vectors);
            &&& embeddings.len() <= requests.len()
            &&& forall|i: int|
                0 <= i < embeddings.len() ==> (#[trigger] embeddings[i]).0 == requests[i].text
            &&& vectors.len() == docs.len() ==> embeddings.len() == requests.len()
        }),
{
}

/// Each embedding pairs the document at its position with the vector at its
/// position, and a batch yields exactly as many embeddings as the shorter of
/// the documents and the vectors has entries: nothing is reordered, and only
/// trailing entries of the longer list are dropped.
pub proof fn lemma_embedding_i_is_document_i_with_vector_i<E>(docs: Seq<Seq<char>>, vectors: Seq<E>)
    ensures
        ({
            let embeddings = crate::response::paired(docs, vectors);
            &&& embeddings.len() <= docs.len()
            &&& embeddings.len() <= vectors.len()
            &&& embeddings.len() == docs.len() || embeddings.len() == vectors.len()
            &&& forall|i: int|
                0 <= i < embeddings.len() ==> (#[trigger] embeddings[i]).0 == docs[i]
                    && embeddings[i].1 == vectors[i]
        }),
{
}

/// Every request of a batch names the resource `models/` followed by the
/// model's name, carries its own document's text, and asks for exactly the
/// dimensions the model was created with, whatever the model and whatever
/// the dimensions.
pub proof fn lemma_requests_carry_model_text_and_dims(
    model: Seq<char>,
    dims: Option<usize>,
    docs: Seq<Seq<char>>,
)
    ensures
        ({
            let requests = crate::model::requests_for(model, dims, docs);
            &&& requests.len() == docs.len()
            &&& forall|i: int|
                0 <= i < requests.len() ==> {
                    &&& (#[trigger] requests[i]).model == "models/"@ + model
                    &&& requests[i].text == docs[i]
                    &&& requests[i].output_dimensionality == dims
                }
        }),
{
}

/// The batch path holds the model's whole name, unchanged, between
/// `/v1beta/models/` and `:batchEmbedContents`, for names of any length.
pub proof fn lemma_batch_path_holds_whole_model_name(model: Seq<char>)
    ensures
        ({
            let path = crate::model::batch_embed_path_of(model);
            &&& path.len() == 15 + model.len() as int + 19
            &&& path.subrange(0, 15) == "/v1beta/models/"@
            &&& path.subrange(15, 15 + model.len() as int) == model
            &&& path.subrange(15 + model.len() as int, path.len() as int) == ":batchEmbedContents"@
        }),
{
    reveal_strlit("/v1beta/models/");
    reveal_strlit(":batchEmbedContents");
    let path = crate::model::batch_embed_path_of(model);
    assert(path.subrange(0, 15) =~= "/v1beta/models/"@);
    assert(path.subrange(15, 15 + model.len() as int) =~= model);
    assert(path.subrange(15 + model.len() as int, path.len() as int) =~= ":batchEmbedContents"@);
}

/// A model name has 768 dimensions exactly when it is `embedding-001` or
/// `text-embedding-004`; every other name has 0.
pub proof fn lemma_dims_of_exactly_two_names(model: Seq<char>)
    ensures
        crate::model::known_dims(model) == 768 <==> (model == "embedding-001"@ || model
            == "text-embedding-004"@),
        crate::model::known_dims(model) == 0 <==> !(model == "embedding-001"@ || model
            == "text-embedding-004"@),
{
}

} // verus!
