use vstd::prelude::*;

verus! {

/// The error the service answers with.
#[derive(Clone, Debug, PartialEq, Eq)]
pub struct ApiErrorResponse {
    pub message: String,
}

/// The service's answer: the payload `T`, or an error.
#[derive(Clone, Debug, PartialEq, Eq)]
pub enum ApiResponse<T> {
    Success(T),
    Failure(ApiErrorResponse),
}

/// A document together with its embedding `E`.
#[derive(Clone, Debug, PartialEq, Eq)]
pub struct Embedding<E> {
    pub document: String,
    pub vec: E,
}

impl<E> View for Embedding<E> {
    type V = (Seq<char>, E);

    open spec fn view(&self) -> (Seq<char>, E) {
        (self.document@, self.vec)
    }
}

/// Why a batch of documents got no embeddings.
#[derive(Clone, Debug, PartialEq, Eq)]
pub enum EmbeddingError {
    /// The request could not be sent, or its reply could not be read.
    HttpError(String),
    /// The service answered with an error; its message.
    ProviderError(String),
}

/// The smaller of two lengths.
pub open spec fn min_len(a: nat, b: nat) -> nat {
    if a <= b { a } else { b }
}

/// The documents `docs` paired in order with the vectors `vectors`, as many
/// pairs as the shorter of the two has entries.
pub open spec fn paired<E>(docs: Seq<Seq<char>>, vectors: Seq<E>) -> Seq<(Seq<char>, E)> {
    Seq::new(min_len(docs.len(), vectors.len()), |i: int| (docs[i], vectors[i]))
}

/// The embeddings of a batch: on a successful answer, the documents paired in
/// order with the vectors the service returned, as many pairs as the shorter
/// of the two lists has entries; on an error answer, that error's message.
pub fn embeddings_from_response<E>(
    documents: Vec<String>,
    response: ApiResponse<Vec<E>>,
) -> (res: Result<Vec<Embedding<E>>, EmbeddingError>)
    ensures
        match response {
            ApiResponse::Success(vectors) => res matches Ok(embeddings) && {
                &&& embeddings.len() == paired(crate::model::texts(documents@), vectors@).len()
                &&& forall|i: int|
                    0 <= i < embeddings.len() ==> (#[trigger] embeddings[i])@ == paired(
                        crate::model::texts(documents@),
                        vectors@,
                    )[i]
            },
            ApiResponse::Failure(err) => res matches Err(EmbeddingError::ProviderError(m))
                && m@ == err.message@,
        },
{
    match response {
        ApiResponse::Success(vectors) => Ok(pair_in_order(documents, vectors)),
        ApiResponse::Failure(err) => Err(EmbeddingError::ProviderError(err.message)),
    }
}

/// Pairs `documents[i]` with `vectors[i]` for every index both lists have.
fn pair_in_order<E>(documents: Vec<String>, vectors: Vec<E>) -> (pairs: Vec<Embedding<E>>)
    ensures
        pairs.len() == paired(crate::model::texts(documents@), vectors@).len(),
        forall|i: int|
            0 <= i < pairs.len() ==> (#[trigger] pairs[i])@ == paired(
                crate::model::texts(documents@),
                vectors@,
            )[i],
{
    let ghost docs_in = documents@;
    let ghost vecs_in = vectors@;
    let n: usize = if documents.len() <= vectors.len() { documents.len() } else { vectors.len() };
    let mut docs = documents;
    let mut vecs = vectors;
    docs.truncate(n);
    vecs.truncate(n);
    let ghost docs0 = docs@;
    let ghost vecs0 = vecs@;
    // Taken from the back, so that each step moves its items out.
    let mut reversed: Vec<Embedding<E>> = Vec::new();
    let mut k: usize = n;
    while k > 0
        invariant
            k <= n,
            docs0.len() == n,
            vecs0.len() == n,
            docs@ == docs0.subrange(0, k as int),
            vecs@ == vecs0.subrange(0, k as int),
            reversed.len() == n - k,
            forall|j: int|
                0 <= j < n - k ==> {
                    &&& (#[trigger] reversed[j]).document == docs0[n - 1 - j]
                    &&& reversed[j].vec == vecs0[n - 1 - j]
                },
        decreases k,
    {
        let document = docs.pop().unwrap();
        let vec = vecs.pop().unwrap();
        reversed.push(Embedding { document, vec });
        k = k - 1;
    }
    let mut pairs: Vec<Embedding<E>> = Vec::new();
    let mut m: usize = 0;
    while m < n
        invariant
            m <= n,
            reversed.len() == n - m,
            pairs.len() == m,
            forall|j: int|
                0 <= j < n - m ==> {
                    &&& (#[trigger] reversed[j]).document == docs0[n - 1 - j]
                    &&& reversed[j].vec == vecs0[n - 1 - j]
                },
            forall|j: int|
                0 <= j < m ==> {
                    &&& (#[trigger] pairs[j]).document == docs0[j]
                    &&& pairs[j].vec == vecs0[j]
                },
        decreases n - m,
    {
        let e = reversed.pop().unwrap();
        pairs.push(e);
        m = m + 1;
    }
    pairs
}

} // verus!
