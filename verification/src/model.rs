use vstd::prelude::*;
use vstd::string::StringExecFns;

verus! {

/// `embedding-001` embedding model
pub const EMBEDDING_001: &'static str = "embedding-001";

/// `text-embedding-004` embedding model
pub const EMBEDDING_004: &'static str = "text-embedding-004";

/// The largest number of documents that one batch may hold.
pub const MAX_DOCUMENTS: usize = 1024;

/// The number of dimensions of an embedding made by the model named `model`:
/// 768 for the two models this library knows, 0 for any other name.
pub open spec fn known_dims(model: Seq<char>) -> usize {
    if model == EMBEDDING_001@ || model == EMBEDDING_004@ {
        768
    } else {
        0
    }
}

/// The resource name under which the service knows the model `model`.
pub open spec fn model_resource(model: Seq<char>) -> Seq<char> {
    "models/"@ + model
}

/// The path to which a batch of embedding requests for the model `model` is posted.
pub open spec fn batch_embed_path_of(model: Seq<char>) -> Seq<char> {
    "/v1beta/models/"@ + model + ":batchEmbedContents"@
}

/// One request of a batch: the model resource it names, the text of its
/// single content part, and the number of output dimensions asked for
/// (none: the service's default).
#[derive(Clone, Debug, PartialEq, Eq)]
pub struct EmbedRequest {
    pub model: String,
    pub text: String,
    pub output_dimensionality: Option<usize>,
}

/// What an [`EmbedRequest`] says, in mathematical terms.
pub struct EmbedRequestView {
    pub model: Seq<char>,
    pub text: Seq<char>,
    pub output_dimensionality: Option<usize>,
}

impl View for EmbedRequest {
    type V = EmbedRequestView;

    open spec fn view(&self) -> EmbedRequestView {
        EmbedRequestView {
            model: self.model@,
            text: self.text@,
            output_dimensionality: self.output_dimensionality,
        }
    }
}

/// The texts of a list of documents.
pub open spec fn texts(documents: Seq<String>) -> Seq<Seq<char>> {
    documents.map_values(|d: String| d@)
}

/// The batch for the documents `docs`, sent to the model `model` with the
/// dimensions `dims`: one request per document, in order.
pub open spec fn requests_for(model: Seq<char>, dims: Option<usize>, docs: Seq<Seq<char>>) -> Seq<
    EmbedRequestView,
> {
    Seq::new(
        docs.len(),
        |i: int|
            EmbedRequestView { model: model_resource(model), text: docs[i], output_dimensionality: dims },
    )
}

/// A Gemini embedding model. `C` is the handle through which requests are
/// sent; the library carries it and never looks inside it.
#[derive(Clone)]
pub struct EmbeddingModel<C> {
    client: C,
    model: String,
    ndims: Option<usize>,
}

impl<C> EmbeddingModel<C> {
    /// The name of the model.
    pub closed spec fn model_name(&self) -> Seq<char> {
        self.model@
    }

    /// The number of dimensions asked of the service, if any.
    pub closed spec fn requested_dims(&self) -> Option<usize> {
        self.ndims
    }

    /// The handle through which requests are sent.
    pub closed spec fn client_handle(&self) -> C {
        self.client
    }

    /// A model named `model` that sends its requests through `client` and
    /// asks the service for `ndims` dimensions (none: the service's default).
    pub fn new(client: C, model: &str, ndims: Option<usize>) -> (res: Self)
        ensures
            res.client_handle() == client,
            res.model_name() == model@,
            res.requested_dims() == ndims,
    {
        Self { client, model: model.to_owned(), ndims }
    }

    /// The handle through which this model's requests are sent.
    pub fn client(&self) -> (client: &C)
        ensures
            *client == self.client_handle(),
    {
        &self.client
    }

    /// The number of dimensions of the embeddings this model makes.
    pub fn ndims(&self) -> (n: usize)
        ensures
            n == known_dims(self.model_name()),
    {
        let first = String::from_str(EMBEDDING_001);
        let fourth = String::from_str(EMBEDDING_004);
        if self.model == first || self.model == fourth {
            768
        } else {
            0
        }
    }

    /// The path to which this model's batches are posted.
    pub fn batch_embed_path(&self) -> (path: String)
        ensures
            path@ == batch_embed_path_of(self.model_name()),
    {
        let mut path = String::from_str("/v1beta/models/");
        path.append(self.model.as_str());
        path.append(":batchEmbedContents");
        path
    }

    /// One request per document, in the documents' order: each names this
    /// model, carries the document as its only text, and asks for this
    /// model's number of dimensions.
    pub fn build_requests(&self, documents: &Vec<String>) -> (requests: Vec<EmbedRequest>)
        ensures
            requests.len() == documents.len(),
            forall|i: int|
                0 <= i < requests.len() ==> (#[trigger] requests[i])@ == requests_for(
                    self.model_name(),
                    self.requested_dims(),
                    texts(documents@),
                )[i],
    {
        let mut requests: Vec<EmbedRequest> = Vec::new();
        let n: usize = documents.len();
        for i in 0..n
            invariant
                n == documents.len(),
                requests.len() == i,
                forall|j: int|
                    0 <= j < i ==> (#[trigger] requests[j])@ == requests_for(
                        self.model_name(),
                        self.requested_dims(),
                        texts(documents@),
                    )[j],
        {
            let mut model = String::from_str("models/");
            model.append(self.model.as_str());
            let text = documents[i].clone();
            requests.push(EmbedRequest { model, text, output_dimensionality: self.ndims });
        }
        requests
    }
}

} // verus!
