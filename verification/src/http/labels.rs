//! The label values of a request: where it went, how it is answered and how it
//! ended.

use vstd::prelude::*;
use vstd::string::*;

verus! {

/// The endpoint that a request hit.
#[derive(Clone, Copy, Debug, PartialEq, Eq, Structural)]
pub enum Endpoint {
    /// Completions of the OpenAI API.
    Completions,
    /// Chat completions of the OpenAI API.
    ChatCompletions,
    /// Embeddings of the OpenAI API.
    Embeddings,
    /// Responses of the OpenAI API.
    Responses,
    /// Tensors.
    Tensor,
}

/// How a request is answered.
#[derive(Clone, Copy, Debug, PartialEq, Eq, Structural)]
pub enum RequestType {
    /// One request, one response.
    Unary,
    /// One request, many responses.
    Stream,
}

/// How a request ended.
#[derive(Clone, Copy, Debug, PartialEq, Eq, Structural)]
pub enum Status {
    Success,
    Error,
}

impl Endpoint {
    /// The label value of the endpoint.
    pub open spec fn label(self) -> Seq<char> {
        match self {
            Endpoint::Completions => "completions"@,
            Endpoint::ChatCompletions => "chat_completions"@,
            Endpoint::Embeddings => "embeddings"@,
            Endpoint::Responses => "responses"@,
            Endpoint::Tensor => "tensor"@,
        }
    }

    /// The label value of the endpoint.
    pub fn as_str(&self) -> (r: &'static str)
        ensures
            r@ == self.label(),
    {
        match self {
            Endpoint::Completions => "completions",
            Endpoint::ChatCompletions => "chat_completions",
            Endpoint::Embeddings => "embeddings",
            Endpoint::Responses => "responses",
            Endpoint::Tensor => "tensor",
        }
    }

    /// The endpoint as it is shown to a reader: its label value.
    pub fn display(&self) -> (r: String)
        ensures
            r@ == self.label(),
    {
        self.as_str().to_owned()
    }
}

impl RequestType {
    /// The label value of the request type.
    pub open spec fn label(self) -> Seq<char> {
        match self {
            RequestType::Unary => "unary"@,
            RequestType::Stream => "stream"@,
        }
    }

    /// The label value of the request type.
    pub fn as_str(&self) -> (r: &'static str)
        ensures
            r@ == self.label(),
    {
        match self {
            RequestType::Unary => "unary",
            RequestType::Stream => "stream",
        }
    }
}

impl Status {
    /// The label value of the status.
    pub open spec fn label(self) -> Seq<char> {
        match self {
            Status::Success => "success"@,
            Status::Error => "error"@,
        }
    }

    /// The label value of the status.
    pub fn as_str(&self) -> (r: &'static str)
        ensures
            r@ == self.label(),
    {
        match self {
            Status::Success => "success",
            Status::Error => "error",
        }
    }
}

/// Different endpoints have different label values.
pub proof fn endpoint_labels_differ(a: Endpoint, b: Endpoint)
    ensures
        a.label() == b.label() ==> a == b,
{
    reveal_strlit("completions");
    reveal_strlit("chat_completions");
    reveal_strlit("embeddings");
    reveal_strlit("responses");
    reveal_strlit("tensor");
    if a.label() == b.label() {
        assert(a.label()[0] == b.label()[0]);
        assert(a.label().len() == b.label().len());
        assert(a.label()[1] == b.label()[1]);
    }
}

/// Different request types have different label values.
pub proof fn request_type_labels_differ(a: RequestType, b: RequestType)
    ensures
        a.label() == b.label() ==> a == b,
{
    reveal_strlit("unary");
    reveal_strlit("stream");
    assert(a.label().len() == b.label().len() ==> a == b);
}

/// Different statuses have different label values.
pub proof fn status_labels_differ(a: Status, b: Status)
    ensures
        a.label() == b.label() ==> a == b,
{
    reveal_strlit("success");
    reveal_strlit("error");
    assert(a.label().len() == b.label().len() ==> a == b);
}

/// The label values: the words for the endpoint, the way of answering and the end
/// of a request.
pub proof fn labels_are_their_words(endpoint: Endpoint, request_type: RequestType, status: Status)
    ensures
        endpoint is Completions <==> endpoint.label() == "completions"@,
        endpoint is ChatCompletions <==> endpoint.label() == "chat_completions"@,
        endpoint is Embeddings <==> endpoint.label() == "embeddings"@,
        endpoint is Responses <==> endpoint.label() == "responses"@,
        endpoint is Tensor <==> endpoint.label() == "tensor"@,
        request_type is Unary <==> request_type.label() == "unary"@,
        request_type is Stream <==> request_type.label() == "stream"@,
        status is Success <==> status.label() == "success"@,
        status is Error <==> status.label() == "error"@,
{
    endpoint_labels_differ(endpoint, Endpoint::Completions);
    endpoint_labels_differ(endpoint, Endpoint::ChatCompletions);
    endpoint_labels_differ(endpoint, Endpoint::Embeddings);
    endpoint_labels_differ(endpoint, Endpoint::Responses);
    endpoint_labels_differ(endpoint, Endpoint::Tensor);
    request_type_labels_differ(request_type, RequestType::Unary);
    request_type_labels_differ(request_type, RequestType::Stream);
    status_labels_differ(status, Status::Success);
    status_labels_differ(status, Status::Error);
}

/// Endpoints, request types and ends are written as their labels.
pub proof fn labels_are_written(
    endpoint: &Endpoint,
    request_type: &RequestType,
    status: &Status,
    written: &'static str,
    shown: String,
)
    ensures
        Endpoint::as_str.ensures((endpoint,), written) ==> {
            &&& endpoint is Completions ==> written@ == "completions"@
            &&& endpoint is ChatCompletions ==> written@ == "chat_completions"@
            &&& endpoint is Embeddings ==> written@ == "embeddings"@
            &&& endpoint is Responses ==> written@ == "responses"@
            &&& endpoint is Tensor ==> written@ == "tensor"@
        },
        Endpoint::display.ensures((endpoint,), shown) && Endpoint::as_str.ensures(
            (endpoint,),
            written,
        ) ==> shown@ == written@,
        RequestType::as_str.ensures((request_type,), written) ==> {
            &&& request_type is Unary ==> written@ == "unary"@
            &&& request_type is Stream ==> written@ == "stream"@
        },
        Status::as_str.ensures((status,), written) ==> {
            &&& status is Success ==> written@ == "success"@
            &&& status is Error ==> written@ == "error"@
        },
{
}

} // verus!
