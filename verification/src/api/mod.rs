//! The stateless client: one request per endpoint of the service, and the
//! reading of what the service answers.

pub mod experiments;
pub mod run_data;
pub mod runs;

use crate::errors::{
    ClientError, ClientErrorModel, ErrorCode, GetExperimentErrorCode, QueryFailure,
    QueryFailureModel, SetupError, SetupErrorModel,
};
use crate::json::{json_of_bytes, Json, JsonValue};
use crate::request::{Reply, ReplyModel};
use crate::text::join;
use crate::wire::FromJson;
use vstd::prelude::*;

verus! {

/// Whether a text parses as an absolute URL: whether `Url::parse` takes it.
pub uninterp spec fn url_parses(text: Seq<char>) -> bool;

/// `reqwest::Url::parse`, asked only whether it succeeds. The claim is that
/// whether it does is a function of the text alone, which [`url_parses`]
/// names; what that function is, is not said.
#[verifier::external_body]
fn parses_as_url(text: &str) -> (ok: bool)
    ensures
        ok == url_parses(text@),
{
    reqwest::Url::parse(text).is_ok()
}

/// MLflow API client: the base URI of a tracking server.
#[derive(Debug, Clone, PartialEq, Eq)]
pub struct MLflowAPI {
    uri: String,
}

impl View for MLflowAPI {
    type V = Seq<char>;

    /// The base URI.
    closed spec fn view(&self) -> Seq<char> {
        self.uri@
    }
}

/// The address of an endpoint: the base URI, the path that all endpoints
/// share, and the endpoint's own path.
pub open spec fn endpoint_url(base: Seq<char>, path: Seq<char>) -> Seq<char> {
    base + "/api/2.0/mlflow/"@ + path
}

impl MLflowAPI {
    /// New `MLflowAPI`, validating the `uri`.
    ///
    /// The client is made where the URI parses as an absolute URL, and then
    /// keeps the URI as it was given. Any other URI comes back in the error.
    pub fn new(uri: &str) -> (made: Result<MLflowAPI, SetupError>)
        ensures
            match made {
                Ok(api) => url_parses(uri@) && api@ == uri@,
                Err(error) => !url_parses(uri@) && error.deep_view() == SetupErrorModel::InvalidUrl(
                    uri@,
                ),
            },
    {
        Self::with_verdict(uri, parses_as_url(uri))
    }

    /// The client for `uri`, or the refusal of `uri`, as the verdict on the
    /// URI asks.
    pub fn with_verdict(uri: &str, well_formed: bool) -> (made: Result<MLflowAPI, SetupError>)
        ensures
            match made {
                Ok(api) => well_formed && api@ == uri@,
                Err(error) => !well_formed && error.deep_view() == SetupErrorModel::InvalidUrl(
                    uri@,
                ),
            },
    {
        if well_formed {
            Ok(MLflowAPI { uri: uri.to_owned() })
        } else {
            Err(SetupError::InvalidUrl(uri.to_owned()))
        }
    }

    /// The base URI.
    pub fn uri(&self) -> (uri: &str)
        ensures
            uri@ == self@,
    {
        self.uri.as_str()
    }

    /// The address of the endpoint at `path`.
    pub fn endpoint(&self, path: &str) -> (url: String)
        ensures
            url@ == endpoint_url(self@, path@),
    {
        join(self.uri.as_str(), "/api/2.0/mlflow/").concat(path)
    }
}

/// The refusal that a document spells: an object with two string members,
/// `error_code` and `message`.
pub open spec fn refusal(json: JsonValue) -> Option<(Seq<char>, Seq<char>)> {
    match (json.text_field("error_code"@), json.text_field("message"@)) {
        (Some(code), Some(message)) => Some((code, message)),
        _ => None,
    }
}

/// What a document amounts to for a caller that expects a `T`. A document
/// that spells a refusal is a refusal, whatever else it holds. Any other
/// document is the `T` that it stands for, and a failure where it stands for
/// none.
pub open spec fn document_result<T: FromJson, E: ErrorCode>(json: JsonValue) -> Result<
    T::V,
    ClientErrorModel<E>,
> {
    match refusal(json) {
        Some((code, message)) => Err(
            ClientErrorModel::ApiError { error_code: E::of_name(code), message },
        ),
        None => match T::decoded(json) {
            Some(value) => Ok(value),
            None => Err(ClientErrorModel::QueryError(QueryFailureModel::Shape)),
        },
    }
}

/// What a reply amounts to for a caller that expects a `T`.
pub open spec fn reply_result<T: FromJson, E: ErrorCode>(reply: ReplyModel) -> Result<
    T::V,
    ClientErrorModel<E>,
> {
    match reply {
        ReplyModel::Failed(reason) => Err(
            ClientErrorModel::QueryError(QueryFailureModel::Transport(reason)),
        ),
        ReplyModel::Body(bytes) => match json_of_bytes(bytes) {
            None => Err(ClientErrorModel::QueryError(QueryFailureModel::Syntax)),
            Some(json) => document_result::<T, E>(json),
        },
    }
}

/// The mathematical value of a call's result.
pub open spec fn result_model<T: DeepView, E: ErrorCode>(result: Result<T, ClientError<E>>) -> Result<
    T::V,
    ClientErrorModel<E>,
> {
    match result {
        Ok(value) => Ok(value.deep_view()),
        Err(error) => Err(error.deep_view()),
    }
}

/// A document that spells a refusal is read as that refusal, also where it
/// stands for a `T` as well.
pub proof fn lemma_refusal_comes_first<T: FromJson, E: ErrorCode>(json: JsonValue)
    requires
        refusal(json) is Some,
    ensures
        document_result::<T, E>(json) == Err::<T::V, ClientErrorModel<E>>(
            ClientErrorModel::ApiError {
                error_code: E::of_name(refusal(json).unwrap().0),
                message: refusal(json).unwrap().1,
            },
        ),
{
}

/// A reply is read as a `T` only where the exchange completed, the body is a
/// JSON document, the document spells no refusal, and it stands for that `T`.
pub proof fn lemma_success_is_earned<T: FromJson, E: ErrorCode>(reply: ReplyModel, value: T::V)
    requires
        reply_result::<T, E>(reply) == Ok::<T::V, ClientErrorModel<E>>(value),
    ensures
        reply matches ReplyModel::Body(bytes) && json_of_bytes(bytes) matches Some(json) && refusal(
            json,
        ) is None && T::decoded(json) == Some(value),
{
}

/// What the service answers is what the caller gets: where the exchange
/// completed with a body that spells a document, and the document spells no
/// refusal and stands for a `T`, the reply is read as that `T`, as it was
/// sent.
pub proof fn lemma_answer_is_read_as_sent<T: FromJson, E: ErrorCode>(
    bytes: Seq<u8>,
    json: JsonValue,
    value: T::V,
)
    requires
        json_of_bytes(bytes) == Some(json),
        refusal(json) is None,
        T::decoded(json) == Some(value),
    ensures
        reply_result::<T, E>(ReplyModel::Body(bytes)) == Ok::<T::V, ClientErrorModel<E>>(value),
{
}

/// The answer of an endpoint that has nothing to tell: any object.
#[derive(Debug, Clone, PartialEq, Eq)]
pub struct Nothing {}

impl DeepView for Nothing {
    type V = ();

    open spec fn deep_view(&self) -> () {
        ()
    }
}

impl FromJson for Nothing {
    open spec fn decoded(json: JsonValue) -> Option<()> {
        if json.is_object() {
            Some(())
        } else {
            None
        }
    }

    fn from_json(json: &Json) -> (value: Option<Self>) {
        if json.is_object() {
            Some(Nothing {  })
        } else {
            None
        }
    }
}

/// Reads a document as a refusal or as a `T`.
pub fn read_document<T: FromJson, E: ErrorCode>(json: &Json) -> (result: Result<T, ClientError<E>>)
    ensures
        result_model(result) == document_result::<T, E>(json.deep_view()),
{
    match (json.text_field("error_code"), json.text_field("message")) {
        (Some(code), Some(message)) => Err(
            ClientError::ApiError { error_code: E::from_name(code), message: message.to_owned() },
        ),
        _ => match T::from_json(json) {
            Some(value) => Ok(value),
            None => Err(ClientError::QueryError(QueryFailure::Shape)),
        },
    }
}

/// Reads a reply as a failure, a refusal or a `T`.
pub fn read_reply<T: FromJson, E: ErrorCode>(reply: &Reply) -> (result: Result<T, ClientError<E>>)
    ensures
        result_model(result) == reply_result::<T, E>(reply.deep_view()),
{
    match reply {
        Reply::Failed(reason) => Err(ClientError::QueryError(QueryFailure::Transport(reason.clone()))),
        Reply::Body(bytes) => match Json::parse(bytes.as_slice()) {
            None => Err(ClientError::QueryError(QueryFailure::Syntax)),
            Some(json) => read_document(&json),
        },
    }
}

/// Reads a reply as a failure, a refusal or a `T`, and of a `T` hands on what
/// `extract` takes from it: the part that the caller is after.
pub fn return_field<T: FromJson, E: ErrorCode, U, F: FnOnce(T) -> U>(reply: &Reply, extract: F) -> (result:
    Result<U, ClientError<E>>)
    requires
        forall|value: T| call_requires(extract, (value,)),
    ensures
        match result {
            Ok(field) => exists|value: T|
                reply_result::<T, E>(reply.deep_view()) == Ok::<T::V, ClientErrorModel<E>>(
                    value.deep_view(),
                ) && call_ensures(extract, (value,), field),
            Err(error) => reply_result::<T, E>(reply.deep_view()) == Err::<
                T::V,
                ClientErrorModel<E>,
            >(error.deep_view()),
        },
{
    match read_reply::<T, E>(reply) {
        Ok(value) => Ok(extract(value)),
        Err(error) => Err(error),
    }
}

impl MLflowAPI {
    /// Reads the reply of an endpoint that has nothing to tell but whether
    /// it did what it was asked.
    pub fn read_done(reply: &Reply) -> (result: Result<(), ClientError<GetExperimentErrorCode>>)
        ensures
            result_model(result) == reply_result::<Nothing, GetExperimentErrorCode>(
                reply.deep_view(),
            ),
    {
        return_field::<Nothing, GetExperimentErrorCode, (), _>(reply, |nothing: Nothing| ())
    }
}

} // verus!
