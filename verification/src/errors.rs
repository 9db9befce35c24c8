//! Errors: a refused base URL, and the two ways in which a call can fail.

use crate::json::{text_of_json, Json, JsonValue};
use vstd::prelude::*;
use vstd::std_specs::cmp::PartialEqSpecImpl;
use vstd::string::*;

verus! {

/// An error at the creation of the client.
#[derive(Debug, PartialEq, Eq)]
pub enum SetupError {
    /// The URL is invalid.
    InvalidUrl(String),
}

/// The mathematical value of a [`SetupError`].
pub ghost enum SetupErrorModel {
    InvalidUrl(Seq<char>),
}

impl DeepView for SetupError {
    type V = SetupErrorModel;

    open spec fn deep_view(&self) -> SetupErrorModel {
        match self {
            SetupError::InvalidUrl(url) => SetupErrorModel::InvalidUrl(url@),
        }
    }
}

impl SetupError {
    /// The error in words.
    pub fn to_text(&self) -> (text: String)
        ensures
            self.deep_view() matches SetupErrorModel::InvalidUrl(url) && text@ == "Invalid URL: '"@
                + url + "'"@,
    {
        match self {
            SetupError::InvalidUrl(url) => {
                "Invalid URL: '".to_owned().concat(url.as_str()).concat("'")
            },
        }
    }
}

/// The codes with which the service refuses calls of one family of endpoints.
///
/// A code travels as a name. Every such set of codes has a member for the
/// names that it does not know, so that any name stands for some code.
pub trait ErrorCode: Sized {
    /// The code that a name stands for.
    spec fn of_name(name: Seq<char>) -> Self;

    /// The name under which the code travels.
    spec fn name(&self) -> Seq<char>;

    /// The code that a name stands for.
    fn from_name(name: &str) -> (code: Self)
        ensures
            code == Self::of_name(name@),
    ;

    /// The name under which the code travels.
    fn wire_name(&self) -> (name: &'static str)
        ensures
            name@ == self.name(),
    ;

    /// A code's own name stands for that code.
    proof fn lemma_name_stands_for_code(code: Self)
        ensures
            Self::of_name(code.name()) == code,
    ;
}

/// An error that can happen when getting an `Experiment`.
#[derive(Debug, Clone, Copy, PartialEq, Eq)]
pub enum GetExperimentErrorCode {
    /// An experiment with the requested ID could not be found.
    ResourceDoesNotExist,
    /// An internal error, more information in the associated message.
    InternalError,
    /// A parameter has an invalid value.
    InvalidParameterValue,
    /// Unknown error.
    UnknownError,
}

impl ErrorCode for GetExperimentErrorCode {
    open spec fn of_name(name: Seq<char>) -> Self {
        if name == "RESOURCE_DOES_NOT_EXIST"@ {
            GetExperimentErrorCode::ResourceDoesNotExist
        } else if name == "INTERNAL_ERROR"@ {
            GetExperimentErrorCode::InternalError
        } else if name == "INVALID_PARAMETER_VALUE"@ {
            GetExperimentErrorCode::InvalidParameterValue
        } else {
            GetExperimentErrorCode::UnknownError
        }
    }

    open spec fn name(&self) -> Seq<char> {
        match self {
            GetExperimentErrorCode::ResourceDoesNotExist => "RESOURCE_DOES_NOT_EXIST"@,
            GetExperimentErrorCode::InternalError => "INTERNAL_ERROR"@,
            GetExperimentErrorCode::InvalidParameterValue => "INVALID_PARAMETER_VALUE"@,
            GetExperimentErrorCode::UnknownError => "UNKNOWN_ERROR"@,
        }
    }

    fn from_name(name: &str) -> (code: Self) {
        if name.eq("RESOURCE_DOES_NOT_EXIST") {
            GetExperimentErrorCode::ResourceDoesNotExist
        } else if name.eq("INTERNAL_ERROR") {
            GetExperimentErrorCode::InternalError
        } else if name.eq("INVALID_PARAMETER_VALUE") {
            GetExperimentErrorCode::InvalidParameterValue
        } else {
            GetExperimentErrorCode::UnknownError
        }
    }

    fn wire_name(&self) -> (name: &'static str) {
        match self {
            GetExperimentErrorCode::ResourceDoesNotExist => "RESOURCE_DOES_NOT_EXIST",
            GetExperimentErrorCode::InternalError => "INTERNAL_ERROR",
            GetExperimentErrorCode::InvalidParameterValue => "INVALID_PARAMETER_VALUE",
            GetExperimentErrorCode::UnknownError => "UNKNOWN_ERROR",
        }
    }

    proof fn lemma_name_stands_for_code(code: Self) {
        reveal_strlit("RESOURCE_DOES_NOT_EXIST");
        reveal_strlit("INTERNAL_ERROR");
        reveal_strlit("INVALID_PARAMETER_VALUE");
        reveal_strlit("UNKNOWN_ERROR");
        assert("RESOURCE_DOES_NOT_EXIST"@.len() == 23);
        assert("INTERNAL_ERROR"@.len() == 14);
        assert("INVALID_PARAMETER_VALUE"@.len() == 23);
        assert("UNKNOWN_ERROR"@.len() == 13);
        assert("RESOURCE_DOES_NOT_EXIST"@[0] == 'R');
        assert("INVALID_PARAMETER_VALUE"@[0] == 'I');
    }
}

/// An error that can happen during an `Experiment` creation.
#[derive(Debug, Clone, Copy, PartialEq, Eq)]
pub enum CreateExperimentErrorCode {
    /// An experiment with the same name already exists.
    ResourceAlreadyExists,
    /// Unknown error.
    UnknownError,
}

impl ErrorCode for CreateExperimentErrorCode {
    open spec fn of_name(name: Seq<char>) -> Self {
        if name == "RESOURCE_ALREADY_EXISTS"@ {
            CreateExperimentErrorCode::ResourceAlreadyExists
        } else {
            CreateExperimentErrorCode::UnknownError
        }
    }

    open spec fn name(&self) -> Seq<char> {
        match self {
            CreateExperimentErrorCode::ResourceAlreadyExists => "RESOURCE_ALREADY_EXISTS"@,
            CreateExperimentErrorCode::UnknownError => "UNKNOWN_ERROR"@,
        }
    }

    fn from_name(name: &str) -> (code: Self) {
        if name.eq("RESOURCE_ALREADY_EXISTS") {
            CreateExperimentErrorCode::ResourceAlreadyExists
        } else {
            CreateExperimentErrorCode::UnknownError
        }
    }

    fn wire_name(&self) -> (name: &'static str) {
        match self {
            CreateExperimentErrorCode::ResourceAlreadyExists => "RESOURCE_ALREADY_EXISTS",
            CreateExperimentErrorCode::UnknownError => "UNKNOWN_ERROR",
        }
    }

    proof fn lemma_name_stands_for_code(code: Self) {
        reveal_strlit("RESOURCE_ALREADY_EXISTS");
        reveal_strlit("UNKNOWN_ERROR");
        assert("RESOURCE_ALREADY_EXISTS"@.len() == 23);
        assert("UNKNOWN_ERROR"@.len() == 13);
    }
}

/// An error that can happen when listing `Experiment`s.
#[derive(Debug, Clone, Copy, PartialEq, Eq)]
pub enum ListExperimentsErrorCode {
    /// Unknown error.
    UnknownError,
}

impl ErrorCode for ListExperimentsErrorCode {
    open spec fn of_name(name: Seq<char>) -> Self {
        ListExperimentsErrorCode::UnknownError
    }

    open spec fn name(&self) -> Seq<char> {
        "UNKNOWN_ERROR"@
    }

    fn from_name(name: &str) -> (code: Self) {
        ListExperimentsErrorCode::UnknownError
    }

    fn wire_name(&self) -> (name: &'static str) {
        "UNKNOWN_ERROR"
    }

    proof fn lemma_name_stands_for_code(code: Self) {
    }
}

/// Why an exchange brought neither a result nor a refusal.
#[derive(Debug, Clone)]
pub enum QueryFailure {
    /// The exchange did not complete; the text says why.
    Transport(String),
    /// The body is no JSON document.
    Syntax,
    /// The body is a JSON document, but neither a refusal nor of the shape
    /// that the endpoint answers with.
    Shape,
}

/// The mathematical value of a [`QueryFailure`].
pub ghost enum QueryFailureModel {
    Transport(Seq<char>),
    Syntax,
    Shape,
}

impl DeepView for QueryFailure {
    type V = QueryFailureModel;

    open spec fn deep_view(&self) -> QueryFailureModel {
        match self {
            QueryFailure::Transport(reason) => QueryFailureModel::Transport(reason@),
            QueryFailure::Syntax => QueryFailureModel::Syntax,
            QueryFailure::Shape => QueryFailureModel::Shape,
        }
    }
}

impl PartialEq for QueryFailure {
    /// Two failures are equal where they are of one kind and, for an exchange
    /// that did not complete, give the same reason.
    fn eq(&self, other: &QueryFailure) -> (same: bool) {
        match (self, other) {
            (QueryFailure::Transport(reason), QueryFailure::Transport(other_reason)) => {
                reason.as_str().eq(other_reason.as_str())
            },
            (QueryFailure::Syntax, QueryFailure::Syntax) => true,
            (QueryFailure::Shape, QueryFailure::Shape) => true,
            _ => false,
        }
    }
}

impl PartialEqSpecImpl for QueryFailure {
    open spec fn obeys_eq_spec() -> bool {
        true
    }

    open spec fn eq_spec(&self, other: &QueryFailure) -> bool {
        self.deep_view() == other.deep_view()
    }
}

impl QueryFailureModel {
    /// The failure in words.
    pub open spec fn text(self) -> Seq<char> {
        match self {
            QueryFailureModel::Transport(reason) => reason,
            QueryFailureModel::Syntax => "the response body is not JSON"@,
            QueryFailureModel::Shape => "the response body has an unexpected shape"@,
        }
    }
}

impl QueryFailure {
    /// The failure in words.
    pub fn to_text(&self) -> (text: String)
        ensures
            text@ == self.deep_view().text(),
    {
        match self {
            QueryFailure::Transport(reason) => reason.clone(),
            QueryFailure::Syntax => "the response body is not JSON".to_owned(),
            QueryFailure::Shape => "the response body has an unexpected shape".to_owned(),
        }
    }
}

/// An error that happened when calling the API.
#[derive(Debug)]
pub enum ClientError<E: ErrorCode> {
    /// The service refused the call.
    ApiError {
        /// The error code.
        error_code: E,
        /// The error message.
        message: String,
    },
    /// The exchange failed.
    QueryError(QueryFailure),
}

/// The mathematical value of a [`ClientError`].
pub ghost enum ClientErrorModel<E> {
    ApiError { error_code: E, message: Seq<char> },
    QueryError(QueryFailureModel),
}

impl<E: ErrorCode> DeepView for ClientError<E> {
    type V = ClientErrorModel<E>;

    open spec fn deep_view(&self) -> ClientErrorModel<E> {
        match self {
            ClientError::ApiError { error_code, message } => ClientErrorModel::ApiError {
                error_code: *error_code,
                message: message@,
            },
            ClientError::QueryError(failure) => ClientErrorModel::QueryError(failure.deep_view()),
        }
    }
}

impl<E: ErrorCode> PartialEq for ClientError<E> {
    /// Two refusals are equal where their codes and their messages are; two
    /// failures where they are the same failure; a refusal and a failure
    /// never.
    fn eq(&self, other: &ClientError<E>) -> (same: bool) {
        match (self, other) {
            (
                ClientError::ApiError { error_code, message },
                ClientError::ApiError { error_code: other_code, message: other_message },
            ) => {
                proof {
                    E::lemma_name_stands_for_code(*error_code);
                    E::lemma_name_stands_for_code(*other_code);
                }
                error_code.wire_name().eq(other_code.wire_name()) && message.as_str().eq(
                    other_message.as_str(),
                )
            },
            (ClientError::QueryError(failure), ClientError::QueryError(other_failure)) => {
                failure.eq(other_failure)
            },
            _ => false,
        }
    }
}

impl<E: ErrorCode> PartialEqSpecImpl for ClientError<E> {
    open spec fn obeys_eq_spec() -> bool {
        true
    }

    open spec fn eq_spec(&self, other: &ClientError<E>) -> bool {
        self.deep_view() == other.deep_view()
    }
}

/// Two refusals are equal exactly where their codes are the same and their
/// messages are the same text.
pub proof fn lemma_refusals_equal_by_code_and_message<E: ErrorCode>(
    code: E,
    message: String,
    other_code: E,
    other_message: String,
)
    ensures
        vstd::std_specs::cmp::PartialEqSpec::eq_spec(
            &(ClientError::ApiError { error_code: code, message }),
            &(ClientError::ApiError { error_code: other_code, message: other_message }),
        ) <==> code == other_code && message@ == other_message@,
{
}

/// A refusal and a failure are never equal.
pub proof fn lemma_refusal_is_no_failure<E: ErrorCode>(
    code: E,
    message: String,
    failure: QueryFailure,
)
    ensures
        !vstd::std_specs::cmp::PartialEqSpec::eq_spec(
            &(ClientError::ApiError { error_code: code, message }),
            &ClientError::QueryError(failure),
        ),
        !vstd::std_specs::cmp::PartialEqSpec::eq_spec(
            &ClientError::<E>::QueryError(failure),
            &(ClientError::ApiError { error_code: code, message }),
        ),
{
}

impl<E: ErrorCode> ClientErrorModel<E> {
    /// The error in words: a refusal as its code's name, written as a JSON
    /// string, then a colon and the message; a failure as its own words.
    pub open spec fn text(self) -> Seq<char> {
        match self {
            ClientErrorModel::ApiError { error_code, message } => text_of_json(
                JsonValue::Text(error_code.name()),
            ) + ": "@ + message,
            ClientErrorModel::QueryError(failure) => failure.text(),
        }
    }
}

impl<E: ErrorCode> ClientError<E> {
    /// The error in words.
    pub fn to_text(&self) -> (text: String)
        ensures
            text@ == self.deep_view().text(),
    {
        match self {
            ClientError::ApiError { error_code, message } => {
                let code = Json::Text(error_code.wire_name().to_owned());
                code.to_text().concat(": ").concat(message.as_str())
            },
            ClientError::QueryError(failure) => failure.to_text(),
        }
    }
}

} // verus!
