use mlflow_api::api::experiments::{CreatedExperiment, FoundExperiment};
use mlflow_api::api::{read_document, read_reply, return_field, MLflowAPI, Nothing};
use mlflow_api::client::{read_last, Ambient, Expect, Outcome};
use mlflow_api::errors::{
    ClientError, CreateExperimentErrorCode, ErrorCode, GetExperimentErrorCode,
    ListExperimentsErrorCode, QueryFailure, SetupError,
};
use mlflow_api::json::Json;
use mlflow_api::request::Reply;

fn body(text: &str) -> Reply {
    Reply::Body(text.as_bytes().to_vec())
}

fn refused<E: ErrorCode>(error_code: E, message: &str) -> ClientError<E> {
    ClientError::ApiError { error_code, message: message.to_string() }
}

#[test]
fn names_of_error_codes() {
    assert_eq!(
        GetExperimentErrorCode::from_name("RESOURCE_DOES_NOT_EXIST"),
        GetExperimentErrorCode::ResourceDoesNotExist
    );
    assert_eq!(GetExperimentErrorCode::from_name("INTERNAL_ERROR"), GetExperimentErrorCode::InternalError);
    assert_eq!(
        GetExperimentErrorCode::from_name("INVALID_PARAMETER_VALUE"),
        GetExperimentErrorCode::InvalidParameterValue
    );
    assert_eq!(GetExperimentErrorCode::from_name("UNKNOWN_ERROR"), GetExperimentErrorCode::UnknownError);
    assert_eq!(GetExperimentErrorCode::from_name("RESOURCE_ALREADY_EXISTS"), GetExperimentErrorCode::UnknownError);
    assert_eq!(GetExperimentErrorCode::from_name("internal_error"), GetExperimentErrorCode::UnknownError);
    assert_eq!(GetExperimentErrorCode::from_name(""), GetExperimentErrorCode::UnknownError);
    assert_eq!(
        CreateExperimentErrorCode::from_name("RESOURCE_ALREADY_EXISTS"),
        CreateExperimentErrorCode::ResourceAlreadyExists
    );
    assert_eq!(
        CreateExperimentErrorCode::from_name("RESOURCE_DOES_NOT_EXIST"),
        CreateExperimentErrorCode::UnknownError
    );
    assert_eq!(ListExperimentsErrorCode::from_name("INTERNAL_ERROR"), ListExperimentsErrorCode::UnknownError);

    for code in [
        GetExperimentErrorCode::ResourceDoesNotExist,
        GetExperimentErrorCode::InternalError,
        GetExperimentErrorCode::InvalidParameterValue,
        GetExperimentErrorCode::UnknownError,
    ] {
        assert_eq!(GetExperimentErrorCode::from_name(code.wire_name()), code);
    }
    for code in [CreateExperimentErrorCode::ResourceAlreadyExists, CreateExperimentErrorCode::UnknownError] {
        assert_eq!(CreateExperimentErrorCode::from_name(code.wire_name()), code);
    }
    assert_eq!(ListExperimentsErrorCode::UnknownError.wire_name(), "UNKNOWN_ERROR");
}

#[test]
fn errors_in_words() {
    assert_eq!(SetupError::InvalidUrl("not-a-url".to_string()).to_text(), "Invalid URL: 'not-a-url'");
    assert_eq!(
        refused(GetExperimentErrorCode::ResourceDoesNotExist, "Could not find it").to_text(),
        "\"RESOURCE_DOES_NOT_EXIST\": Could not find it"
    );
    assert_eq!(refused(CreateExperimentErrorCode::UnknownError, "").to_text(), "\"UNKNOWN_ERROR\": ");
    let failed: ClientError<ListExperimentsErrorCode> =
        ClientError::QueryError(QueryFailure::Transport("connection refused".to_string()));
    assert_eq!(failed.to_text(), "connection refused");
    assert_eq!(QueryFailure::Syntax.to_text(), "the response body is not JSON");
    assert_eq!(QueryFailure::Shape.to_text(), "the response body has an unexpected shape");
}

#[test]
fn a_failed_exchange_is_a_query_error() {
    let reply = Reply::Failed("error sending request for url (http://ghghghgh/)".to_string());
    assert_eq!(
        MLflowAPI::read_done(&reply),
        Err(ClientError::QueryError(QueryFailure::Transport(
            "error sending request for url (http://ghghghgh/)".to_string()
        )))
    );
    assert!(MLflowAPI::read_experiment(&reply).is_err());
    assert!(MLflowAPI::read_experiment_id(&reply).is_err());
    assert!(MLflowAPI::read_experiments(&reply).is_err());
    assert!(MLflowAPI::read_run(&reply).is_err());
    assert!(MLflowAPI::read_run_info(&reply).is_err());
    assert!(MLflowAPI::read_runs(&reply).is_err());
    assert!(MLflowAPI::read_metrics(&reply).is_err());
    assert!(MLflowAPI::read_artifacts(&reply).is_err());
}

#[test]
fn a_body_that_is_no_json_is_a_query_error() {
    for text in ["", "<html>502 Bad Gateway</html>", "{\"experiment_id\": \"1\"", "{} {}"] {
        assert_eq!(
            MLflowAPI::read_experiment_id(&body(text)),
            Err(ClientError::QueryError(QueryFailure::Syntax)),
            "{}",
            text
        );
    }
    assert_eq!(
        MLflowAPI::read_done(&Reply::Body(vec![0xff, 0xfe])),
        Err(ClientError::QueryError(QueryFailure::Syntax))
    );
}

#[test]
fn a_refusal_is_read_before_anything_else() {
    let both = body("{\"experiment_id\": \"1\", \"error_code\": \"RESOURCE_ALREADY_EXISTS\", \"message\": \"taken\"}");
    assert_eq!(
        MLflowAPI::read_experiment_id(&both),
        Err(refused(CreateExperimentErrorCode::ResourceAlreadyExists, "taken"))
    );
    assert_eq!(MLflowAPI::read_done(&both), Err(refused(GetExperimentErrorCode::UnknownError, "taken")));

    let unknown = body("{\"error_code\": \"TEMPORARILY_UNAVAILABLE\", \"message\": \"later\"}");
    assert_eq!(MLflowAPI::read_done(&unknown), Err(refused(GetExperimentErrorCode::UnknownError, "later")));
    assert_eq!(
        MLflowAPI::read_experiments(&unknown),
        Err(refused(ListExperimentsErrorCode::UnknownError, "later"))
    );
    let internal = body("{\"message\": \"boom\", \"error_code\": \"INTERNAL_ERROR\", \"stack\": []}");
    assert_eq!(MLflowAPI::read_run(&internal), Err(refused(GetExperimentErrorCode::InternalError, "boom")));
}

#[test]
fn half_a_refusal_is_no_refusal() {
    assert_eq!(
        MLflowAPI::read_experiment_id(&body("{\"experiment_id\": \"1\", \"error_code\": \"X\"}")),
        Ok("1".to_string())
    );
    assert_eq!(
        MLflowAPI::read_experiment_id(&body("{\"experiment_id\": \"1\", \"message\": \"hello\"}")),
        Ok("1".to_string())
    );
    assert_eq!(
        MLflowAPI::read_experiment_id(&body("{\"experiment_id\": \"1\", \"error_code\": 404, \"message\": \"m\"}")),
        Ok("1".to_string())
    );
    assert_eq!(
        MLflowAPI::read_experiment_id(&body("{\"experiment_id\": \"1\", \"error_code\": \"X\", \"message\": null}")),
        Ok("1".to_string())
    );
    assert_eq!(MLflowAPI::read_done(&body("{\"error_code\": \"X\"}")), Ok(()));
    assert_eq!(
        MLflowAPI::read_experiment_id(&body("{\"error_code\": \"X\"}")),
        Err(ClientError::QueryError(QueryFailure::Shape))
    );
}

#[test]
fn a_document_of_another_shape_is_a_query_error() {
    let shape = Err(ClientError::QueryError(QueryFailure::Shape));
    assert_eq!(MLflowAPI::read_experiment_id(&body("{}")), shape);
    assert_eq!(MLflowAPI::read_experiment_id(&body("{\"experiment_id\": 1}")), shape);
    assert_eq!(MLflowAPI::read_experiment_id(&body("\"1\"")), shape);
    assert_eq!(MLflowAPI::read_done(&body("[]")), Err(ClientError::QueryError(QueryFailure::Shape)));
    assert_eq!(MLflowAPI::read_done(&body("null")), Err(ClientError::QueryError(QueryFailure::Shape)));
    assert_eq!(MLflowAPI::read_experiments(&body("{}")), Err(ClientError::QueryError(QueryFailure::Shape)));
    assert_eq!(
        MLflowAPI::read_experiments(&body("{\"experiments\": {}}")),
        Err(ClientError::QueryError(QueryFailure::Shape))
    );
    assert_eq!(MLflowAPI::read_experiment(&body("{}")), Err(ClientError::QueryError(QueryFailure::Shape)));
    assert_eq!(MLflowAPI::read_run(&body("{\"run\": {}}")), Err(ClientError::QueryError(QueryFailure::Shape)));
    assert_eq!(MLflowAPI::read_run_info(&body("{}")), Err(ClientError::QueryError(QueryFailure::Shape)));
    assert_eq!(MLflowAPI::read_metrics(&body("{}")), Err(ClientError::QueryError(QueryFailure::Shape)));
    assert_eq!(MLflowAPI::read_artifacts(&body("{}")), Err(ClientError::QueryError(QueryFailure::Shape)));
    assert_eq!(
        MLflowAPI::read_runs(&body("{\"runs\": [], \"next_page_token\": 5}")),
        Err(ClientError::QueryError(QueryFailure::Shape))
    );
}

#[test]
fn answers_are_read_as_what_they_hold() {
    assert_eq!(MLflowAPI::read_done(&body("{}")), Ok(()));
    assert_eq!(MLflowAPI::read_done(&body("{\"anything\": 1}")), Ok(()));
    assert_eq!(MLflowAPI::read_experiments(&body("{\"experiments\": []}")), Ok(vec![]));
    assert_eq!(MLflowAPI::read_metrics(&body("{\"metrics\": []}")), Ok(vec![]));
    assert_eq!(
        MLflowAPI::read_artifacts(&body("{\"root_uri\": \"s3://b\"}")),
        Ok(("s3://b".to_string(), vec![]))
    );
    assert_eq!(MLflowAPI::read_runs(&body("{\"runs\": []}")), Ok((vec![], None)));
    assert_eq!(
        MLflowAPI::read_runs(&body("{\"runs\": [], \"next_page_token\": \"next\"}")),
        Ok((vec![], Some("next".to_string())))
    );
}

#[test]
fn documents_and_replies_are_read_alike() {
    let document = Json::parse(b"{\"experiment_id\": \"9\"}").unwrap();
    let read: Result<CreatedExperiment, ClientError<CreateExperimentErrorCode>> = read_document(&document);
    assert_eq!(read, Ok(CreatedExperiment { experiment_id: "9".to_string() }));
    let read: Result<FoundExperiment, ClientError<GetExperimentErrorCode>> = read_document(&document);
    assert_eq!(read, Err(ClientError::QueryError(QueryFailure::Shape)));
    let read: Result<Nothing, ClientError<GetExperimentErrorCode>> = read_reply(&body("{}"));
    assert_eq!(read, Ok(Nothing {}));

    let length: Result<usize, ClientError<CreateExperimentErrorCode>> =
        return_field(&body("{\"experiment_id\": \"nine\"}"), |created: CreatedExperiment| {
            created.experiment_id.len()
        });
    assert_eq!(length, Ok(4));
    let length: Result<usize, ClientError<CreateExperimentErrorCode>> =
        return_field(&body("{\"error_code\": \"E\", \"message\": \"m\"}"), |created: CreatedExperiment| {
            created.experiment_id.len()
        });
    assert_eq!(length, Err(refused(CreateExperimentErrorCode::UnknownError, "m")));
}

#[test]
fn the_last_reply_of_an_operation() {
    let down = Reply::Failed("down".to_string());
    let refusal = body("{\"error_code\": \"INTERNAL_ERROR\", \"message\": \"m\"}");
    for expect in [
        Expect::Nothing,
        Expect::RunInfo,
        Expect::Run,
        Expect::Runs,
        Expect::ArtifactUri { path: "p".to_string() },
    ] {
        assert_eq!(read_last(expect.clone(), &down), Outcome::Failed);
        assert_eq!(read_last(expect.clone(), &refusal), Outcome::Failed);
        assert_eq!(read_last(expect.clone(), &body("not json")), Outcome::Failed);
        assert_eq!(read_last(expect, &body("[]")), Outcome::Failed);
    }
    assert_eq!(read_last(Expect::Nothing, &body("{}")), Outcome::Done);
    assert_eq!(read_last(Expect::RunInfo, &body("{}")), Outcome::Failed);
    assert_eq!(read_last(Expect::Runs, &body("{\"runs\": []}")), Outcome::Runs(vec![]));
}

#[test]
fn the_user_of_the_surroundings_is_the_one_whoami_names() {
    let ambient = Ambient::observe(5, Some("r".to_string()), None, Some("e".to_string()));
    assert_eq!(ambient.now_ms, 5);
    assert_eq!(ambient.run_id, Some("r".to_string()));
    assert_eq!(ambient.experiment_name, None);
    assert_eq!(ambient.experiment_id, Some("e".to_string()));
    assert_eq!(ambient.user, whoami::username());
}

#[test]
fn errors_are_equal_by_what_they_hold() {
    let a = refused(CreateExperimentErrorCode::ResourceAlreadyExists, "a");
    let b = refused(CreateExperimentErrorCode::ResourceAlreadyExists, "b");
    let a2 = refused(CreateExperimentErrorCode::ResourceAlreadyExists, "a");
    let c = refused(CreateExperimentErrorCode::UnknownError, "a");
    assert!(!a.eq(&b));
    assert!(a.eq(&a2));
    assert!(a == a2);
    assert!(a != b);
    assert!(a != c);

    let syntax: ClientError<CreateExperimentErrorCode> = ClientError::QueryError(QueryFailure::Syntax);
    let shape: ClientError<CreateExperimentErrorCode> = ClientError::QueryError(QueryFailure::Shape);
    let down: ClientError<CreateExperimentErrorCode> =
        ClientError::QueryError(QueryFailure::Transport("down".to_string()));
    let down2: ClientError<CreateExperimentErrorCode> =
        ClientError::QueryError(QueryFailure::Transport("down".to_string()));
    let up: ClientError<CreateExperimentErrorCode> =
        ClientError::QueryError(QueryFailure::Transport("up".to_string()));
    assert!(a != syntax);
    assert!(syntax != a);
    assert!(syntax == ClientError::QueryError(QueryFailure::Syntax));
    assert!(syntax != shape);
    assert!(down == down2);
    assert!(down != up);
    assert!(down != syntax);
    assert!(QueryFailure::Shape == QueryFailure::Shape);
    assert!(QueryFailure::Transport(String::new()) != QueryFailure::Syntax);
}
