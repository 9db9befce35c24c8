use mlflow_api::api::MLflowAPI;
use mlflow_api::client::new_run_tags;
use mlflow_api::json::{Json, JsonNumber};
use mlflow_api::request::{Query, Request, Verb};
use mlflow_api::structures::{Metric, Param, RunStatus, RunTag, ViewType};

fn api() -> MLflowAPI {
    MLflowAPI::new("https://tracking.example.org:5000/base").unwrap()
}

fn posted(request: Request, path: &str, body: &str) {
    assert_eq!(request.verb, Verb::Post);
    assert_eq!(request.url, format!("https://tracking.example.org:5000/base/api/2.0/mlflow/{}", path));
    assert_eq!(request.query, Vec::<(String, String)>::new());
    assert_eq!(request.body.as_deref(), Some(body));
}

fn got(request: Request, path: &str, query: &[(&str, &str)]) {
    assert_eq!(request.verb, Verb::Get);
    assert_eq!(request.url, format!("https://tracking.example.org:5000/base/api/2.0/mlflow/{}", path));
    let expected: Vec<(String, String)> =
        query.iter().map(|(name, value)| (name.to_string(), value.to_string())).collect();
    assert_eq!(request.query, expected);
    assert_eq!(request.body, None);
}

#[test]
fn endpoint_addresses_keep_the_uri_as_given() {
    assert_eq!(api().endpoint("runs/get"), "https://tracking.example.org:5000/base/api/2.0/mlflow/runs/get");
    let slashed = MLflowAPI::new("http://localhost:5000/").unwrap();
    assert_eq!(slashed.uri(), "http://localhost:5000/");
    assert_eq!(slashed.endpoint("x"), "http://localhost:5000//api/2.0/mlflow/x");
}

#[test]
fn the_verdict_decides_what_is_made() {
    assert_eq!(MLflowAPI::with_verdict("anything", true).unwrap().uri(), "anything");
    assert_eq!(
        MLflowAPI::with_verdict("http://fine", false),
        Err(mlflow_api::errors::SetupError::InvalidUrl("http://fine".to_string()))
    );
}

#[test]
fn urls_are_judged_as_absolute_urls() {
    for uri in ["http://localhost:5000", "https://h", "ftp://h/path", "file:///tmp/mlruns", "a:b", "localhost:5000"] {
        assert!(MLflowAPI::new(uri).is_ok(), "{}", uri);
        assert_eq!(MLflowAPI::new(uri).unwrap().uri(), uri);
    }
    for uri in ["", "not-a-url", "http://[::1", "1http://host", "/relative", "http://", "//host", "Missing MLFLOW_TRACKING_URI"] {
        assert_eq!(
            MLflowAPI::new(uri),
            Err(mlflow_api::errors::SetupError::InvalidUrl(uri.to_string())),
            "{}",
            uri
        );
    }
}

#[test]
fn experiment_requests() {
    posted(api().create_experiment("n", None), "experiments/create", "{\"name\":\"n\"}");
    posted(
        api().create_experiment("n", Some("s3://b")),
        "experiments/create",
        "{\"artifact_location\":\"s3://b\",\"name\":\"n\"}",
    );
    got(api().list_experiments(None), "experiments/list", &[]);
    got(api().list_experiments(Some(ViewType::ActiveOnly)), "experiments/list", &[("view_type", "ACTIVE_ONLY")]);
    got(api().list_experiments(Some(ViewType::DeletedOnly)), "experiments/list", &[("view_type", "DELETED_ONLY")]);
    got(api().list_experiments(Some(ViewType::All)), "experiments/list", &[("view_type", "ALL")]);
    got(api().get_experiment("7"), "experiments/get", &[("experiment_id", "7")]);
    got(
        api().get_experiment_by_name("a b&c"),
        "experiments/get-by-name",
        &[("experiment_name", "a b&c")],
    );
    posted(api().delete_experiment("7"), "experiments/delete", "{\"experiment_id\":\"7\"}");
    posted(api().restore_experiment("7"), "experiments/restore", "{\"experiment_id\":\"7\"}");
    posted(
        api().update_experiment("7", "new"),
        "experiments/update",
        "{\"experiment_id\":\"7\",\"new_name\":\"new\"}",
    );
    posted(
        api().set_experiment_tag("7", "k", "v"),
        "experiments/set-experiment-tag",
        "{\"experiment_id\":\"7\",\"key\":\"k\",\"value\":\"v\"}",
    );
}

#[test]
fn run_requests() {
    posted(api().create_run("7", None, None), "runs/create", "{\"experiment_id\":\"7\"}");
    posted(
        api().create_run("7", Some(514425600000), Some(vec![])),
        "runs/create",
        "{\"experiment_id\":\"7\",\"start_time\":514425600000,\"tags\":[]}",
    );
    posted(
        api().create_run("7", Some(0), Some(new_run_tags("ada", Some("first")))),
        "runs/create",
        "{\"experiment_id\":\"7\",\"start_time\":0,\"tags\":[{\"key\":\"mlflow.user\",\"value\":\"ada\"},\
         {\"key\":\"mlflow.runName\",\"value\":\"first\"}]}",
    );
    posted(api().delete_run("r"), "runs/delete", "{\"run_id\":\"r\"}");
    posted(api().restore_run("r"), "runs/restore", "{\"run_id\":\"r\"}");
    got(api().get_run("r"), "runs/get", &[("run_id", "r")]);
    posted(
        api().update_run("r", RunStatus::Running, None),
        "runs/update",
        "{\"run_id\":\"r\",\"status\":\"RUNNING\"}",
    );
    posted(
        api().update_run("r", RunStatus::Failed, Some(u64::MAX)),
        "runs/update",
        "{\"end_time\":18446744073709551615,\"run_id\":\"r\",\"status\":\"FAILED\"}",
    );
    posted(
        api().search_runs(&[], None, None, None, None, None),
        "runs/search",
        "{\"experiment_ids\":[]}",
    );
    posted(
        api().search_runs(
            &["1", "2"],
            Some("params.a = '1'"),
            Some(ViewType::DeletedOnly),
            Some(u32::MAX),
            Some(vec!["a".to_string(), "b DESC".to_string()]),
            Some("token"),
        ),
        "runs/search",
        "{\"experiment_ids\":[\"1\",\"2\"],\"filter\":\"params.a = '1'\",\"max_results\":4294967295,\
         \"order_by\":[\"a\",\"b DESC\"],\"page_token\":\"token\",\"run_view_type\":\"DELETED_ONLY\"}",
    );
    posted(
        api().search_runs(&["1"], None, None, None, Some(vec![]), None),
        "runs/search",
        "{\"experiment_ids\":[\"1\"],\"order_by\":[]}",
    );
}

#[test]
fn run_data_requests() {
    posted(api().set_run_tag("r", "k", "v"), "runs/set-tag", "{\"key\":\"k\",\"run_id\":\"r\",\"value\":\"v\"}");
    posted(api().delete_run_tag("r", "k"), "runs/delete-tag", "{\"key\":\"k\",\"run_id\":\"r\"}");
    posted(
        api().log_metric("r", "m", &JsonNumber::Real("0.1".to_string()), 5, None),
        "runs/log-metric",
        "{\"key\":\"m\",\"run_id\":\"r\",\"timestamp\":5,\"value\":0.1}",
    );
    posted(
        api().log_metric("r", "m", &JsonNumber::Negative(-3), 5, Some(0)),
        "runs/log-metric",
        "{\"key\":\"m\",\"run_id\":\"r\",\"step\":0,\"timestamp\":5,\"value\":-3}",
    );
    posted(
        api().log_metric("r", "m", &JsonNumber::Real("NaN".to_string()), 5, Some(9)),
        "runs/log-metric",
        "{\"key\":\"m\",\"run_id\":\"r\",\"step\":9,\"timestamp\":5,\"value\":null}",
    );
    got(
        api().get_metric_history("r", "m"),
        "metrics/get-history",
        &[("run_id", "r"), ("metric_key", "m")],
    );
    posted(
        api().log_param("r", "k", "v"),
        "runs/log-parameter",
        "{\"key\":\"k\",\"run_id\":\"r\",\"value\":\"v\"}",
    );
    posted(api().log_batch("r", None, None, None), "runs/log-batch", "{\"run_id\":\"r\"}");
    let metric = Metric { key: "m".to_string(), value: JsonNumber::Unsigned(1), timestamp: 2, step: 3 };
    let first = Param { key: "p".to_string(), value: "1".to_string() };
    let second = Param { key: "q".to_string(), value: "2".to_string() };
    let tag = RunTag { key: "t".to_string(), value: "w".to_string() };
    posted(
        api().log_batch("r", Some(&[&metric]), Some(&[&first, &second]), Some(&[&tag])),
        "runs/log-batch",
        "{\"metrics\":[{\"key\":\"m\",\"step\":3,\"timestamp\":2,\"value\":1}],\
         \"params\":[{\"key\":\"p\",\"value\":\"1\"},{\"key\":\"q\",\"value\":\"2\"}],\
         \"run_id\":\"r\",\"tags\":[{\"key\":\"t\",\"value\":\"w\"}]}",
    );
    posted(api().log_batch("r", Some(&[]), None, None), "runs/log-batch", "{\"metrics\":[],\"run_id\":\"r\"}");
    got(api().list_artifacts("r", None), "artifacts/list", &[("run_id", "r")]);
    got(api().list_artifacts("r", Some("a/b")), "artifacts/list", &[("run_id", "r"), ("path", "a/b")]);
}

#[test]
fn requests_from_their_parts() {
    let mut query = Query::new();
    query.put("a", "1");
    query.put_optional("b", None);
    query.put_optional("c", Some("3"));
    let request = Request::get("u".to_string(), query);
    assert_eq!(
        request,
        Request {
            verb: Verb::Get,
            url: "u".to_string(),
            query: vec![("a".to_string(), "1".to_string()), ("c".to_string(), "3".to_string())],
            body: None,
        }
    );
    assert_eq!(
        Request::post_text("u".to_string(), "raw".to_string()),
        Request { verb: Verb::Post, url: "u".to_string(), query: vec![], body: Some("raw".to_string()) }
    );
    assert_eq!(
        Request::post("u".to_string(), &Json::Array(vec![Json::Null])),
        Request { verb: Verb::Post, url: "u".to_string(), query: vec![], body: Some("[null]".to_string()) }
    );
}

#[test]
fn tags_of_a_new_run() {
    assert_eq!(
        new_run_tags("ada", None),
        vec![RunTag { key: "mlflow.user".to_string(), value: "ada".to_string() }]
    );
    assert_eq!(
        new_run_tags("", Some("")),
        vec![
            RunTag { key: "mlflow.user".to_string(), value: "".to_string() },
            RunTag { key: "mlflow.runName".to_string(), value: "".to_string() },
        ]
    );
}
