use mlflow_api::json::{Json, JsonNumber};
use mlflow_api::structures::{
    Experiment, ExperimentTag, FileInfo, LifecycleStage, Metric, Param, Run, RunData, RunInfo,
    RunStatus, RunTag, ViewType,
};
use mlflow_api::wire::{
    borrow_all, duplicate_all, list_from_json, row_to_json, FromJson, Replicate, ToJson,
};

fn parsed(text: &str) -> Json {
    Json::parse(text.as_bytes()).unwrap()
}

const RUN_INFO: &str = "{\"run_id\": \"r1\", \"experiment_id\": \"3\", \"status\": \"FINISHED\", \
    \"start_time\": \"514425600000\", \"end_time\": \"514425600001\", \
    \"artifact_uri\": \"s3://bucket/3/r1\", \"lifecycle_stage\": \"active\", \"run_uuid\": \"r1\"}";

fn run_info() -> RunInfo {
    RunInfo {
        run_id: "r1".to_string(),
        experiment_id: "3".to_string(),
        status: RunStatus::Finished,
        start_time: 514425600000,
        end_time: Some(514425600001),
        artifact_uri: "s3://bucket/3/r1".to_string(),
        lifecycle_stage: LifecycleStage::Active,
    }
}

#[test]
fn names_of_stages_and_statuses() {
    assert_eq!(LifecycleStage::from_name("active"), Some(LifecycleStage::Active));
    assert_eq!(LifecycleStage::from_name("deleted"), Some(LifecycleStage::Deleted));
    assert_eq!(LifecycleStage::from_name("ACTIVE"), None);
    assert_eq!(LifecycleStage::from_name(""), None);

    for (status, name) in [
        (RunStatus::Running, "RUNNING"),
        (RunStatus::Scheduled, "SCHEDULED"),
        (RunStatus::Finished, "FINISHED"),
        (RunStatus::Failed, "FAILED"),
        (RunStatus::Killed, "KILLED"),
    ] {
        assert_eq!(status.wire_name(), name);
        assert_eq!(RunStatus::from_name(name), Some(status));
        assert_eq!(status.to_json(), Json::text(name));
        assert_eq!(RunStatus::from_json(&Json::text(name)), Some(status));
    }
    assert_eq!(RunStatus::from_name("running"), None);
    assert_eq!(RunStatus::from_json(&Json::Null), None);
    assert_eq!(LifecycleStage::from_json(&Json::text("deleted")), Some(LifecycleStage::Deleted));
    assert_eq!(LifecycleStage::from_json(&Json::Bool(true)), None);

    assert_eq!(ViewType::ActiveOnly.wire_name(), "ACTIVE_ONLY");
    assert_eq!(ViewType::DeletedOnly.wire_name(), "DELETED_ONLY");
    assert_eq!(ViewType::All.wire_name(), "ALL");
    assert_eq!(ViewType::All.to_json(), Json::text("ALL"));
}

#[test]
fn statuses_that_end_a_run() {
    assert!(!RunStatus::Running.is_terminal());
    assert!(!RunStatus::Scheduled.is_terminal());
    assert!(RunStatus::Finished.is_terminal());
    assert!(RunStatus::Failed.is_terminal());
    assert!(RunStatus::Killed.is_terminal());
}

#[test]
fn reads_tags_and_params() {
    let document = parsed("{\"key\": \"k\", \"value\": \"v\", \"more\": 1}");
    assert_eq!(
        ExperimentTag::from_json(&document),
        Some(ExperimentTag { key: "k".to_string(), value: "v".to_string() })
    );
    assert_eq!(Param::from_json(&document), Some(Param { key: "k".to_string(), value: "v".to_string() }));
    assert_eq!(RunTag::from_json(&document), Some(RunTag { key: "k".to_string(), value: "v".to_string() }));

    assert_eq!(RunTag::from_json(&parsed("{\"key\": \"k\"}")), None);
    assert_eq!(RunTag::from_json(&parsed("{\"key\": \"k\", \"value\": 1}")), None);
    assert_eq!(RunTag::from_json(&parsed("{\"key\": null, \"value\": \"v\"}")), None);
    assert_eq!(Param::from_json(&parsed("[\"k\", \"v\"]")), None);
}

#[test]
fn writes_tags_params_and_metrics() {
    let tag = RunTag { key: "k".to_string(), value: "v".to_string() };
    assert_eq!(tag.to_json().to_text(), "{\"key\":\"k\",\"value\":\"v\"}");
    assert_eq!(RunTag::from_json(&tag.to_json()), Some(tag));

    let param = Param { key: "p".to_string(), value: "".to_string() };
    assert_eq!(param.to_json().to_text(), "{\"key\":\"p\",\"value\":\"\"}");
    assert_eq!(Param::from_json(&param.to_json()), Some(param));

    let metric = Metric {
        key: "loss".to_string(),
        value: JsonNumber::Real("0.125".to_string()),
        timestamp: 10,
        step: 2,
    };
    assert_eq!(
        metric.to_json().to_text(),
        "{\"key\":\"loss\",\"step\":2,\"timestamp\":10,\"value\":0.125}"
    );
    assert_eq!(Metric::from_json(&metric.to_json()), Some(metric));
}

#[test]
fn reads_metrics() {
    assert_eq!(
        Metric::from_json(&parsed("{\"key\": \"m\", \"value\": 0.5, \"timestamp\": 7, \"step\": 3}")),
        Some(Metric { key: "m".to_string(), value: JsonNumber::Real("0.5".to_string()), timestamp: 7, step: 3 })
    );
    assert_eq!(
        Metric::from_json(&parsed("{\"key\": \"m\", \"value\": 2, \"timestamp\": 7}")),
        Some(Metric { key: "m".to_string(), value: JsonNumber::Unsigned(2), timestamp: 7, step: 0 })
    );
    assert_eq!(
        Metric::from_json(&parsed("{\"key\": \"m\", \"value\": -2, \"timestamp\": 7, \"step\": null}")),
        Some(Metric { key: "m".to_string(), value: JsonNumber::Negative(-2), timestamp: 7, step: 0 })
    );
    assert_eq!(Metric::from_json(&parsed("{\"key\": \"m\", \"value\": \"0.5\", \"timestamp\": 7}")), None);
    assert_eq!(Metric::from_json(&parsed("{\"key\": \"m\", \"value\": 0.5, \"timestamp\": \"7\"}")), None);
    assert_eq!(Metric::from_json(&parsed("{\"key\": \"m\", \"value\": 0.5, \"timestamp\": -7}")), None);
    assert_eq!(Metric::from_json(&parsed("{\"key\": \"m\", \"value\": 0.5}")), None);
    assert_eq!(
        Metric::from_json(&parsed("{\"key\": \"m\", \"value\": 0.5, \"timestamp\": 7, \"step\": \"1\"}")),
        None
    );
    assert_eq!(Metric::from_json(&parsed("{\"value\": 0.5, \"timestamp\": 7}")), None);
}

#[test]
fn reads_file_infos() {
    assert_eq!(
        FileInfo::from_json(&parsed("{\"path\": \"a/b\", \"is_dir\": false, \"file_size\": 30}")),
        Some(FileInfo { path: "a/b".to_string(), is_dir: false, file_size: Some(30) })
    );
    assert_eq!(
        FileInfo::from_json(&parsed("{\"path\": \"a\", \"is_dir\": true}")),
        Some(FileInfo { path: "a".to_string(), is_dir: true, file_size: None })
    );
    assert_eq!(FileInfo::from_json(&parsed("{\"path\": \"a\"}")), None);
    assert_eq!(FileInfo::from_json(&parsed("{\"path\": \"a\", \"is_dir\": \"no\"}")), None);
    assert_eq!(
        FileInfo::from_json(&parsed("{\"path\": \"a\", \"is_dir\": false, \"file_size\": \"30\"}")),
        None
    );
}

#[test]
fn reads_experiments() {
    let full = parsed(
        "{\"experiment_id\": \"3\", \"name\": \"n\", \"artifact_location\": \"loc\", \
         \"lifecycle_stage\": \"deleted\", \"last_update_time\": 5, \"creation_time\": 4, \
         \"tags\": [{\"key\": \"k\", \"value\": \"v\"}]}",
    );
    assert_eq!(
        Experiment::from_json(&full),
        Some(Experiment {
            experiment_id: "3".to_string(),
            name: "n".to_string(),
            artifact_location: "loc".to_string(),
            lifecycle_stage: LifecycleStage::Deleted,
            last_update_time: Some(5),
            creation_time: Some(4),
            tags: Some(vec![ExperimentTag { key: "k".to_string(), value: "v".to_string() }]),
        })
    );
    let bare = parsed(
        "{\"experiment_id\": \"3\", \"name\": \"n\", \"artifact_location\": \"loc\", \
         \"lifecycle_stage\": \"active\", \"tags\": null}",
    );
    assert_eq!(
        Experiment::from_json(&bare),
        Some(Experiment {
            experiment_id: "3".to_string(),
            name: "n".to_string(),
            artifact_location: "loc".to_string(),
            lifecycle_stage: LifecycleStage::Active,
            last_update_time: None,
            creation_time: None,
            tags: None,
        })
    );
    for broken in [
        "{\"name\": \"n\", \"artifact_location\": \"loc\", \"lifecycle_stage\": \"active\"}",
        "{\"experiment_id\": 3, \"name\": \"n\", \"artifact_location\": \"loc\", \"lifecycle_stage\": \"active\"}",
        "{\"experiment_id\": \"3\", \"artifact_location\": \"loc\", \"lifecycle_stage\": \"active\"}",
        "{\"experiment_id\": \"3\", \"name\": \"n\", \"lifecycle_stage\": \"active\"}",
        "{\"experiment_id\": \"3\", \"name\": \"n\", \"artifact_location\": \"loc\"}",
        "{\"experiment_id\": \"3\", \"name\": \"n\", \"artifact_location\": \"loc\", \"lifecycle_stage\": \"gone\"}",
        "{\"experiment_id\": \"3\", \"name\": \"n\", \"artifact_location\": \"loc\", \"lifecycle_stage\": \"active\", \"creation_time\": \"4\"}",
        "{\"experiment_id\": \"3\", \"name\": \"n\", \"artifact_location\": \"loc\", \"lifecycle_stage\": \"active\", \"last_update_time\": 1.5}",
        "{\"experiment_id\": \"3\", \"name\": \"n\", \"artifact_location\": \"loc\", \"lifecycle_stage\": \"active\", \"tags\": {}}",
        "{\"experiment_id\": \"3\", \"name\": \"n\", \"artifact_location\": \"loc\", \"lifecycle_stage\": \"active\", \"tags\": [{\"key\": \"k\"}]}",
        "[]",
    ] {
        assert_eq!(Experiment::from_json(&parsed(broken)), None, "{}", broken);
    }
}

#[test]
fn reads_run_infos() {
    assert_eq!(RunInfo::from_json(&parsed(RUN_INFO)), Some(run_info()));

    let running = RUN_INFO.replace("\"end_time\": \"514425600001\", ", "");
    assert_eq!(RunInfo::from_json(&parsed(&running)), Some(RunInfo { end_time: None, ..run_info() }));
    let running = RUN_INFO.replace("\"514425600001\"", "null");
    assert_eq!(RunInfo::from_json(&parsed(&running)), Some(RunInfo { end_time: None, ..run_info() }));

    for (from, to) in [
        ("\"start_time\": \"514425600000\"", "\"start_time\": 514425600000"),
        ("\"start_time\": \"514425600000\"", "\"start_time\": \"yesterday\""),
        ("\"start_time\": \"514425600000\"", "\"start_time\": \"-1\""),
        ("\"start_time\": \"514425600000\", ", ""),
        ("\"end_time\": \"514425600001\"", "\"end_time\": 514425600001"),
        ("\"end_time\": \"514425600001\"", "\"end_time\": \"\""),
        ("\"status\": \"FINISHED\"", "\"status\": \"DONE\""),
        ("\"run_id\": \"r1\", ", ""),
        ("\"experiment_id\": \"3\", ", ""),
        ("\"artifact_uri\": \"s3://bucket/3/r1\", ", ""),
        ("\"lifecycle_stage\": \"active\", ", ""),
    ] {
        let broken = RUN_INFO.replace(from, to);
        assert!(broken != RUN_INFO);
        assert_eq!(RunInfo::from_json(&parsed(&broken)), None, "{}", broken);
    }
}

#[test]
fn reads_run_data_and_runs() {
    assert_eq!(
        RunData::from_json(&parsed("{}")),
        Some(RunData { metrics: vec![], params: vec![], tags: vec![] })
    );
    assert_eq!(
        RunData::from_json(&parsed(
            "{\"tags\": [{\"key\": \"t\", \"value\": \"1\"}], \"params\": [{\"key\": \"p\", \"value\": \"2\"}], \
             \"metrics\": [{\"key\": \"m\", \"value\": 3, \"timestamp\": 4, \"step\": 5}]}"
        )),
        Some(RunData {
            metrics: vec![Metric { key: "m".to_string(), value: JsonNumber::Unsigned(3), timestamp: 4, step: 5 }],
            params: vec![Param { key: "p".to_string(), value: "2".to_string() }],
            tags: vec![RunTag { key: "t".to_string(), value: "1".to_string() }],
        })
    );
    assert_eq!(RunData::from_json(&parsed("[]")), None);
    assert_eq!(RunData::from_json(&parsed("\"data\"")), None);
    assert_eq!(RunData::from_json(&parsed("{\"tags\": null}")), None);
    assert_eq!(RunData::from_json(&parsed("{\"params\": [{\"key\": \"p\"}]}")), None);
    assert_eq!(RunData::from_json(&parsed("{\"metrics\": {}}")), None);

    let with_data = format!("{{\"info\": {}, \"data\": {{}}}}", RUN_INFO);
    assert_eq!(
        Run::from_json(&parsed(&with_data)),
        Some(Run { info: run_info(), data: Some(RunData { metrics: vec![], params: vec![], tags: vec![] }) })
    );
    let without = format!("{{\"info\": {}}}", RUN_INFO);
    assert_eq!(Run::from_json(&parsed(&without)), Some(Run { info: run_info(), data: None }));
    let null_data = format!("{{\"info\": {}, \"data\": null}}", RUN_INFO);
    assert_eq!(Run::from_json(&parsed(&null_data)), Some(Run { info: run_info(), data: None }));
    let bad_data = format!("{{\"info\": {}, \"data\": 5}}", RUN_INFO);
    assert_eq!(Run::from_json(&parsed(&bad_data)), None);
    assert_eq!(Run::from_json(&parsed("{\"data\": {}}")), None);
    assert_eq!(Run::from_json(&parsed("{\"info\": {}}")), None);
}

#[test]
fn reads_and_writes_rows() {
    let items = match parsed("[{\"key\": \"a\", \"value\": \"1\"}, {\"key\": \"b\", \"value\": \"2\"}]") {
        Json::Array(items) => items,
        other => panic!("no array: {:?}", other),
    };
    let tags: Vec<RunTag> = list_from_json(&items).unwrap();
    assert_eq!(
        tags,
        vec![
            RunTag { key: "a".to_string(), value: "1".to_string() },
            RunTag { key: "b".to_string(), value: "2".to_string() },
        ]
    );
    assert_eq!(list_from_json::<RunTag>(&Vec::new()), Some(vec![]));
    let broken = match parsed("[{\"key\": \"a\", \"value\": \"1\"}, {\"key\": \"b\"}]") {
        Json::Array(items) => items,
        other => panic!("no array: {:?}", other),
    };
    assert_eq!(list_from_json::<RunTag>(&broken), None);

    let borrowed = borrow_all(&tags);
    assert_eq!(borrowed, vec![&tags[0], &tags[1]]);
    assert_eq!(row_to_json(Some(borrowed.as_slice())), Some(Json::Array(items)));
    assert_eq!(row_to_json::<RunTag>(Some(&[])), Some(Json::Array(vec![])));
    assert_eq!(row_to_json::<RunTag>(None), None);
    assert_eq!(duplicate_all(borrowed.as_slice()), tags);
    assert_eq!(tags[0].duplicate(), tags[0]);
}
