//! The endpoints that deal with what a run holds: tags, parameters, metrics,
//! artifacts.

use crate::api::{endpoint_url, reply_result, result_model, return_field, MLflowAPI};
use crate::errors::{ClientError, GetExperimentErrorCode};
use crate::json::{
    lemma_last_put_is_found, lemma_optional_member_keeps_others, unsigned_value, with_optional,
    Json, JsonNumber, JsonValue, Members, NumberValue,
};
use crate::request::{with_parameter, Query, Reply, Request, RequestModel};
use crate::structures::{Entry, FileInfo, FileInfoModel, Metric, MetricModel, Param, RunTag};
use crate::wire::{list_value, row_to_json, FromJson};
use vstd::prelude::*;

verus! {

/// The answer to a question for a metric's history.
#[derive(Debug, Clone, PartialEq)]
pub struct MetricHistory {
    pub metrics: Vec<Metric>,
}

impl DeepView for MetricHistory {
    type V = Seq<MetricModel>;

    open spec fn deep_view(&self) -> Seq<MetricModel> {
        self.metrics.deep_view()
    }
}

impl FromJson for MetricHistory {
    open spec fn decoded(json: JsonValue) -> Option<Seq<MetricModel>> {
        json.list_field::<Metric>("metrics"@)
    }

    fn from_json(json: &Json) -> (value: Option<Self>) {
        match json.list_field::<Metric>("metrics") {
            Some(metrics) => Some(MetricHistory { metrics }),
            None => None,
        }
    }
}

/// The answer to a listing of artifacts: the root of the run's artifacts,
/// and the files found. An answer that names no files has found none.
#[derive(Debug, Clone, PartialEq, Eq)]
pub struct ArtifactList {
    pub root_uri: String,
    pub files: Vec<FileInfo>,
}

impl DeepView for ArtifactList {
    type V = (Seq<char>, Seq<FileInfoModel>);

    open spec fn deep_view(&self) -> (Seq<char>, Seq<FileInfoModel>) {
        (self.root_uri@, self.files.deep_view())
    }
}

impl FromJson for ArtifactList {
    open spec fn decoded(json: JsonValue) -> Option<(Seq<char>, Seq<FileInfoModel>)> {
        match (json.text_field("root_uri"@), json.list_or_empty::<FileInfo>("files"@)) {
            (Some(root_uri), Some(files)) => Some((root_uri, files)),
            _ => None,
        }
    }

    fn from_json(json: &Json) -> (value: Option<Self>) {
        let root_uri = match json.text_field("root_uri") {
            Some(uri) => uri.to_owned(),
            None => return None,
        };
        let files = match json.list_or_empty::<FileInfo>("files") {
            Some(files) => files,
            None => return None,
        };
        Some(ArtifactList { root_uri, files })
    }
}

/// The request that sets a tag on a run.
pub open spec fn set_run_tag_request(
    base: Seq<char>,
    run_id: Seq<char>,
    key: Seq<char>,
    value: Seq<char>,
) -> RequestModel {
    RequestModel::post(
        endpoint_url(base, "runs/set-tag"@),
        JsonValue::Object(
            Seq::empty().push(("run_id"@, JsonValue::Text(run_id))).push(
                ("key"@, JsonValue::Text(key)),
            ).push(("value"@, JsonValue::Text(value))),
        ),
    )
}

/// The request that deletes a tag of a run.
pub open spec fn delete_run_tag_request(
    base: Seq<char>,
    run_id: Seq<char>,
    key: Seq<char>,
) -> RequestModel {
    RequestModel::post(
        endpoint_url(base, "runs/delete-tag"@),
        JsonValue::Object(
            Seq::empty().push(("run_id"@, JsonValue::Text(run_id))).push(
                ("key"@, JsonValue::Text(key)),
            ),
        ),
    )
}

/// The document that logs one value of a metric. A step is named only where
/// one is given.
pub open spec fn log_metric_document(
    run_id: Seq<char>,
    key: Seq<char>,
    value: NumberValue,
    timestamp: u64,
    step: Option<u64>,
) -> JsonValue {
    JsonValue::Object(
        with_optional(
            Seq::empty().push(("run_id"@, JsonValue::Text(run_id))).push(
                ("key"@, JsonValue::Text(key)),
            ).push(("value"@, JsonValue::Number(value))).push(
                ("timestamp"@, JsonValue::Number(NumberValue::Unsigned(timestamp))),
            ),
            "step"@,
            unsigned_value(step),
        ),
    )
}

/// The request that logs one value of a metric.
pub open spec fn log_metric_request(
    base: Seq<char>,
    run_id: Seq<char>,
    key: Seq<char>,
    value: NumberValue,
    timestamp: u64,
    step: Option<u64>,
) -> RequestModel {
    RequestModel::post(
        endpoint_url(base, "runs/log-metric"@),
        log_metric_document(run_id, key, value, timestamp, step),
    )
}

/// What is logged is what the caller gives: the document names the run, and
/// read as a metric it is the given key, value and timestamp, at the given
/// step, or at step 0 where none is given.
pub proof fn lemma_metric_is_logged_as_given(
    run_id: Seq<char>,
    key: Seq<char>,
    value: NumberValue,
    timestamp: u64,
    step: Option<u64>,
)
    ensures
        log_metric_document(run_id, key, value, timestamp, step).text_field("run_id"@) == Some(
            run_id,
        ),
        Metric::decoded(log_metric_document(run_id, key, value, timestamp, step)) == Some(
            MetricModel {
                key,
                value,
                timestamp,
                step: match step {
                    Some(step) => step,
                    None => 0,
                },
            },
        ),
{
    reveal_strlit("run_id");
    reveal_strlit("key");
    reveal_strlit("value");
    reveal_strlit("timestamp");
    reveal_strlit("step");
    assert("run_id"@.len() == 6);
    assert("key"@.len() == 3);
    assert("value"@.len() == 5);
    assert("timestamp"@.len() == 9);
    assert("step"@.len() == 4);
    let none = Seq::<(Seq<char>, JsonValue)>::empty();
    let one = none.push(("run_id"@, JsonValue::Text(run_id)));
    let two = one.push(("key"@, JsonValue::Text(key)));
    let three = two.push(("value"@, JsonValue::Number(value)));
    let four = three.push(("timestamp"@, JsonValue::Number(NumberValue::Unsigned(timestamp))));
    lemma_last_put_is_found(none, "run_id"@, JsonValue::Text(run_id));
    lemma_last_put_is_found(one, "key"@, JsonValue::Text(key));
    lemma_last_put_is_found(two, "value"@, JsonValue::Number(value));
    lemma_last_put_is_found(
        three,
        "timestamp"@,
        JsonValue::Number(NumberValue::Unsigned(timestamp)),
    );
    lemma_optional_member_keeps_others(four, "step"@, unsigned_value(step), "run_id"@);
    lemma_optional_member_keeps_others(four, "step"@, unsigned_value(step), "key"@);
    lemma_optional_member_keeps_others(four, "step"@, unsigned_value(step), "value"@);
    lemma_optional_member_keeps_others(four, "step"@, unsigned_value(step), "timestamp"@);
    match step {
        Some(step) => lemma_last_put_is_found(
            four,
            "step"@,
            JsonValue::Number(NumberValue::Unsigned(step)),
        ),
        None => {},
    }
}

/// The request that asks for all values of a metric of a run.
pub open spec fn get_metric_history_request(
    base: Seq<char>,
    run_id: Seq<char>,
    metric_key: Seq<char>,
) -> RequestModel {
    RequestModel::get(
        endpoint_url(base, "metrics/get-history"@),
        Seq::empty().push(("run_id"@, run_id)).push(("metric_key"@, metric_key)),
    )
}

/// The request that logs a parameter of a run.
pub open spec fn log_param_request(
    base: Seq<char>,
    run_id: Seq<char>,
    key: Seq<char>,
    value: Seq<char>,
) -> RequestModel {
    RequestModel::post(
        endpoint_url(base, "runs/log-parameter"@),
        JsonValue::Object(
            Seq::empty().push(("run_id"@, JsonValue::Text(run_id))).push(
                ("key"@, JsonValue::Text(key)),
            ).push(("value"@, JsonValue::Text(value))),
        ),
    )
}

/// The request that logs metrics, parameters and tags of a run at once. Of
/// the three rows, each is named only where it is given, and each keeps its
/// order.
pub open spec fn log_batch_request(
    base: Seq<char>,
    run_id: Seq<char>,
    metrics: Option<Seq<MetricModel>>,
    params: Option<Seq<Entry>>,
    tags: Option<Seq<Entry>>,
) -> RequestModel {
    RequestModel::post(
        endpoint_url(base, "runs/log-batch"@),
        JsonValue::Object(
            with_optional(
                with_optional(
                    with_optional(
                        Seq::empty().push(("run_id"@, JsonValue::Text(run_id))),
                        "metrics"@,
                        list_value::<Metric>(metrics),
                    ),
                    "params"@,
                    list_value::<Param>(params),
                ),
                "tags"@,
                list_value::<RunTag>(tags),
            ),
        ),
    )
}

/// The request that lists the artifacts of a run. A path is named only
/// where one is given.
pub open spec fn list_artifacts_request(
    base: Seq<char>,
    run_id: Seq<char>,
    path: Option<Seq<char>>,
) -> RequestModel {
    RequestModel::get(
        endpoint_url(base, "artifacts/list"@),
        with_parameter(Seq::empty().push(("run_id"@, run_id)), "path"@, path),
    )
}

impl MLflowAPI {
    /// Set a tag on a run. Tags are run metadata that can be updated during
    /// a run and after a run completes.
    pub fn set_run_tag(&self, run_id: &str, key: &str, value: &str) -> (request: Request)
        ensures
            request.deep_view() == set_run_tag_request(self@, run_id@, key@, value@),
    {
        let mut members = Members::new();
        members.put_text("run_id", run_id);
        members.put_text("key", key);
        members.put_text("value", value);
        Request::post(self.endpoint("runs/set-tag"), &members.into_object())
    }

    /// Delete a tag on a run.
    pub fn delete_run_tag(&self, run_id: &str, key: &str) -> (request: Request)
        ensures
            request.deep_view() == delete_run_tag_request(self@, run_id@, key@),
    {
        let mut members = Members::new();
        members.put_text("run_id", run_id);
        members.put_text("key", key);
        Request::post(self.endpoint("runs/delete-tag"), &members.into_object())
    }

    /// Log a metric for a run. A metric is a key-value pair with an
    /// associated timestamp, and can be logged many times.
    pub fn log_metric(
        &self,
        run_id: &str,
        key: &str,
        value: &JsonNumber,
        timestamp: u64,
        step: Option<u64>,
    ) -> (request: Request)
        ensures
            request.deep_view() == log_metric_request(
                self@,
                run_id@,
                key@,
                value.deep_view(),
                timestamp,
                step,
            ),
    {
        let mut members = Members::new();
        members.put_text("run_id", run_id);
        members.put_text("key", key);
        members.put("value", Json::Number(value.duplicate()));
        members.put("timestamp", Json::unsigned(timestamp));
        members.put_optional_unsigned("step", step);
        Request::post(self.endpoint("runs/log-metric"), &members.into_object())
    }

    /// Get a list of all values for the specified metric for a given run.
    pub fn get_metric_history(&self, run_id: &str, metric_key: &str) -> (request: Request)
        ensures
            request.deep_view() == get_metric_history_request(self@, run_id@, metric_key@),
    {
        let mut query = Query::new();
        query.put("run_id", run_id);
        query.put("metric_key", metric_key);
        Request::get(self.endpoint("metrics/get-history"), query)
    }

    /// Log a param used for a run. A param can be logged only once for a
    /// run: the service sees to that.
    pub fn log_param(&self, run_id: &str, key: &str, value: &str) -> (request: Request)
        ensures
            request.deep_view() == log_param_request(self@, run_id@, key@, value@),
    {
        let mut members = Members::new();
        members.put_text("run_id", run_id);
        members.put_text("key", key);
        members.put_text("value", value);
        Request::post(self.endpoint("runs/log-parameter"), &members.into_object())
    }

    /// Log a batch of metrics, params, and tags for a run.
    pub fn log_batch(
        &self,
        run_id: &str,
        metrics: Option<&[&Metric]>,
        params: Option<&[&Param]>,
        tags: Option<&[&RunTag]>,
    ) -> (request: Request)
        ensures
            request.deep_view() == log_batch_request(
                self@,
                run_id@,
                metrics.deep_view(),
                params.deep_view(),
                tags.deep_view(),
            ),
    {
        let mut members = Members::new();
        members.put_text("run_id", run_id);
        members.put_optional("metrics", row_to_json(metrics));
        members.put_optional("params", row_to_json(params));
        members.put_optional("tags", row_to_json(tags));
        Request::post(self.endpoint("runs/log-batch"), &members.into_object())
    }

    /// List artifacts for a run. With a path, the service answers with the
    /// artifacts under that path only.
    pub fn list_artifacts(&self, run_id: &str, path: Option<&str>) -> (request: Request)
        ensures
            request.deep_view() == list_artifacts_request(self@, run_id@, path.deep_view()),
    {
        let mut query = Query::new();
        query.put("run_id", run_id);
        query.put_optional("path", path);
        Request::get(self.endpoint("artifacts/list"), query)
    }

    /// Reads the reply to a question for a metric's history.
    pub fn read_metrics(reply: &Reply) -> (result: Result<
        Vec<Metric>,
        ClientError<GetExperimentErrorCode>,
    >)
        ensures
            result_model(result) == reply_result::<MetricHistory, GetExperimentErrorCode>(
                reply.deep_view(),
            ),
    {
        let extract = |history: MetricHistory| -> (metrics: Vec<Metric>)
            ensures
                metrics == history.metrics,
            {
                history.metrics
            };
        return_field::<MetricHistory, GetExperimentErrorCode, Vec<Metric>, _>(reply, extract)
    }

    /// Reads the reply to a listing of artifacts: the root, and the files.
    pub fn read_artifacts(reply: &Reply) -> (result: Result<
        (String, Vec<FileInfo>),
        ClientError<GetExperimentErrorCode>,
    >)
        ensures
            result_model(result) == reply_result::<ArtifactList, GetExperimentErrorCode>(
                reply.deep_view(),
            ),
    {
        let extract = |list: ArtifactList| -> (pair: (String, Vec<FileInfo>))
            ensures
                pair == (list.root_uri, list.files),
            {
                (list.root_uri, list.files)
            };
        return_field::<ArtifactList, GetExperimentErrorCode, (String, Vec<FileInfo>), _>(
            reply,
            extract,
        )
    }
}

} // verus!
