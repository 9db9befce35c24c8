//! The endpoints that deal with runs.

use crate::api::{endpoint_url, reply_result, result_model, return_field, MLflowAPI};
use crate::errors::{ClientError, GetExperimentErrorCode};
use crate::json::{
    lemma_last_put_is_found, lemma_optional_member_keeps_others, text_value, unsigned_value,
    with_optional, Json, JsonValue, Members,
};
use crate::request::{Query, Reply, Request, RequestModel};
use crate::structures::{Entry, Run, RunInfo, RunInfoModel, RunModel, RunStatus, RunTag, ViewType};
use crate::wire::{borrow_all, list_value, row_to_json, FromJson};
use vstd::prelude::*;

verus! {

/// The answer that holds one run.
#[derive(Debug, Clone, PartialEq)]
pub struct FoundRun {
    pub run: Run,
}

impl DeepView for FoundRun {
    type V = RunModel;

    open spec fn deep_view(&self) -> RunModel {
        self.run.deep_view()
    }
}

impl FromJson for FoundRun {
    open spec fn decoded(json: JsonValue) -> Option<RunModel> {
        json.record_field::<Run>("run"@)
    }

    fn from_json(json: &Json) -> (value: Option<Self>) {
        match json.record_field::<Run>("run") {
            Some(run) => Some(FoundRun { run }),
            None => None,
        }
    }
}

/// The answer to the update of a run: the run's metadata as it now is.
#[derive(Debug, Clone, PartialEq, Eq)]
pub struct UpdatedRun {
    pub run_info: RunInfo,
}

impl DeepView for UpdatedRun {
    type V = RunInfoModel;

    open spec fn deep_view(&self) -> RunInfoModel {
        self.run_info.deep_view()
    }
}

impl FromJson for UpdatedRun {
    open spec fn decoded(json: JsonValue) -> Option<RunInfoModel> {
        json.record_field::<RunInfo>("run_info"@)
    }

    fn from_json(json: &Json) -> (value: Option<Self>) {
        match json.record_field::<RunInfo>("run_info") {
            Some(run_info) => Some(UpdatedRun { run_info }),
            None => None,
        }
    }
}

/// The answer to a search: one page of runs, and the token that asks for the
/// next page where there is one.
#[derive(Debug, Clone, PartialEq)]
pub struct RunPage {
    pub runs: Vec<Run>,
    pub next_page_token: Option<String>,
}

impl DeepView for RunPage {
    type V = (Seq<RunModel>, Option<Seq<char>>);

    open spec fn deep_view(&self) -> (Seq<RunModel>, Option<Seq<char>>) {
        (self.runs.deep_view(), self.next_page_token.deep_view())
    }
}

impl FromJson for RunPage {
    open spec fn decoded(json: JsonValue) -> Option<(Seq<RunModel>, Option<Seq<char>>)> {
        match (json.list_field::<Run>("runs"@), json.optional_text("next_page_token"@)) {
            (Some(runs), Some(next_page_token)) => Some((runs, next_page_token)),
            _ => None,
        }
    }

    fn from_json(json: &Json) -> (value: Option<Self>) {
        let runs = match json.list_field::<Run>("runs") {
            Some(runs) => runs,
            None => return None,
        };
        let next_page_token = match json.optional_text("next_page_token") {
            Some(token) => token,
            None => return None,
        };
        Some(RunPage { runs, next_page_token })
    }
}

/// The array of strings that stands for a row of texts.
pub open spec fn texts_value(texts: Seq<Seq<char>>) -> JsonValue {
    JsonValue::Array(Seq::new(texts.len(), |i: int| JsonValue::Text(texts[i])))
}

/// The request that creates a run within an experiment. Of the start time
/// and the tags, each is named only where it is given.
pub open spec fn create_run_request(
    base: Seq<char>,
    experiment_id: Seq<char>,
    start_time: Option<u64>,
    tags: Option<Seq<Entry>>,
) -> RequestModel {
    RequestModel::post(
        endpoint_url(base, "runs/create"@),
        JsonValue::Object(
            with_optional(
                with_optional(
                    Seq::empty().push(("experiment_id"@, JsonValue::Text(experiment_id))),
                    "start_time"@,
                    unsigned_value(start_time),
                ),
                "tags"@,
                list_value::<RunTag>(tags),
            ),
        ),
    )
}

/// The request that marks a run as deleted.
pub open spec fn delete_run_request(base: Seq<char>, run_id: Seq<char>) -> RequestModel {
    RequestModel::post(
        endpoint_url(base, "runs/delete"@),
        JsonValue::Object(Seq::empty().push(("run_id"@, JsonValue::Text(run_id)))),
    )
}

/// The request that restores a run marked as deleted.
pub open spec fn restore_run_request(base: Seq<char>, run_id: Seq<char>) -> RequestModel {
    RequestModel::post(
        endpoint_url(base, "runs/restore"@),
        JsonValue::Object(Seq::empty().push(("run_id"@, JsonValue::Text(run_id)))),
    )
}

/// The request that gets a run.
pub open spec fn get_run_request(base: Seq<char>, run_id: Seq<char>) -> RequestModel {
    RequestModel::get(endpoint_url(base, "runs/get"@), Seq::empty().push(("run_id"@, run_id)))
}

/// The request that sets a run's status. An end time is named only where
/// one is given.
pub open spec fn update_run_request(
    base: Seq<char>,
    run_id: Seq<char>,
    status: RunStatus,
    end_time: Option<u64>,
) -> RequestModel {
    RequestModel::post(
        endpoint_url(base, "runs/update"@),
        JsonValue::Object(
            with_optional(
                Seq::empty().push(("run_id"@, JsonValue::Text(run_id))).push(
                    ("status"@, JsonValue::Text(status.name())),
                ),
                "end_time"@,
                unsigned_value(end_time),
            ),
        ),
    )
}

/// The document that asks for a search for runs in the given experiments. Of
/// the filter, the view type, the number of results, the ordering and the
/// page token, each is named only where it is given.
pub open spec fn search_runs_document(
    experiment_ids: Seq<Seq<char>>,
    filter: Option<Seq<char>>,
    run_view_type: Option<ViewType>,
    max_results: Option<u32>,
    order_by: Option<Seq<Seq<char>>>,
    page_token: Option<Seq<char>>,
) -> JsonValue {
    let ids = Seq::empty().push(("experiment_ids"@, texts_value(experiment_ids)));
    let filtered = with_optional(ids, "filter"@, text_value(filter));
    let viewed = with_optional(
        filtered,
        "run_view_type"@,
        match run_view_type {
            Some(view_type) => Some(JsonValue::Text(view_type.name())),
            None => None,
        },
    );
    let limited = with_optional(
        viewed,
        "max_results"@,
        match max_results {
            Some(n) => unsigned_value(Some(n as u64)),
            None => None,
        },
    );
    let ordered = with_optional(
        limited,
        "order_by"@,
        match order_by {
            Some(columns) => Some(texts_value(columns)),
            None => None,
        },
    );
    JsonValue::Object(with_optional(ordered, "page_token"@, text_value(page_token)))
}

/// The request that searches for runs in the given experiments.
pub open spec fn search_runs_request(
    base: Seq<char>,
    experiment_ids: Seq<Seq<char>>,
    filter: Option<Seq<char>>,
    run_view_type: Option<ViewType>,
    max_results: Option<u32>,
    order_by: Option<Seq<Seq<char>>>,
    page_token: Option<Seq<char>>,
) -> RequestModel {
    RequestModel::post(
        endpoint_url(base, "runs/search"@),
        search_runs_document(
            experiment_ids,
            filter,
            run_view_type,
            max_results,
            order_by,
            page_token,
        ),
    )
}

/// A search asks for the runs of the experiments that the caller names, of
/// those and of no others: whatever else the search names, its document
/// lists the given IDs, each once for each time it is given, in their order.
pub proof fn lemma_search_asks_for_the_given_experiments(
    experiment_ids: Seq<Seq<char>>,
    filter: Option<Seq<char>>,
    run_view_type: Option<ViewType>,
    max_results: Option<u32>,
    order_by: Option<Seq<Seq<char>>>,
    page_token: Option<Seq<char>>,
)
    ensures
        search_runs_document(
            experiment_ids,
            filter,
            run_view_type,
            max_results,
            order_by,
            page_token,
        ).field("experiment_ids"@) == Some(texts_value(experiment_ids)),
        texts_value(experiment_ids).items() matches Some(items) && items.len()
            == experiment_ids.len() && forall|i: int|
            0 <= i < experiment_ids.len() ==> #[trigger] items[i] == JsonValue::Text(
                experiment_ids[i],
            ),
{
    reveal_strlit("experiment_ids");
    reveal_strlit("filter");
    reveal_strlit("run_view_type");
    reveal_strlit("max_results");
    reveal_strlit("order_by");
    reveal_strlit("page_token");
    assert("experiment_ids"@.len() == 14);
    assert("filter"@.len() == 6);
    assert("run_view_type"@.len() == 13);
    assert("max_results"@.len() == 11);
    assert("order_by"@.len() == 8);
    assert("page_token"@.len() == 10);
    let asked = "experiment_ids"@;
    let none = Seq::<(Seq<char>, JsonValue)>::empty();
    let ids = none.push((asked, texts_value(experiment_ids)));
    let viewing = match run_view_type {
        Some(view_type) => Some(JsonValue::Text(view_type.name())),
        None => None,
    };
    let limiting = match max_results {
        Some(n) => unsigned_value(Some(n as u64)),
        None => None,
    };
    let sorting = match order_by {
        Some(columns) => Some(texts_value(columns)),
        None => None,
    };
    let filtered = with_optional(ids, "filter"@, text_value(filter));
    let viewed = with_optional(filtered, "run_view_type"@, viewing);
    let limited = with_optional(viewed, "max_results"@, limiting);
    let ordered = with_optional(limited, "order_by"@, sorting);
    lemma_last_put_is_found(none, asked, texts_value(experiment_ids));
    lemma_optional_member_keeps_others(ids, "filter"@, text_value(filter), asked);
    lemma_optional_member_keeps_others(filtered, "run_view_type"@, viewing, asked);
    lemma_optional_member_keeps_others(viewed, "max_results"@, limiting, asked);
    lemma_optional_member_keeps_others(limited, "order_by"@, sorting, asked);
    lemma_optional_member_keeps_others(ordered, "page_token"@, text_value(page_token), asked);
}

/// The array of strings that stands for a row of texts.
pub fn texts_to_json(texts: &[&str]) -> (json: Json)
    ensures
        json.deep_view() == texts_value(texts.deep_view()),
{
    let mut items: Vec<Json> = Vec::new();
    let mut i: usize = 0;
    while i < texts.len()
        invariant
            i <= texts.len(),
            items@.len() == i,
            forall|k: int| 0 <= k < i ==> (#[trigger] items@[k]).deep_view() == JsonValue::Text(texts@[k]@),
        decreases texts.len() - i,
    {
        items.push(Json::text(texts[i]));
        i += 1;
    }
    assert(items.deep_view() =~= texts_value(texts.deep_view())->Array_0);
    Json::array(items)
}

/// The array of strings that stands for a row of texts.
pub fn strings_to_json(texts: &Vec<String>) -> (json: Json)
    ensures
        json.deep_view() == texts_value(texts.deep_view()),
{
    let mut items: Vec<Json> = Vec::new();
    let mut i: usize = 0;
    while i < texts.len()
        invariant
            i <= texts.len(),
            items@.len() == i,
            forall|k: int| 0 <= k < i ==> (#[trigger] items@[k]).deep_view() == JsonValue::Text(texts@[k]@),
        decreases texts.len() - i,
    {
        items.push(Json::text(texts[i].as_str()));
        i += 1;
    }
    assert(items.deep_view() =~= texts_value(texts.deep_view())->Array_0);
    Json::array(items)
}

impl MLflowAPI {
    /// Create a new run within an experiment.
    pub fn create_run(
        &self,
        experiment_id: &str,
        start_time: Option<u64>,
        tags: Option<Vec<RunTag>>,
    ) -> (request: Request)
        ensures
            request.deep_view() == create_run_request(
                self@,
                experiment_id@,
                start_time,
                tags.deep_view(),
            ),
    {
        let mut members = Members::new();
        members.put_text("experiment_id", experiment_id);
        members.put_optional_unsigned("start_time", start_time);
        match tags {
            Some(tags) => {
                let borrowed = borrow_all(&tags);
                members.put_optional("tags", row_to_json(Some(borrowed.as_slice())));
            },
            None => {},
        }
        Request::post(self.endpoint("runs/create"), &members.into_object())
    }

    /// Mark a run for deletion.
    pub fn delete_run(&self, run_id: &str) -> (request: Request)
        ensures
            request.deep_view() == delete_run_request(self@, run_id@),
    {
        let mut members = Members::new();
        members.put_text("run_id", run_id);
        Request::post(self.endpoint("runs/delete"), &members.into_object())
    }

    /// Restore a deleted run.
    pub fn restore_run(&self, run_id: &str) -> (request: Request)
        ensures
            request.deep_view() == restore_run_request(self@, run_id@),
    {
        let mut members = Members::new();
        members.put_text("run_id", run_id);
        Request::post(self.endpoint("runs/restore"), &members.into_object())
    }

    /// Get metadata, metrics, params, and tags for a run. Where several
    /// metrics with the same key were logged for the run, the service
    /// answers with one of them, by its own rule.
    pub fn get_run(&self, run_id: &str) -> (request: Request)
        ensures
            request.deep_view() == get_run_request(self@, run_id@),
    {
        let mut query = Query::new();
        query.put("run_id", run_id);
        Request::get(self.endpoint("runs/get"), query)
    }

    /// Update run metadata.
    pub fn update_run(&self, run_id: &str, status: RunStatus, end_time: Option<u64>) -> (request:
        Request)
        ensures
            request.deep_view() == update_run_request(self@, run_id@, status, end_time),
    {
        let mut members = Members::new();
        members.put_text("run_id", run_id);
        members.put_text("status", status.wire_name());
        members.put_optional_unsigned("end_time", end_time);
        Request::post(self.endpoint("runs/update"), &members.into_object())
    }

    /// Search for runs that satisfy expressions. Search expressions can use
    /// metric and param keys.
    pub fn search_runs(
        &self,
        experiment_ids: &[&str],
        filter: Option<&str>,
        run_view_type: Option<ViewType>,
        max_results: Option<u32>,
        order_by: Option<Vec<String>>,
        page_token: Option<&str>,
    ) -> (request: Request)
        ensures
            request.deep_view() == search_runs_request(
                self@,
                experiment_ids.deep_view(),
                filter.deep_view(),
                run_view_type,
                max_results,
                order_by.deep_view(),
                page_token.deep_view(),
            ),
    {
        let mut members = Members::new();
        members.put("experiment_ids", texts_to_json(experiment_ids));
        members.put_optional_text("filter", filter);
        match run_view_type {
            Some(view_type) => members.put_text("run_view_type", view_type.wire_name()),
            None => {},
        }
        match max_results {
            Some(n) => members.put("max_results", Json::unsigned(n as u64)),
            None => {},
        }
        match order_by {
            Some(columns) => members.put("order_by", strings_to_json(&columns)),
            None => {},
        }
        members.put_optional_text("page_token", page_token);
        Request::post(self.endpoint("runs/search"), &members.into_object())
    }

    /// Reads the reply that holds one run.
    pub fn read_run(reply: &Reply) -> (result: Result<Run, ClientError<GetExperimentErrorCode>>)
        ensures
            result_model(result) == reply_result::<FoundRun, GetExperimentErrorCode>(
                reply.deep_view(),
            ),
    {
        let extract = |found: FoundRun| -> (run: Run)
            ensures
                run == found.run,
            {
                found.run
            };
        return_field::<FoundRun, GetExperimentErrorCode, Run, _>(reply, extract)
    }

    /// Reads the reply to the update of a run.
    pub fn read_run_info(reply: &Reply) -> (result: Result<
        RunInfo,
        ClientError<GetExperimentErrorCode>,
    >)
        ensures
            result_model(result) == reply_result::<UpdatedRun, GetExperimentErrorCode>(
                reply.deep_view(),
            ),
    {
        let extract = |updated: UpdatedRun| -> (run_info: RunInfo)
            ensures
                run_info == updated.run_info,
            {
                updated.run_info
            };
        return_field::<UpdatedRun, GetExperimentErrorCode, RunInfo, _>(reply, extract)
    }

    /// Reads the reply to a search: the runs of one page, and the token for
    /// the next page.
    pub fn read_runs(reply: &Reply) -> (result: Result<
        (Vec<Run>, Option<String>),
        ClientError<GetExperimentErrorCode>,
    >)
        ensures
            result_model(result) == reply_result::<RunPage, GetExperimentErrorCode>(
                reply.deep_view(),
            ),
    {
        let extract = |page: RunPage| -> (pair: (Vec<Run>, Option<String>))
            ensures
                pair == (page.runs, page.next_page_token),
            {
                (page.runs, page.next_page_token)
            };
        return_field::<RunPage, GetExperimentErrorCode, (Vec<Run>, Option<String>), _>(
            reply,
            extract,
        )
    }
}

} // verus!
