//! The endpoints that deal with experiments.

use crate::api::{
    document_result, endpoint_url, refusal, reply_result, result_model, return_field, MLflowAPI,
};
use crate::errors::{
    ClientError, ClientErrorModel, CreateExperimentErrorCode, GetExperimentErrorCode,
    ListExperimentsErrorCode,
};
use crate::json::{
    lemma_last_put_is_found, lemma_optional_member_keeps_others, text_value, with_optional, Json,
    JsonValue, Members,
};
use crate::request::{with_parameter, Query, Reply, Request, RequestModel};
use crate::structures::{Entry, Experiment, ExperimentModel, ExperimentTag, ViewType};
use crate::wire::FromJson;
use vstd::prelude::*;

verus! {

/// The answer to the creation of an experiment: the new experiment's ID.
#[derive(Debug, Clone, PartialEq, Eq)]
pub struct CreatedExperiment {
    pub experiment_id: String,
}

impl DeepView for CreatedExperiment {
    type V = Seq<char>;

    open spec fn deep_view(&self) -> Seq<char> {
        self.experiment_id@
    }
}

impl FromJson for CreatedExperiment {
    open spec fn decoded(json: JsonValue) -> Option<Seq<char>> {
        json.text_field("experiment_id"@)
    }

    fn from_json(json: &Json) -> (value: Option<Self>) {
        match json.text_field("experiment_id") {
            Some(id) => Some(CreatedExperiment { experiment_id: id.to_owned() }),
            None => None,
        }
    }
}

/// The answer to a listing of experiments.
#[derive(Debug, Clone, PartialEq, Eq)]
pub struct ExperimentList {
    pub experiments: Vec<Experiment>,
}

impl DeepView for ExperimentList {
    type V = Seq<ExperimentModel>;

    open spec fn deep_view(&self) -> Seq<ExperimentModel> {
        self.experiments.deep_view()
    }
}

impl FromJson for ExperimentList {
    open spec fn decoded(json: JsonValue) -> Option<Seq<ExperimentModel>> {
        json.list_field::<Experiment>("experiments"@)
    }

    fn from_json(json: &Json) -> (value: Option<Self>) {
        match json.list_field::<Experiment>("experiments") {
            Some(experiments) => Some(ExperimentList { experiments }),
            None => None,
        }
    }
}

/// The answer that holds one experiment.
#[derive(Debug, Clone, PartialEq, Eq)]
pub struct FoundExperiment {
    pub experiment: Experiment,
}

impl DeepView for FoundExperiment {
    type V = ExperimentModel;

    open spec fn deep_view(&self) -> ExperimentModel {
        self.experiment.deep_view()
    }
}

impl FromJson for FoundExperiment {
    open spec fn decoded(json: JsonValue) -> Option<ExperimentModel> {
        json.record_field::<Experiment>("experiment"@)
    }

    fn from_json(json: &Json) -> (value: Option<Self>) {
        match json.record_field::<Experiment>("experiment") {
            Some(experiment) => Some(FoundExperiment { experiment }),
            None => None,
        }
    }
}

/// The document that asks for the creation of an experiment. A location for
/// the artifacts is named only where one is given.
pub open spec fn create_experiment_document(
    name: Seq<char>,
    artifact_location: Option<Seq<char>>,
) -> JsonValue {
    JsonValue::Object(
        with_optional(
            Seq::empty().push(("name"@, JsonValue::Text(name))),
            "artifact_location"@,
            text_value(artifact_location),
        ),
    )
}

/// The request that creates an experiment.
pub open spec fn create_experiment_request(
    base: Seq<char>,
    name: Seq<char>,
    artifact_location: Option<Seq<char>>,
) -> RequestModel {
    RequestModel::post(
        endpoint_url(base, "experiments/create"@),
        create_experiment_document(name, artifact_location),
    )
}

/// An experiment is asked for under the name that the caller gives, with or
/// without a location for its artifacts.
pub proof fn lemma_creation_names_the_experiment(
    name: Seq<char>,
    artifact_location: Option<Seq<char>>,
)
    ensures
        create_experiment_document(name, artifact_location).text_field("name"@) == Some(name),
{
    reveal_strlit("name");
    reveal_strlit("artifact_location");
    assert("name"@.len() == 4);
    assert("artifact_location"@.len() == 17);
    let none = Seq::<(Seq<char>, JsonValue)>::empty();
    lemma_last_put_is_found(none, "name"@, JsonValue::Text(name));
    lemma_optional_member_keeps_others(
        none.push(("name"@, JsonValue::Text(name))),
        "artifact_location"@,
        text_value(artifact_location),
        "name"@,
    );
}

/// The request that lists the experiments. A view type is named only where
/// one is given.
pub open spec fn list_experiments_request(base: Seq<char>, view_type: Option<ViewType>) -> RequestModel {
    RequestModel::get(
        endpoint_url(base, "experiments/list"@),
        with_parameter(
            Seq::empty(),
            "view_type"@,
            match view_type {
                Some(view_type) => Some(view_type.name()),
                None => None,
            },
        ),
    )
}

/// The request that gets an experiment by its ID.
pub open spec fn get_experiment_request(base: Seq<char>, experiment_id: Seq<char>) -> RequestModel {
    RequestModel::get(
        endpoint_url(base, "experiments/get"@),
        Seq::empty().push(("experiment_id"@, experiment_id)),
    )
}

/// The request that gets an experiment by its name.
pub open spec fn get_experiment_by_name_request(
    base: Seq<char>,
    experiment_name: Seq<char>,
) -> RequestModel {
    RequestModel::get(
        endpoint_url(base, "experiments/get-by-name"@),
        Seq::empty().push(("experiment_name"@, experiment_name)),
    )
}

/// The request that marks an experiment as deleted.
pub open spec fn delete_experiment_request(base: Seq<char>, experiment_id: Seq<char>) -> RequestModel {
    RequestModel::post(
        endpoint_url(base, "experiments/delete"@),
        JsonValue::Object(Seq::empty().push(("experiment_id"@, JsonValue::Text(experiment_id)))),
    )
}

/// The request that restores an experiment marked as deleted.
pub open spec fn restore_experiment_request(base: Seq<char>, experiment_id: Seq<char>) -> RequestModel {
    RequestModel::post(
        endpoint_url(base, "experiments/restore"@),
        JsonValue::Object(Seq::empty().push(("experiment_id"@, JsonValue::Text(experiment_id)))),
    )
}

/// The request that renames an experiment.
pub open spec fn update_experiment_request(
    base: Seq<char>,
    experiment_id: Seq<char>,
    new_name: Seq<char>,
) -> RequestModel {
    RequestModel::post(
        endpoint_url(base, "experiments/update"@),
        JsonValue::Object(
            Seq::empty().push(("experiment_id"@, JsonValue::Text(experiment_id))).push(
                ("new_name"@, JsonValue::Text(new_name)),
            ),
        ),
    )
}

/// The document that asks for a tag to be set on an experiment.
pub open spec fn set_experiment_tag_document(
    experiment_id: Seq<char>,
    key: Seq<char>,
    value: Seq<char>,
) -> JsonValue {
    JsonValue::Object(
        Seq::empty().push(("experiment_id"@, JsonValue::Text(experiment_id))).push(
            ("key"@, JsonValue::Text(key)),
        ).push(("value"@, JsonValue::Text(value))),
    )
}

/// The request that sets a tag on an experiment.
pub open spec fn set_experiment_tag_request(
    base: Seq<char>,
    experiment_id: Seq<char>,
    key: Seq<char>,
    value: Seq<char>,
) -> RequestModel {
    RequestModel::post(
        endpoint_url(base, "experiments/set-experiment-tag"@),
        set_experiment_tag_document(experiment_id, key, value),
    )
}

/// The tag that is asked for is the tag that the caller gives: the document
/// names the experiment, and read as a tag it is the given key with the
/// given value.
pub proof fn lemma_tag_is_asked_for_as_given(
    experiment_id: Seq<char>,
    key: Seq<char>,
    value: Seq<char>,
)
    ensures
        set_experiment_tag_document(experiment_id, key, value).text_field("experiment_id"@)
            == Some(experiment_id),
        ExperimentTag::decoded(set_experiment_tag_document(experiment_id, key, value)) == Some(
            Entry { key, value },
        ),
{
    reveal_strlit("experiment_id");
    reveal_strlit("key");
    reveal_strlit("value");
    assert("experiment_id"@.len() == 13);
    assert("key"@.len() == 3);
    assert("value"@.len() == 5);
    let none = Seq::<(Seq<char>, JsonValue)>::empty();
    let one = none.push(("experiment_id"@, JsonValue::Text(experiment_id)));
    let two = one.push(("key"@, JsonValue::Text(key)));
    lemma_last_put_is_found(none, "experiment_id"@, JsonValue::Text(experiment_id));
    lemma_last_put_is_found(one, "key"@, JsonValue::Text(key));
    lemma_last_put_is_found(two, "value"@, JsonValue::Text(value));
}

/// Where the service refuses to create an experiment under the code
/// `RESOURCE_ALREADY_EXISTS`, the answer is read as that refusal, with the
/// service's message, whatever else the answer holds.
pub proof fn lemma_existing_name_is_refused(json: JsonValue, message: Seq<char>)
    requires
        refusal(json) == Some(("RESOURCE_ALREADY_EXISTS"@, message)),
    ensures
        document_result::<CreatedExperiment, CreateExperimentErrorCode>(json) == Err::<
            Seq<char>,
            ClientErrorModel<CreateExperimentErrorCode>,
        >(
            ClientErrorModel::ApiError {
                error_code: CreateExperimentErrorCode::ResourceAlreadyExists,
                message,
            },
        ),
{
}

impl MLflowAPI {
    /// Create an experiment with a name. The service answers with the ID of
    /// the newly created experiment, and refuses where another experiment
    /// has the same name.
    pub fn create_experiment(&self, name: &str, artifact_location: Option<&str>) -> (request:
        Request)
        ensures
            request.deep_view() == create_experiment_request(
                self@,
                name@,
                artifact_location.deep_view(),
            ),
    {
        let mut members = Members::new();
        members.put_text("name", name);
        members.put_optional_text("artifact_location", artifact_location);
        Request::post(self.endpoint("experiments/create"), &members.into_object())
    }

    /// Get a list of all experiments.
    pub fn list_experiments(&self, view_type: Option<ViewType>) -> (request: Request)
        ensures
            request.deep_view() == list_experiments_request(self@, view_type),
    {
        let mut query = Query::new();
        match view_type {
            Some(view_type) => query.put("view_type", view_type.wire_name()),
            None => {},
        }
        Request::get(self.endpoint("experiments/list"), query)
    }

    /// Get metadata for an experiment. This works on deleted experiments.
    pub fn get_experiment(&self, experiment_id: &str) -> (request: Request)
        ensures
            request.deep_view() == get_experiment_request(self@, experiment_id@),
    {
        let mut query = Query::new();
        query.put("experiment_id", experiment_id);
        Request::get(self.endpoint("experiments/get"), query)
    }

    /// Get metadata for an experiment by its name. The service prefers the
    /// active experiment where an active and a deleted one share the name.
    pub fn get_experiment_by_name(&self, experiment_name: &str) -> (request: Request)
        ensures
            request.deep_view() == get_experiment_by_name_request(self@, experiment_name@),
    {
        let mut query = Query::new();
        query.put("experiment_name", experiment_name);
        Request::get(self.endpoint("experiments/get-by-name"), query)
    }

    /// Mark an experiment and associated metadata, runs, metrics, params,
    /// and tags for deletion.
    pub fn delete_experiment(&self, experiment_id: &str) -> (request: Request)
        ensures
            request.deep_view() == delete_experiment_request(self@, experiment_id@),
    {
        let mut members = Members::new();
        members.put_text("experiment_id", experiment_id);
        Request::post(self.endpoint("experiments/delete"), &members.into_object())
    }

    /// Restore an experiment marked for deletion.
    pub fn restore_experiment(&self, experiment_id: &str) -> (request: Request)
        ensures
            request.deep_view() == restore_experiment_request(self@, experiment_id@),
    {
        let mut members = Members::new();
        members.put_text("experiment_id", experiment_id);
        Request::post(self.endpoint("experiments/restore"), &members.into_object())
    }

    /// Update experiment metadata.
    pub fn update_experiment(&self, experiment_id: &str, new_name: &str) -> (request: Request)
        ensures
            request.deep_view() == update_experiment_request(self@, experiment_id@, new_name@),
    {
        let mut members = Members::new();
        members.put_text("experiment_id", experiment_id);
        members.put_text("new_name", new_name);
        Request::post(self.endpoint("experiments/update"), &members.into_object())
    }

    /// Set a tag on an experiment.
    pub fn set_experiment_tag(&self, experiment_id: &str, key: &str, value: &str) -> (request:
        Request)
        ensures
            request.deep_view() == set_experiment_tag_request(
                self@,
                experiment_id@,
                key@,
                value@,
            ),
    {
        let mut members = Members::new();
        members.put_text("experiment_id", experiment_id);
        members.put_text("key", key);
        members.put_text("value", value);
        Request::post(self.endpoint("experiments/set-experiment-tag"), &members.into_object())
    }

    /// Reads the reply to the creation of an experiment: the new ID.
    pub fn read_experiment_id(reply: &Reply) -> (result: Result<
        String,
        ClientError<CreateExperimentErrorCode>,
    >)
        ensures
            result_model(result) == reply_result::<CreatedExperiment, CreateExperimentErrorCode>(
                reply.deep_view(),
            ),
    {
        let extract = |created: CreatedExperiment| -> (id: String)
            ensures
                id == created.experiment_id,
            {
                created.experiment_id
            };
        return_field::<CreatedExperiment, CreateExperimentErrorCode, String, _>(reply, extract)
    }

    /// Reads the reply to a listing of experiments.
    pub fn read_experiments(reply: &Reply) -> (result: Result<
        Vec<Experiment>,
        ClientError<ListExperimentsErrorCode>,
    >)
        ensures
            result_model(result) == reply_result::<ExperimentList, ListExperimentsErrorCode>(
                reply.deep_view(),
            ),
    {
        let extract = |list: ExperimentList| -> (experiments: Vec<Experiment>)
            ensures
                experiments == list.experiments,
            {
                list.experiments
            };
        return_field::<ExperimentList, ListExperimentsErrorCode, Vec<Experiment>, _>(
            reply,
            extract,
        )
    }

    /// Reads the reply that holds one experiment.
    pub fn read_experiment(reply: &Reply) -> (result: Result<
        Experiment,
        ClientError<GetExperimentErrorCode>,
    >)
        ensures
            result_model(result) == reply_result::<FoundExperiment, GetExperimentErrorCode>(
                reply.deep_view(),
            ),
    {
        let extract = |found: FoundExperiment| -> (experiment: Experiment)
            ensures
                experiment == found.experiment,
            {
                found.experiment
            };
        return_field::<FoundExperiment, GetExperimentErrorCode, Experiment, _>(reply, extract)
    }
}

} // verus!
