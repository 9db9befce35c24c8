//! The records that the tracking service keeps, as this client sees them.

use crate::json::{
    lemma_last_put_is_found, Json, JsonNumber, JsonValue, Members, NumberValue,
};
use crate::wire::{FromJson, Replicate, ToJson};
use vstd::prelude::*;

verus! {

/// Life cycle stage of an experiment or a run.
#[derive(Debug, Clone, Copy, PartialEq, Eq)]
pub enum LifecycleStage {
    /// The record is active.
    Active,
    /// The record is marked as deleted.
    Deleted,
}

impl LifecycleStage {
    /// The stage that a name stands for.
    pub open spec fn named(name: Seq<char>) -> Option<LifecycleStage> {
        if name == "active"@ {
            Some(LifecycleStage::Active)
        } else if name == "deleted"@ {
            Some(LifecycleStage::Deleted)
        } else {
            None
        }
    }

    /// The stage that a name stands for.
    pub fn from_name(name: &str) -> (stage: Option<LifecycleStage>)
        ensures
            stage == Self::named(name@),
    {
        if name.eq("active") {
            Some(LifecycleStage::Active)
        } else if name.eq("deleted") {
            Some(LifecycleStage::Deleted)
        } else {
            None
        }
    }
}

impl DeepView for LifecycleStage {
    type V = LifecycleStage;

    open spec fn deep_view(&self) -> LifecycleStage {
        *self
    }
}

impl FromJson for LifecycleStage {
    open spec fn decoded(json: JsonValue) -> Option<LifecycleStage> {
        match json {
            JsonValue::Text(name) => Self::named(name),
            _ => None,
        }
    }

    fn from_json(json: &Json) -> (value: Option<Self>) {
        match json {
            Json::Text(name) => Self::from_name(name.as_str()),
            _ => None,
        }
    }
}

/// Status of a run.
#[derive(Debug, Clone, Copy, PartialEq, Eq)]
pub enum RunStatus {
    /// Run has been initiated.
    Running,
    /// Run is scheduled to run at a later time.
    Scheduled,
    /// Run has completed.
    Finished,
    /// Run execution failed.
    Failed,
    /// Run killed by user.
    Killed,
}

impl RunStatus {
    /// The status that a name stands for.
    pub open spec fn named(name: Seq<char>) -> Option<RunStatus> {
        if name == "RUNNING"@ {
            Some(RunStatus::Running)
        } else if name == "SCHEDULED"@ {
            Some(RunStatus::Scheduled)
        } else if name == "FINISHED"@ {
            Some(RunStatus::Finished)
        } else if name == "FAILED"@ {
            Some(RunStatus::Failed)
        } else if name == "KILLED"@ {
            Some(RunStatus::Killed)
        } else {
            None
        }
    }

    /// The name under which the status travels.
    pub open spec fn name(self) -> Seq<char> {
        match self {
            RunStatus::Running => "RUNNING"@,
            RunStatus::Scheduled => "SCHEDULED"@,
            RunStatus::Finished => "FINISHED"@,
            RunStatus::Failed => "FAILED"@,
            RunStatus::Killed => "KILLED"@,
        }
    }

    /// Whether a run of this status has come to its end.
    pub open spec fn terminal(self) -> bool {
        self == RunStatus::Finished || self == RunStatus::Failed || self == RunStatus::Killed
    }

    /// The status that a name stands for.
    pub fn from_name(name: &str) -> (status: Option<RunStatus>)
        ensures
            status == Self::named(name@),
    {
        if name.eq("RUNNING") {
            Some(RunStatus::Running)
        } else if name.eq("SCHEDULED") {
            Some(RunStatus::Scheduled)
        } else if name.eq("FINISHED") {
            Some(RunStatus::Finished)
        } else if name.eq("FAILED") {
            Some(RunStatus::Failed)
        } else if name.eq("KILLED") {
            Some(RunStatus::Killed)
        } else {
            None
        }
    }

    /// The name under which the status travels.
    pub fn wire_name(&self) -> (name: &'static str)
        ensures
            name@ == self.name(),
    {
        match self {
            RunStatus::Running => "RUNNING",
            RunStatus::Scheduled => "SCHEDULED",
            RunStatus::Finished => "FINISHED",
            RunStatus::Failed => "FAILED",
            RunStatus::Killed => "KILLED",
        }
    }

    /// Whether a run of this status has come to its end.
    pub fn is_terminal(&self) -> (terminal: bool)
        ensures
            terminal == self.terminal(),
    {
        match self {
            RunStatus::Finished | RunStatus::Failed | RunStatus::Killed => true,
            RunStatus::Running | RunStatus::Scheduled => false,
        }
    }

    /// A status's own name stands for that status.
    pub proof fn lemma_name_stands_for_status(status: RunStatus)
        ensures
            Self::named(status.name()) == Some(status),
    {
        reveal_strlit("RUNNING");
        reveal_strlit("SCHEDULED");
        reveal_strlit("FINISHED");
        reveal_strlit("FAILED");
        reveal_strlit("KILLED");
        assert("RUNNING"@.len() == 7);
        assert("SCHEDULED"@.len() == 9);
        assert("FINISHED"@.len() == 8);
        assert("FAILED"@.len() == 6);
        assert("KILLED"@.len() == 6);
        assert("FAILED"@[0] == 'F');
        assert("KILLED"@[0] == 'K');
    }
}

impl DeepView for RunStatus {
    type V = RunStatus;

    open spec fn deep_view(&self) -> RunStatus {
        *self
    }
}

impl FromJson for RunStatus {
    open spec fn decoded(json: JsonValue) -> Option<RunStatus> {
        match json {
            JsonValue::Text(name) => Self::named(name),
            _ => None,
        }
    }

    fn from_json(json: &Json) -> (value: Option<Self>) {
        match json {
            Json::Text(name) => Self::from_name(name.as_str()),
            _ => None,
        }
    }
}

impl ToJson for RunStatus {
    open spec fn encoded(value: RunStatus) -> JsonValue {
        JsonValue::Text(value.name())
    }

    fn to_json(&self) -> (json: Json) {
        Json::text(self.wire_name())
    }
}

/// Which experiments or runs a listing takes in.
#[derive(Debug, Clone, Copy, PartialEq, Eq)]
pub enum ViewType {
    /// Only active ones: what the service does where none is named.
    ActiveOnly,
    /// Only deleted ones.
    DeletedOnly,
    /// All of them.
    All,
}

impl ViewType {
    /// The name under which the view type travels.
    pub open spec fn name(self) -> Seq<char> {
        match self {
            ViewType::ActiveOnly => "ACTIVE_ONLY"@,
            ViewType::DeletedOnly => "DELETED_ONLY"@,
            ViewType::All => "ALL"@,
        }
    }

    /// The name under which the view type travels.
    pub fn wire_name(&self) -> (name: &'static str)
        ensures
            name@ == self.name(),
    {
        match self {
            ViewType::ActiveOnly => "ACTIVE_ONLY",
            ViewType::DeletedOnly => "DELETED_ONLY",
            ViewType::All => "ALL",
        }
    }
}

impl DeepView for ViewType {
    type V = ViewType;

    open spec fn deep_view(&self) -> ViewType {
        *self
    }
}

impl ToJson for ViewType {
    open spec fn encoded(value: ViewType) -> JsonValue {
        JsonValue::Text(value.name())
    }

    fn to_json(&self) -> (json: Json) {
        Json::text(self.wire_name())
    }
}

/// The mathematical value of a tag or a parameter: a key and what is kept under it.
pub ghost struct Entry {
    pub key: Seq<char>,
    pub value: Seq<char>,
}

impl Entry {
    /// The entry that a document stands for: an object with two string
    /// members, `key` and `value`.
    pub open spec fn decoded(json: JsonValue) -> Option<Entry> {
        match (json.text_field("key"@), json.text_field("value"@)) {
            (Some(key), Some(value)) => Some(Entry { key, value }),
            _ => None,
        }
    }

    /// The document that stands for an entry.
    pub open spec fn encoded(self) -> JsonValue {
        JsonValue::Object(
            Seq::empty().push(("key"@, JsonValue::Text(self.key))).push(
                ("value"@, JsonValue::Text(self.value)),
            ),
        )
    }

    /// Reading what was written gives the entry back.
    pub proof fn lemma_round_trip(self)
        ensures
            Self::decoded(self.encoded()) == Some(self),
    {
        reveal_strlit("key");
        reveal_strlit("value");
        assert("key"@.len() == 3);
        assert("value"@.len() == 5);
        let first = Seq::empty().push(("key"@, JsonValue::Text(self.key)));
        lemma_last_put_is_found(Seq::empty(), "key"@, JsonValue::Text(self.key));
        lemma_last_put_is_found(first, "value"@, JsonValue::Text(self.value));
    }
}

fn entry_from_json(json: &Json) -> (entry: Option<(String, String)>)
    ensures
        match entry {
            Some((key, value)) => Entry::decoded(json.deep_view()) == Some(
                Entry { key: key@, value: value@ },
            ),
            None => Entry::decoded(json.deep_view()) is None,
        },
{
    match (json.text_field("key"), json.text_field("value")) {
        (Some(key), Some(value)) => Some((key.to_owned(), value.to_owned())),
        _ => None,
    }
}

fn entry_to_json(key: &String, value: &String) -> (json: Json)
    ensures
        json.deep_view() == (Entry { key: key@, value: value@ }).encoded(),
{
    let mut members = Members::new();
    members.put("key", Json::text(key.as_str()));
    members.put("value", Json::text(value.as_str()));
    members.into_object()
}

/// Tag for an experiment.
#[derive(Debug, Clone, PartialEq, Eq)]
pub struct ExperimentTag {
    /// The tag key.
    pub key: String,
    /// The tag value.
    pub value: String,
}

impl DeepView for ExperimentTag {
    type V = Entry;

    open spec fn deep_view(&self) -> Entry {
        Entry { key: self.key@, value: self.value@ }
    }
}

impl FromJson for ExperimentTag {
    open spec fn decoded(json: JsonValue) -> Option<Entry> {
        Entry::decoded(json)
    }

    fn from_json(json: &Json) -> (value: Option<Self>) {
        match entry_from_json(json) {
            Some((key, value)) => Some(ExperimentTag { key, value }),
            None => None,
        }
    }
}

/// Param associated with a run.
#[derive(Debug, Clone, PartialEq, Eq)]
pub struct Param {
    /// Key identifying this param.
    pub key: String,
    /// Value associated with this param.
    pub value: String,
}

impl DeepView for Param {
    type V = Entry;

    open spec fn deep_view(&self) -> Entry {
        Entry { key: self.key@, value: self.value@ }
    }
}

impl Replicate for Param {
    fn duplicate(&self) -> (same: Param) {
        Param { key: self.key.clone(), value: self.value.clone() }
    }
}

impl FromJson for Param {
    open spec fn decoded(json: JsonValue) -> Option<Entry> {
        Entry::decoded(json)
    }

    fn from_json(json: &Json) -> (value: Option<Self>) {
        match entry_from_json(json) {
            Some((key, value)) => Some(Param { key, value }),
            None => None,
        }
    }
}

impl ToJson for Param {
    open spec fn encoded(value: Entry) -> JsonValue {
        value.encoded()
    }

    fn to_json(&self) -> (json: Json) {
        entry_to_json(&self.key, &self.value)
    }
}

/// Tag for a run.
#[derive(Debug, Clone, PartialEq, Eq)]
pub struct RunTag {
    /// The tag key.
    pub key: String,
    /// The tag value.
    pub value: String,
}

impl DeepView for RunTag {
    type V = Entry;

    open spec fn deep_view(&self) -> Entry {
        Entry { key: self.key@, value: self.value@ }
    }
}

impl Replicate for RunTag {
    fn duplicate(&self) -> (same: RunTag) {
        RunTag { key: self.key.clone(), value: self.value.clone() }
    }
}

impl FromJson for RunTag {
    open spec fn decoded(json: JsonValue) -> Option<Entry> {
        Entry::decoded(json)
    }

    fn from_json(json: &Json) -> (value: Option<Self>) {
        match entry_from_json(json) {
            Some((key, value)) => Some(RunTag { key, value }),
            None => None,
        }
    }
}

impl ToJson for RunTag {
    open spec fn encoded(value: Entry) -> JsonValue {
        value.encoded()
    }

    fn to_json(&self) -> (json: Json) {
        entry_to_json(&self.key, &self.value)
    }
}

/// Metric associated with a run, represented as a key-value pair.
///
/// The value is kept as the JSON number that it travels as: this library
/// carries a measurement and never computes with it.
#[derive(Debug, Clone, PartialEq)]
pub struct Metric {
    /// Key identifying this metric.
    pub key: String,
    /// Value associated with this metric.
    pub value: JsonNumber,
    /// The timestamp at which this metric was recorded.
    pub timestamp: u64,
    /// Step at which to log the metric.
    pub step: u64,
}

/// The mathematical value of a [`Metric`].
pub ghost struct MetricModel {
    pub key: Seq<char>,
    pub value: NumberValue,
    pub timestamp: u64,
    pub step: u64,
}

impl DeepView for Metric {
    type V = MetricModel;

    open spec fn deep_view(&self) -> MetricModel {
        MetricModel {
            key: self.key@,
            value: self.value.deep_view(),
            timestamp: self.timestamp,
            step: self.step,
        }
    }
}

impl Replicate for Metric {
    fn duplicate(&self) -> (same: Metric) {
        Metric {
            key: self.key.clone(),
            value: self.value.duplicate(),
            timestamp: self.timestamp,
            step: self.step,
        }
    }
}

impl FromJson for Metric {
    /// A metric travels as an object with a string `key`, a number `value`,
    /// an unsigned `timestamp` and an unsigned `step`; a missing step is 0.
    open spec fn decoded(json: JsonValue) -> Option<MetricModel> {
        match (
            json.text_field("key"@),
            json.number_field("value"@),
            json.unsigned_field("timestamp"@),
            json.unsigned_or_zero("step"@),
        ) {
            (Some(key), Some(value), Some(timestamp), Some(step)) => Some(
                MetricModel { key, value, timestamp, step },
            ),
            _ => None,
        }
    }

    fn from_json(json: &Json) -> (value: Option<Self>) {
        let key = match json.text_field("key") {
            Some(key) => key.to_owned(),
            None => return None,
        };
        let value = match json.number_field("value") {
            Some(value) => value.duplicate(),
            None => return None,
        };
        let timestamp: u64 = match json.unsigned_field("timestamp") {
            Some(timestamp) => timestamp,
            None => return None,
        };
        let step: u64 = match json.unsigned_or_zero("step") {
            Some(step) => step,
            None => return None,
        };
        Some(Metric { key, value, timestamp, step })
    }
}

impl MetricModel {
    /// Reading what was written gives the metric back.
    pub proof fn lemma_round_trip(self)
        ensures
            Metric::decoded(Metric::encoded(self)) == Some(self),
    {
        reveal_strlit("key");
        reveal_strlit("value");
        reveal_strlit("timestamp");
        reveal_strlit("step");
        assert("key"@.len() == 3);
        assert("value"@.len() == 5);
        assert("timestamp"@.len() == 9);
        assert("step"@.len() == 4);
        let none = Seq::<(Seq<char>, JsonValue)>::empty();
        let one = none.push(("key"@, JsonValue::Text(self.key)));
        let two = one.push(("value"@, JsonValue::Number(self.value)));
        let three = two.push(
            ("timestamp"@, JsonValue::Number(NumberValue::Unsigned(self.timestamp))),
        );
        lemma_last_put_is_found(none, "key"@, JsonValue::Text(self.key));
        lemma_last_put_is_found(one, "value"@, JsonValue::Number(self.value));
        lemma_last_put_is_found(
            two,
            "timestamp"@,
            JsonValue::Number(NumberValue::Unsigned(self.timestamp)),
        );
        lemma_last_put_is_found(
            three,
            "step"@,
            JsonValue::Number(NumberValue::Unsigned(self.step)),
        );
    }
}

impl ToJson for Metric {
    open spec fn encoded(value: MetricModel) -> JsonValue {
        JsonValue::Object(
            Seq::empty().push(("key"@, JsonValue::Text(value.key))).push(
                ("value"@, JsonValue::Number(value.value)),
            ).push(("timestamp"@, JsonValue::Number(NumberValue::Unsigned(value.timestamp)))).push(
                ("step"@, JsonValue::Number(NumberValue::Unsigned(value.step))),
            ),
        )
    }

    fn to_json(&self) -> (json: Json) {
        let mut members = Members::new();
        members.put("key", Json::text(self.key.as_str()));
        members.put("value", Json::Number(self.value.duplicate()));
        members.put("timestamp", Json::unsigned(self.timestamp));
        members.put("step", Json::unsigned(self.step));
        members.into_object()
    }
}

/// Metadata of a single artifact file or directory.
#[derive(Debug, Clone, PartialEq, Eq)]
pub struct FileInfo {
    /// Path relative to the root artifact directory run.
    pub path: String,
    /// Whether the path is a directory.
    pub is_dir: bool,
    /// Size in bytes. Unset for directories.
    pub file_size: Option<u64>,
}

/// The mathematical value of a [`FileInfo`].
pub ghost struct FileInfoModel {
    pub path: Seq<char>,
    pub is_dir: bool,
    pub file_size: Option<u64>,
}

impl DeepView for FileInfo {
    type V = FileInfoModel;

    open spec fn deep_view(&self) -> FileInfoModel {
        FileInfoModel { path: self.path@, is_dir: self.is_dir, file_size: self.file_size }
    }
}

impl FromJson for FileInfo {
    open spec fn decoded(json: JsonValue) -> Option<FileInfoModel> {
        match (
            json.text_field("path"@),
            json.bool_field("is_dir"@),
            json.optional_unsigned("file_size"@),
        ) {
            (Some(path), Some(is_dir), Some(file_size)) => Some(
                FileInfoModel { path, is_dir, file_size },
            ),
            _ => None,
        }
    }

    fn from_json(json: &Json) -> (value: Option<Self>) {
        let path = match json.text_field("path") {
            Some(path) => path.to_owned(),
            None => return None,
        };
        let is_dir = match json.bool_field("is_dir") {
            Some(is_dir) => is_dir,
            None => return None,
        };
        let file_size = match json.optional_unsigned("file_size") {
            Some(file_size) => file_size,
            None => return None,
        };
        Some(FileInfo { path, is_dir, file_size })
    }
}

/// Experiment.
#[derive(Debug, Clone, PartialEq, Eq)]
pub struct Experiment {
    /// Unique identifier for the experiment.
    pub experiment_id: String,
    /// Human readable name that identifies the experiment.
    pub name: String,
    /// Location where artifacts for the experiment are stored.
    pub artifact_location: String,
    /// Current life cycle stage of the experiment.
    pub lifecycle_stage: LifecycleStage,
    /// Last update time.
    pub last_update_time: Option<u64>,
    /// Creation time.
    pub creation_time: Option<u64>,
    /// Additional metadata key-value pairs.
    pub tags: Option<Vec<ExperimentTag>>,
}

/// The mathematical value of an [`Experiment`].
pub ghost struct ExperimentModel {
    pub experiment_id: Seq<char>,
    pub name: Seq<char>,
    pub artifact_location: Seq<char>,
    pub lifecycle_stage: LifecycleStage,
    pub last_update_time: Option<u64>,
    pub creation_time: Option<u64>,
    pub tags: Option<Seq<Entry>>,
}

impl DeepView for Experiment {
    type V = ExperimentModel;

    open spec fn deep_view(&self) -> ExperimentModel {
        ExperimentModel {
            experiment_id: self.experiment_id@,
            name: self.name@,
            artifact_location: self.artifact_location@,
            lifecycle_stage: self.lifecycle_stage,
            last_update_time: self.last_update_time,
            creation_time: self.creation_time,
            tags: self.tags.deep_view(),
        }
    }
}

impl FromJson for Experiment {
    open spec fn decoded(json: JsonValue) -> Option<ExperimentModel> {
        match (
            json.text_field("experiment_id"@),
            json.text_field("name"@),
            json.text_field("artifact_location"@),
            json.record_field::<LifecycleStage>("lifecycle_stage"@),
            json.optional_unsigned("last_update_time"@),
            json.optional_unsigned("creation_time"@),
            json.optional_list::<ExperimentTag>("tags"@),
        ) {
            (
                Some(experiment_id),
                Some(name),
                Some(artifact_location),
                Some(lifecycle_stage),
                Some(last_update_time),
                Some(creation_time),
                Some(tags),
            ) => Some(
                ExperimentModel {
                    experiment_id,
                    name,
                    artifact_location,
                    lifecycle_stage,
                    last_update_time,
                    creation_time,
                    tags,
                },
            ),
            _ => None,
        }
    }

    fn from_json(json: &Json) -> (value: Option<Self>) {
        let experiment_id = match json.text_field("experiment_id") {
            Some(id) => id.to_owned(),
            None => return None,
        };
        let name = match json.text_field("name") {
            Some(name) => name.to_owned(),
            None => return None,
        };
        let artifact_location = match json.text_field("artifact_location") {
            Some(location) => location.to_owned(),
            None => return None,
        };
        let lifecycle_stage = match json.record_field::<LifecycleStage>("lifecycle_stage") {
            Some(stage) => stage,
            None => return None,
        };
        let last_update_time = match json.optional_unsigned("last_update_time") {
            Some(time) => time,
            None => return None,
        };
        let creation_time = match json.optional_unsigned("creation_time") {
            Some(time) => time,
            None => return None,
        };
        let tags = match json.optional_list::<ExperimentTag>("tags") {
            Some(tags) => tags,
            None => return None,
        };
        Some(
            Experiment {
                experiment_id,
                name,
                artifact_location,
                lifecycle_stage,
                last_update_time,
                creation_time,
                tags,
            },
        )
    }
}

/// Metadata of a single run.
#[derive(Debug, Clone, PartialEq, Eq)]
pub struct RunInfo {
    /// Unique identifier for the run.
    pub run_id: String,
    /// The experiment ID.
    pub experiment_id: String,
    /// Current status of the run.
    pub status: RunStatus,
    /// Unix timestamp of when the run started in milliseconds.
    pub start_time: u64,
    /// Unix timestamp of when the run ended in milliseconds.
    pub end_time: Option<u64>,
    /// URI of the directory where artifacts should be uploaded.
    pub artifact_uri: String,
    /// Current life cycle stage of the run.
    pub lifecycle_stage: LifecycleStage,
}

/// The mathematical value of a [`RunInfo`].
pub ghost struct RunInfoModel {
    pub run_id: Seq<char>,
    pub experiment_id: Seq<char>,
    pub status: RunStatus,
    pub start_time: u64,
    pub end_time: Option<u64>,
    pub artifact_uri: Seq<char>,
    pub lifecycle_stage: LifecycleStage,
}

impl DeepView for RunInfo {
    type V = RunInfoModel;

    open spec fn deep_view(&self) -> RunInfoModel {
        RunInfoModel {
            run_id: self.run_id@,
            experiment_id: self.experiment_id@,
            status: self.status,
            start_time: self.start_time,
            end_time: self.end_time,
            artifact_uri: self.artifact_uri@,
            lifecycle_stage: self.lifecycle_stage,
        }
    }
}

impl FromJson for RunInfo {
    /// The two times travel as strings that spell decimal numerals.
    open spec fn decoded(json: JsonValue) -> Option<RunInfoModel> {
        match (
            json.text_field("run_id"@),
            json.text_field("experiment_id"@),
            json.record_field::<RunStatus>("status"@),
            json.decimal_field("start_time"@),
            json.optional_decimal("end_time"@),
            json.text_field("artifact_uri"@),
            json.record_field::<LifecycleStage>("lifecycle_stage"@),
        ) {
            (
                Some(run_id),
                Some(experiment_id),
                Some(status),
                Some(start_time),
                Some(end_time),
                Some(artifact_uri),
                Some(lifecycle_stage),
            ) => Some(
                RunInfoModel {
                    run_id,
                    experiment_id,
                    status,
                    start_time,
                    end_time,
                    artifact_uri,
                    lifecycle_stage,
                },
            ),
            _ => None,
        }
    }

    fn from_json(json: &Json) -> (value: Option<Self>) {
        let run_id = match json.text_field("run_id") {
            Some(id) => id.to_owned(),
            None => return None,
        };
        let experiment_id = match json.text_field("experiment_id") {
            Some(id) => id.to_owned(),
            None => return None,
        };
        let status = match json.record_field::<RunStatus>("status") {
            Some(status) => status,
            None => return None,
        };
        let start_time: u64 = match json.decimal_field("start_time") {
            Some(time) => time,
            None => return None,
        };
        let end_time = match json.optional_decimal("end_time") {
            Some(time) => time,
            None => return None,
        };
        let artifact_uri = match json.text_field("artifact_uri") {
            Some(uri) => uri.to_owned(),
            None => return None,
        };
        let lifecycle_stage = match json.record_field::<LifecycleStage>("lifecycle_stage") {
            Some(stage) => stage,
            None => return None,
        };
        Some(
            RunInfo {
                run_id,
                experiment_id,
                status,
                start_time,
                end_time,
                artifact_uri,
                lifecycle_stage,
            },
        )
    }
}

/// Run data (metrics, params, and tags).
#[derive(Debug, Clone, PartialEq)]
pub struct RunData {
    /// Run metrics.
    pub metrics: Vec<Metric>,
    /// Run parameters.
    pub params: Vec<Param>,
    /// Additional metadata key-value pairs.
    pub tags: Vec<RunTag>,
}

/// The mathematical value of a [`RunData`].
pub ghost struct RunDataModel {
    pub metrics: Seq<MetricModel>,
    pub params: Seq<Entry>,
    pub tags: Seq<Entry>,
}

impl DeepView for RunData {
    type V = RunDataModel;

    open spec fn deep_view(&self) -> RunDataModel {
        RunDataModel {
            metrics: self.metrics.deep_view(),
            params: self.params.deep_view(),
            tags: self.tags.deep_view(),
        }
    }
}

impl FromJson for RunData {
    /// Run data travels as an object; each of the three lists is empty where
    /// the object does not name it.
    open spec fn decoded(json: JsonValue) -> Option<RunDataModel> {
        match (
            json.is_object(),
            json.list_or_empty::<Metric>("metrics"@),
            json.list_or_empty::<Param>("params"@),
            json.list_or_empty::<RunTag>("tags"@),
        ) {
            (true, Some(metrics), Some(params), Some(tags)) => Some(
                RunDataModel { metrics, params, tags },
            ),
            _ => None,
        }
    }

    fn from_json(json: &Json) -> (value: Option<Self>) {
        if !json.is_object() {
            return None;
        }
        let metrics = match json.list_or_empty::<Metric>("metrics") {
            Some(metrics) => metrics,
            None => return None,
        };
        let params = match json.list_or_empty::<Param>("params") {
            Some(params) => params,
            None => return None,
        };
        let tags = match json.list_or_empty::<RunTag>("tags") {
            Some(tags) => tags,
            None => return None,
        };
        Some(RunData { metrics, params, tags })
    }
}

/// A single run.
#[derive(Debug, Clone, PartialEq)]
pub struct Run {
    /// Run metadata.
    pub info: RunInfo,
    /// Run data.
    pub data: Option<RunData>,
}

/// The mathematical value of a [`Run`].
pub ghost struct RunModel {
    pub info: RunInfoModel,
    pub data: Option<RunDataModel>,
}

impl DeepView for Run {
    type V = RunModel;

    open spec fn deep_view(&self) -> RunModel {
        RunModel { info: self.info.deep_view(), data: self.data.deep_view() }
    }
}

impl FromJson for Run {
    open spec fn decoded(json: JsonValue) -> Option<RunModel> {
        match (json.record_field::<RunInfo>("info"@), json.optional_record::<RunData>("data"@)) {
            (Some(info), Some(data)) => Some(RunModel { info, data }),
            _ => None,
        }
    }

    fn from_json(json: &Json) -> (value: Option<Self>) {
        let info = match json.record_field::<RunInfo>("info") {
            Some(info) => info,
            None => return None,
        };
        let data = match json.optional_record::<RunData>("data") {
            Some(data) => data,
            None => return None,
        };
        Some(Run { info, data })
    }
}

} // verus!
