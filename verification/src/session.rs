//! What a session is made of: its surroundings, its tasks, the reply that it
//! waits for, its steps. And, as mathematics, what each operation and each
//! reply makes of a session: the functions of [`Session`], which the
//! operations of the client are held to.

use crate::api::experiments::{
    create_experiment_request, delete_experiment_request, get_experiment_by_name_request,
    get_experiment_request, CreatedExperiment, FoundExperiment,
};
use crate::api::run_data::{
    delete_run_tag_request, log_batch_request, log_metric_request, log_param_request,
    set_run_tag_request,
};
use crate::api::runs::{
    create_run_request, delete_run_request, get_run_request, search_runs_request,
    update_run_request, FoundRun, RunPage, UpdatedRun,
};
use crate::api::{reply_result, Nothing};
use crate::errors::{
    ClientError, ClientErrorModel, CreateExperimentErrorCode, GetExperimentErrorCode,
};
use crate::json::{JsonNumber, NumberValue};
use crate::request::{ReplyModel, Request, RequestModel};
use crate::structures::{
    Entry, Metric, MetricModel, Param, Run, RunModel, RunStatus, RunTag, ViewType,
};
use vstd::prelude::*;

verus! {

/// What a session takes from its surroundings when it takes a step: the
/// time, the user, and the defaults that the surroundings name.
#[derive(Debug, Clone, PartialEq, Eq)]
pub struct Ambient {
    /// The time, in milliseconds since the Unix epoch.
    pub now_ms: u64,
    /// The name of the user in whose name runs are started.
    pub user: String,
    /// The run to resume where the caller names none.
    pub run_id: Option<String>,
    /// The name of the experiment to start runs in.
    pub experiment_name: Option<String>,
    /// The experiment to start runs in where no name is given.
    pub experiment_id: Option<String>,
}

/// The mathematical value of an [`Ambient`].
pub ghost struct AmbientModel {
    pub now_ms: u64,
    pub user: Seq<char>,
    pub run_id: Option<Seq<char>>,
    pub experiment_name: Option<Seq<char>>,
    pub experiment_id: Option<Seq<char>>,
}

impl DeepView for Ambient {
    type V = AmbientModel;

    open spec fn deep_view(&self) -> AmbientModel {
        AmbientModel {
            now_ms: self.now_ms,
            user: self.user@,
            run_id: self.run_id.deep_view(),
            experiment_name: self.experiment_name.deep_view(),
            experiment_id: self.experiment_id.deep_view(),
        }
    }
}

/// `whoami::username`: the name of the user that runs this process. The
/// name depends on the machine and on who uses it, so nothing is claimed of it.
#[verifier::external_body]
fn current_user() -> String {
    whoami::username()
}

impl Ambient {
    /// The surroundings as the caller found them, with the user that runs
    /// this process.
    pub fn observe(
        now_ms: u64,
        run_id: Option<String>,
        experiment_name: Option<String>,
        experiment_id: Option<String>,
    ) -> (ambient: Ambient)
        ensures
            ambient.now_ms == now_ms,
            ambient.run_id == run_id,
            ambient.experiment_name == experiment_name,
            ambient.experiment_id == experiment_id,
    {
        Ambient { now_ms, user: current_user(), run_id, experiment_name, experiment_id }
    }
}

/// What a session does under its active run.
#[derive(Debug, Clone, PartialEq)]
pub enum Task {
    /// Nothing more: the run was what was asked for.
    Report,
    LogParam { key: String, value: String },
    LogParams(Vec<Param>),
    LogMetric { key: String, measured: JsonNumber, step: u64 },
    LogMetrics(Vec<Metric>),
    SetTag { key: String, value: String },
    SetTags(Vec<RunTag>),
    DeleteTag { key: String },
}

/// The mathematical value of a [`Task`].
pub ghost enum TaskModel {
    Report,
    LogParam { key: Seq<char>, value: Seq<char> },
    LogParams(Seq<Entry>),
    LogMetric { key: Seq<char>, measured: NumberValue, step: u64 },
    LogMetrics(Seq<MetricModel>),
    SetTag { key: Seq<char>, value: Seq<char> },
    SetTags(Seq<Entry>),
    DeleteTag { key: Seq<char> },
}

impl DeepView for Task {
    type V = TaskModel;

    open spec fn deep_view(&self) -> TaskModel {
        match self {
            Task::Report => TaskModel::Report,
            Task::LogParam { key, value } => TaskModel::LogParam { key: key@, value: value@ },
            Task::LogParams(params) => TaskModel::LogParams(params.deep_view()),
            Task::LogMetric { key, measured, step } => TaskModel::LogMetric {
                key: key@,
                measured: measured.deep_view(),
                step: *step,
            },
            Task::LogMetrics(metrics) => TaskModel::LogMetrics(metrics.deep_view()),
            Task::SetTag { key, value } => TaskModel::SetTag { key: key@, value: value@ },
            Task::SetTags(tags) => TaskModel::SetTags(tags.deep_view()),
            Task::DeleteTag { key } => TaskModel::DeleteTag { key: key@ },
        }
    }
}

/// What a session does once its active experiment is settled.
#[derive(Debug, Clone, PartialEq)]
pub enum Goal {
    /// Nothing more: the experiment was what was asked for.
    Report,
    /// Start a run in the experiment, and go on under that run.
    StartRun { run_name: Option<String>, task: Task },
}

/// The mathematical value of a [`Goal`].
pub ghost enum GoalModel {
    Report,
    StartRun { run_name: Option<Seq<char>>, task: TaskModel },
}

impl DeepView for Goal {
    type V = GoalModel;

    open spec fn deep_view(&self) -> GoalModel {
        match self {
            Goal::Report => GoalModel::Report,
            Goal::StartRun { run_name, task } => GoalModel::StartRun {
                run_name: run_name.deep_view(),
                task: task.deep_view(),
            },
        }
    }
}

/// What the reply to an operation's last request is read as.
#[derive(Debug, Clone, PartialEq, Eq)]
pub enum Expect {
    /// An answer that tells nothing.
    Nothing,
    /// A run's metadata, of which nothing is handed on.
    RunInfo,
    /// A run.
    Run,
    /// A page of runs.
    Runs,
    /// A run, of which the place of the artifact at `path` is handed on.
    ArtifactUri { path: String },
}

/// The mathematical value of an [`Expect`].
pub ghost enum ExpectModel {
    Nothing,
    RunInfo,
    Run,
    Runs,
    ArtifactUri { path: Seq<char> },
}

impl DeepView for Expect {
    type V = ExpectModel;

    open spec fn deep_view(&self) -> ExpectModel {
        match self {
            Expect::Nothing => ExpectModel::Nothing,
            Expect::RunInfo => ExpectModel::RunInfo,
            Expect::Run => ExpectModel::Run,
            Expect::Runs => ExpectModel::Runs,
            Expect::ArtifactUri { path } => ExpectModel::ArtifactUri { path: path@ },
        }
    }
}

/// The reply that a session waits for, and what it will do with it.
#[derive(Debug, Clone, PartialEq)]
pub enum Pending {
    /// No reply.
    Idle,
    /// The experiment that the caller chose was asked for. Once it is
    /// found, it is the active experiment, and a run is started in it.
    ConfirmingExperiment { experiment_id: String, run_name: Option<String>, task: Task },
    /// An experiment was asked for by name. Once it is found, it is the
    /// active experiment; where it is not, it is created.
    FindingExperiment { name: String, goal: Goal },
    /// An experiment is being created. Once it is, it is the active
    /// experiment.
    CreatingExperiment { goal: Goal },
    /// A run is being created. Once it is, it is the active run.
    CreatingRun { task: Task },
    /// The run to resume was asked for. Once it is found, it is the active
    /// run.
    ConfirmingRun { run_id: String },
    /// The operation's last request is out.
    Finishing(Expect),
}

/// The mathematical value of a [`Pending`].
pub ghost enum PendingModel {
    Idle,
    ConfirmingExperiment { experiment_id: Seq<char>, run_name: Option<Seq<char>>, task: TaskModel },
    FindingExperiment { name: Seq<char>, goal: GoalModel },
    CreatingExperiment { goal: GoalModel },
    CreatingRun { task: TaskModel },
    ConfirmingRun { run_id: Seq<char> },
    Finishing(ExpectModel),
}

impl DeepView for Pending {
    type V = PendingModel;

    open spec fn deep_view(&self) -> PendingModel {
        match self {
            Pending::Idle => PendingModel::Idle,
            Pending::ConfirmingExperiment { experiment_id, run_name, task } => {
                PendingModel::ConfirmingExperiment {
                    experiment_id: experiment_id@,
                    run_name: run_name.deep_view(),
                    task: task.deep_view(),
                }
            },
            Pending::FindingExperiment { name, goal } => PendingModel::FindingExperiment {
                name: name@,
                goal: goal.deep_view(),
            },
            Pending::CreatingExperiment { goal } => PendingModel::CreatingExperiment {
                goal: goal.deep_view(),
            },
            Pending::CreatingRun { task } => PendingModel::CreatingRun { task: task.deep_view() },
            Pending::ConfirmingRun { run_id } => PendingModel::ConfirmingRun { run_id: run_id@ },
            Pending::Finishing(expect) => PendingModel::Finishing(expect.deep_view()),
        }
    }
}

/// How an operation ended.
#[derive(Debug, PartialEq)]
pub enum Outcome {
    /// It failed. A session does not say how: a caller that needs to know
    /// uses the stateless client.
    Failed,
    /// It did what was asked.
    Done,
    /// The experiment that is now the active one, or why none could be
    /// created.
    Experiment(Result<String, ClientError<CreateExperimentErrorCode>>),
    /// The run that was asked for.
    Run(Run),
    /// The runs that were found.
    Runs(Vec<Run>),
    /// The place of the artifact that was asked for.
    ArtifactUri(String),
}

/// The mathematical value of an [`Outcome`].
pub ghost enum OutcomeModel {
    Failed,
    Done,
    Experiment(Result<Seq<char>, ClientErrorModel<CreateExperimentErrorCode>>),
    Run(RunModel),
    Runs(Seq<RunModel>),
    ArtifactUri(Seq<char>),
}

impl DeepView for Outcome {
    type V = OutcomeModel;

    open spec fn deep_view(&self) -> OutcomeModel {
        match self {
            Outcome::Failed => OutcomeModel::Failed,
            Outcome::Done => OutcomeModel::Done,
            Outcome::Experiment(Ok(id)) => OutcomeModel::Experiment(Ok(id@)),
            Outcome::Experiment(Err(error)) => OutcomeModel::Experiment(Err(error.deep_view())),
            Outcome::Run(run) => OutcomeModel::Run(run.deep_view()),
            Outcome::Runs(runs) => OutcomeModel::Runs(runs.deep_view()),
            Outcome::ArtifactUri(uri) => OutcomeModel::ArtifactUri(uri@),
        }
    }
}

/// What an operation asks of its caller next.
#[derive(Debug, PartialEq)]
pub enum Step {
    /// Send this request, and hand the reply to [`MLflowClient::receive`].
    Send(Request),
    /// Nothing: the operation has ended.
    Finished(Outcome),
}

/// The mathematical value of a [`Step`].
pub ghost enum StepModel {
    Send(RequestModel),
    Finished(OutcomeModel),
}

impl DeepView for Step {
    type V = StepModel;

    open spec fn deep_view(&self) -> StepModel {
        match self {
            Step::Send(request) => StepModel::Send(request.deep_view()),
            Step::Finished(outcome) => StepModel::Finished(outcome.deep_view()),
        }
    }
}

/// The mathematical value of a session client.
pub ghost struct Session {
    pub active_experiment_id: Option<Seq<char>>,
    pub active_run_id: Option<Seq<char>>,
    /// The base URI of the tracking server.
    pub base: Seq<char>,
    pub pending: PendingModel,
}

/// The tags that a new run gets: the user in whose name it starts, and the
/// run's name where it has one.
pub open spec fn run_tags(user: Seq<char>, run_name: Option<Seq<char>>) -> Seq<Entry> {
    let named_user = Seq::empty().push(Entry { key: "mlflow.user"@, value: user });
    match run_name {
        Some(name) => named_user.push(Entry { key: "mlflow.runName"@, value: name }),
        None => named_user,
    }
}

/// The place of the artifact at `path` under the root `artifact_uri`.
pub open spec fn artifact_place(artifact_uri: Seq<char>, path: Seq<char>) -> Seq<char> {
    artifact_uri + "/"@ + path
}

/// The outcome that the reply to an operation's last request amounts to.
/// Whatever went wrong, the outcome is the one failure.
pub open spec fn last_outcome(expect: ExpectModel, reply: ReplyModel) -> OutcomeModel {
    match expect {
        ExpectModel::Nothing => match reply_result::<Nothing, GetExperimentErrorCode>(reply) {
            Ok(_) => OutcomeModel::Done,
            Err(_) => OutcomeModel::Failed,
        },
        ExpectModel::RunInfo => match reply_result::<UpdatedRun, GetExperimentErrorCode>(reply) {
            Ok(_) => OutcomeModel::Done,
            Err(_) => OutcomeModel::Failed,
        },
        ExpectModel::Run => match reply_result::<FoundRun, GetExperimentErrorCode>(reply) {
            Ok(run) => OutcomeModel::Run(run),
            Err(_) => OutcomeModel::Failed,
        },
        ExpectModel::Runs => match reply_result::<RunPage, GetExperimentErrorCode>(reply) {
            Ok(page) => OutcomeModel::Runs(page.0),
            Err(_) => OutcomeModel::Failed,
        },
        ExpectModel::ArtifactUri { path } => match reply_result::<
            FoundRun,
            GetExperimentErrorCode,
        >(reply) {
            Ok(run) => OutcomeModel::ArtifactUri(artifact_place(run.info.artifact_uri, path)),
            Err(_) => OutcomeModel::Failed,
        },
    }
}

impl Session {
    /// The session as it is when it waits for no reply.
    pub open spec fn idle(self) -> Session {
        Session { pending: PendingModel::Idle, ..self }
    }

    /// The session as it is when it waits for the reply that `pending` describes.
    pub open spec fn waiting(self, pending: PendingModel) -> Session {
        Session { pending, ..self }
    }

    /// An operation that ends at once.
    pub open spec fn ended(self, outcome: OutcomeModel) -> (Session, StepModel) {
        (self.idle(), StepModel::Finished(outcome))
    }

    /// An operation that sends its last request.
    pub open spec fn finishing(self, request: RequestModel, expect: ExpectModel) -> (
        Session,
        StepModel,
    ) {
        (self.waiting(PendingModel::Finishing(expect)), StepModel::Send(request))
    }

    /// The request that carries out `task` under the run `run_id`, where the
    /// task takes one. A metric that is logged alone is stamped with the
    /// time at which its request is made.
    pub open spec fn task_request(
        self,
        run_id: Seq<char>,
        task: TaskModel,
        ambient: AmbientModel,
    ) -> Option<RequestModel> {
        match task {
            TaskModel::Report => None,
            TaskModel::LogParam { key, value } => Some(
                log_param_request(self.base, run_id, key, value),
            ),
            TaskModel::LogParams(params) => Some(
                log_batch_request(self.base, run_id, None, Some(params), None),
            ),
            TaskModel::LogMetric { key, measured, step } => Some(
                log_metric_request(self.base, run_id, key, measured, ambient.now_ms, Some(step)),
            ),
            TaskModel::LogMetrics(metrics) => Some(
                log_batch_request(self.base, run_id, Some(metrics), None, None),
            ),
            TaskModel::SetTag { key, value } => Some(
                set_run_tag_request(self.base, run_id, key, value),
            ),
            TaskModel::SetTags(tags) => Some(
                log_batch_request(self.base, run_id, None, None, Some(tags)),
            ),
            TaskModel::DeleteTag { key } => Some(delete_run_tag_request(self.base, run_id, key)),
        }
    }

    /// Carries out `task` under the active run. Without an active run there
    /// is nothing to carry it out under, and the operation fails.
    pub open spec fn begin_task(self, task: TaskModel, ambient: AmbientModel) -> (
        Session,
        StepModel,
    ) {
        match self.active_run_id {
            None => self.ended(OutcomeModel::Failed),
            Some(run_id) => match self.task_request(run_id, task, ambient) {
                None => self.ended(OutcomeModel::Done),
                Some(request) => self.finishing(request, ExpectModel::Nothing),
            },
        }
    }

    /// Starts a run in the active experiment: the run starts now, in the
    /// name of the ambient user. Without an active experiment the operation
    /// fails.
    pub open spec fn begin_run(
        self,
        run_name: Option<Seq<char>>,
        task: TaskModel,
        ambient: AmbientModel,
    ) -> (Session, StepModel) {
        match self.active_experiment_id {
            None => self.ended(OutcomeModel::Failed),
            Some(experiment_id) => (
                self.waiting(PendingModel::CreatingRun { task }),
                StepModel::Send(
                    create_run_request(
                        self.base,
                        experiment_id,
                        Some(ambient.now_ms),
                        Some(run_tags(ambient.user, run_name)),
                    ),
                ),
            ),
        }
    }

    /// Asks for the experiment of the given name.
    pub open spec fn find_experiment(self, name: Seq<char>, goal: GoalModel) -> (
        Session,
        StepModel,
    ) {
        (
            self.waiting(PendingModel::FindingExperiment { name, goal }),
            StepModel::Send(get_experiment_by_name_request(self.base, name)),
        )
    }

    /// Goes on once the active experiment is settled, as `goal` asks.
    pub open spec fn settled(self, goal: GoalModel, ambient: AmbientModel) -> (Session, StepModel) {
        match goal {
            GoalModel::Report => match self.active_experiment_id {
                Some(experiment_id) => self.ended(OutcomeModel::Experiment(Ok(experiment_id))),
                None => self.ended(OutcomeModel::Failed),
            },
            GoalModel::StartRun { run_name, task } => self.begin_run(run_name, task, ambient),
        }
    }

    /// Asks the service for the experiment of the given ID, which is to be
    /// the active one once the service has confirmed it.
    pub open spec fn confirm_experiment(
        self,
        experiment_id: Seq<char>,
        run_name: Option<Seq<char>>,
        task: TaskModel,
    ) -> (Session, StepModel) {
        (
            self.waiting(PendingModel::ConfirmingExperiment { experiment_id, run_name, task }),
            StepModel::Send(get_experiment_request(self.base, experiment_id)),
        )
    }

    /// Starts a run, after settling the experiment to start it in. The
    /// experiment is the first of these that there is:
    ///
    /// 1. the experiment that the caller chose, once the service has
    ///    confirmed it;
    /// 2. the experiment of the ambient experiment name, created where the
    ///    service has none of that name;
    /// 3. the experiment of the ambient experiment ID, once the service has
    ///    confirmed it;
    /// 4. the active experiment;
    /// 5. the experiment named `Default`, created where the service has none
    ///    of that name.
    pub open spec fn start_run_internal(
        self,
        experiment_id: Option<Seq<char>>,
        run_name: Option<Seq<char>>,
        task: TaskModel,
        ambient: AmbientModel,
    ) -> (Session, StepModel) {
        let goal = GoalModel::StartRun { run_name, task };
        match experiment_id {
            Some(experiment_id) => self.confirm_experiment(experiment_id, run_name, task),
            None => match ambient.experiment_name {
                Some(name) => self.find_experiment(name, goal),
                None => match ambient.experiment_id {
                    Some(experiment_id) => self.confirm_experiment(experiment_id, run_name, task),
                    None => match self.active_experiment_id {
                        Some(_) => self.begin_run(run_name, task, ambient),
                        None => self.find_experiment("Default"@, goal),
                    },
                },
            },
        }
    }

    /// Carries out `task` under the active run, after starting a run where
    /// none is active.
    pub open spec fn ensure_active_run(self, task: TaskModel, ambient: AmbientModel) -> (
        Session,
        StepModel,
    ) {
        match self.active_run_id {
            Some(_) => self.begin_task(task, ambient),
            None => self.start_run_internal(None, None, task, ambient),
        }
    }

    /// Takes up an existing run: the one that the caller names, else the one
    /// that the surroundings name. The run is asked for first.
    pub open spec fn resume_run(self, run_id: Option<Seq<char>>, ambient: AmbientModel) -> (
        Session,
        StepModel,
    ) {
        let chosen = match run_id {
            Some(run_id) => Some(run_id),
            None => ambient.run_id,
        };
        match chosen {
            Some(run_id) => (
                self.waiting(PendingModel::ConfirmingRun { run_id }),
                StepModel::Send(get_run_request(self.base, run_id)),
            ),
            None => self.ended(OutcomeModel::Failed),
        }
    }

    /// Creates an experiment, to make it the active one.
    pub open spec fn create_experiment(
        self,
        experiment_name: Seq<char>,
        artifact_path: Option<Seq<char>>,
    ) -> (Session, StepModel) {
        (
            self.waiting(PendingModel::CreatingExperiment { goal: GoalModel::Report }),
            StepModel::Send(create_experiment_request(self.base, experiment_name, artifact_path)),
        )
    }

    /// Sets the status of the active run. A status that ends the run comes
    /// with the time now as the run's end; any other status with no end.
    pub open spec fn update_run_status(self, status: RunStatus, ambient: AmbientModel) -> (
        Session,
        StepModel,
    ) {
        let end_time = if status.terminal() {
            Some(ambient.now_ms)
        } else {
            None
        };
        match self.active_run_id {
            Some(run_id) => self.finishing(
                update_run_request(self.base, run_id, status, end_time),
                ExpectModel::RunInfo,
            ),
            None => self.ended(OutcomeModel::Failed),
        }
    }

    /// Asks for the active run.
    pub open spec fn active_run(self) -> (Session, StepModel) {
        match self.active_run_id {
            Some(run_id) => self.finishing(get_run_request(self.base, run_id), ExpectModel::Run),
            None => self.ended(OutcomeModel::Failed),
        }
    }

    /// Searches for runs: for active ones where no view type is given, and
    /// for no more than 100000 where no number is given; always from the
    /// first page.
    pub open spec fn search_runs(
        self,
        experiment_ids: Seq<Seq<char>>,
        filter_string: Option<Seq<char>>,
        run_view_type: Option<ViewType>,
        max_result: Option<u32>,
        order_by: Option<Seq<Seq<char>>>,
    ) -> (Session, StepModel) {
        self.finishing(
            search_runs_request(
                self.base,
                experiment_ids,
                filter_string,
                Some(
                    match run_view_type {
                        Some(view_type) => view_type,
                        None => ViewType::ActiveOnly,
                    },
                ),
                Some(
                    match max_result {
                        Some(n) => n,
                        None => 100000u32,
                    },
                ),
                order_by,
                None,
            ),
            ExpectModel::Runs,
        )
    }

    /// Asks for the deletion of an experiment.
    pub open spec fn delete_experiment(self, experiment_id: Seq<char>) -> (Session, StepModel) {
        self.finishing(delete_experiment_request(self.base, experiment_id), ExpectModel::Nothing)
    }

    /// Asks for the deletion of a run. Neither the active experiment nor the
    /// active run changes, also where the run is the active one.
    pub open spec fn delete_run(self, run_id: Seq<char>) -> (Session, StepModel) {
        self.finishing(delete_run_request(self.base, run_id), ExpectModel::Nothing)
    }

    /// Asks for the active run, to tell where the artifact at
    /// `artifact_path` is; without a path, where the run's artifacts are.
    pub open spec fn get_artifact_uri(self, artifact_path: Option<Seq<char>>) -> (
        Session,
        StepModel,
    ) {
        let path = match artifact_path {
            Some(path) => path,
            None => Seq::empty(),
        };
        match self.active_run_id {
            Some(run_id) => self.finishing(
                get_run_request(self.base, run_id),
                ExpectModel::ArtifactUri { path },
            ),
            None => self.ended(OutcomeModel::Failed),
        }
    }

    /// Takes the reply that the session waits for, and goes on with the
    /// operation that it belongs to.
    pub open spec fn received(self, reply: ReplyModel, ambient: AmbientModel) -> (
        Session,
        StepModel,
    ) {
        match self.pending {
            PendingModel::Idle => self.ended(OutcomeModel::Failed),
            PendingModel::ConfirmingExperiment { experiment_id, run_name, task } => {
                match reply_result::<FoundExperiment, GetExperimentErrorCode>(reply) {
                    Ok(_) => (Session {
                        active_experiment_id: Some(experiment_id),
                        ..self
                    }).begin_run(run_name, task, ambient),
                    Err(_) => self.ended(OutcomeModel::Failed),
                }
            },
            PendingModel::FindingExperiment { name, goal } => {
                match reply_result::<FoundExperiment, GetExperimentErrorCode>(reply) {
                    Ok(found) => (Session {
                        active_experiment_id: Some(found.experiment_id),
                        ..self
                    }).settled(goal, ambient),
                    Err(_) => (
                        self.waiting(PendingModel::CreatingExperiment { goal }),
                        StepModel::Send(create_experiment_request(self.base, name, None)),
                    ),
                }
            },
            PendingModel::CreatingExperiment { goal } => {
                match reply_result::<CreatedExperiment, CreateExperimentErrorCode>(reply) {
                    Ok(experiment_id) => (Session {
                        active_experiment_id: Some(experiment_id),
                        ..self
                    }).settled(goal, ambient),
                    Err(error) => match goal {
                        GoalModel::Report => self.ended(OutcomeModel::Experiment(Err(error))),
                        GoalModel::StartRun { .. } => self.ended(OutcomeModel::Failed),
                    },
                }
            },
            PendingModel::CreatingRun { task } => {
                match reply_result::<FoundRun, GetExperimentErrorCode>(reply) {
                    Ok(run) => (Session {
                        active_run_id: Some(run.info.run_id),
                        ..self
                    }).begin_task(task, ambient),
                    Err(_) => self.ended(OutcomeModel::Failed),
                }
            },
            PendingModel::ConfirmingRun { run_id } => {
                match reply_result::<FoundRun, GetExperimentErrorCode>(reply) {
                    Ok(_) => (Session { active_run_id: Some(run_id), ..self }).ended(
                        OutcomeModel::Done,
                    ),
                    Err(_) => self.ended(OutcomeModel::Failed),
                }
            },
            PendingModel::Finishing(expect) => self.ended(last_outcome(expect, reply)),
        }
    }
}

impl Session {
    /// Whether the session's state is `other`'s but for what it waits for.
    pub open spec fn same_actives(self, other: Session) -> bool {
        &&& self.active_experiment_id == other.active_experiment_id
        &&& self.active_run_id == other.active_run_id
        &&& self.base == other.base
    }

    /// A session never moves to another tracking server: whatever reply
    /// comes, the base URI stays.
    pub proof fn lemma_receive_keeps_base(self, reply: ReplyModel, ambient: AmbientModel)
        ensures
            self.received(reply, ambient).0.base == self.base,
    {
    }

    /// Once an operation has ended, the session waits for nothing; while it
    /// goes on, the session waits for the reply to the request just made.
    pub proof fn lemma_waits_while_sending(self, reply: ReplyModel, ambient: AmbientModel)
        ensures
            self.received(reply, ambient).1 is Finished <==> self.received(
                reply,
                ambient,
            ).0.pending is Idle,
    {
    }

    /// The step that reports a failure leaves the active experiment and the
    /// active run as they were.
    pub proof fn lemma_failure_changes_nothing(self, reply: ReplyModel, ambient: AmbientModel)
        requires
            self.received(reply, ambient).1 == StepModel::Finished(OutcomeModel::Failed),
        ensures
            self.received(reply, ambient).0.same_actives(self),
    {
    }

    /// A run becomes the active one only as the service's answer: it is the
    /// run that the service has just created, or the run that the caller
    /// asked to resume and the service has just confirmed.
    pub proof fn lemma_active_run_comes_from_service(
        self,
        reply: ReplyModel,
        ambient: AmbientModel,
    )
        requires
            self.received(reply, ambient).0.active_run_id != self.active_run_id,
        ensures
            match (self.pending, reply_result::<FoundRun, GetExperimentErrorCode>(reply)) {
                (PendingModel::CreatingRun { .. }, Ok(run)) => self.received(
                    reply,
                    ambient,
                ).0.active_run_id == Some(run.info.run_id),
                (PendingModel::ConfirmingRun { run_id }, Ok(_)) => self.received(
                    reply,
                    ambient,
                ).0.active_run_id == Some(run_id),
                _ => false,
            },
    {
    }

    /// Setting or creating an experiment ends with the experiment that is now
    /// the active one, or with the reason why none could be created: never
    /// with the failure that tells nothing. Before it ends, it creates the
    /// experiment that it did not find.
    pub proof fn lemma_experiment_is_reported(self, reply: ReplyModel, ambient: AmbientModel)
        requires
            self.pending matches PendingModel::FindingExperiment { goal: GoalModel::Report, .. }
                || self.pending == (PendingModel::CreatingExperiment { goal: GoalModel::Report }),
        ensures
            match self.received(reply, ambient) {
                (next, StepModel::Send(request)) => self.pending matches PendingModel::FindingExperiment {
                    name,
                    ..
                } && request == create_experiment_request(self.base, name, None) && next.pending == (
                PendingModel::CreatingExperiment { goal: GoalModel::Report }),
                (next, StepModel::Finished(OutcomeModel::Experiment(Ok(experiment_id)))) =>
                    next.active_experiment_id == Some(experiment_id),
                (next, StepModel::Finished(OutcomeModel::Experiment(Err(_)))) => next.same_actives(
                    self,
                ),
                _ => false,
            },
    {
    }

    /// The ambient experiment ID names the experiment to use. Where the caller
    /// chooses no experiment and the surroundings name none by name, the
    /// service is asked for the experiment of that ID; once it has confirmed
    /// it, that ID is the active experiment, and the run is created in it.
    pub proof fn lemma_ambient_experiment_id_is_used(
        self,
        experiment_id: Seq<char>,
        run_name: Option<Seq<char>>,
        task: TaskModel,
        ambient: AmbientModel,
        reply: ReplyModel,
        later: AmbientModel,
    )
        requires
            ambient.experiment_name is None,
            ambient.experiment_id == Some(experiment_id),
            reply_result::<FoundExperiment, GetExperimentErrorCode>(reply) is Ok,
        ensures
            self.start_run_internal(None, run_name, task, ambient).1 == StepModel::Send(
                get_experiment_request(self.base, experiment_id),
            ),
            self.start_run_internal(None, run_name, task, ambient).0.received(reply, later)
                == (
                Session {
                    active_experiment_id: Some(experiment_id),
                    pending: PendingModel::CreatingRun { task },
                    ..self
                },
                StepModel::Send(
                    create_run_request(
                        self.base,
                        experiment_id,
                        Some(later.now_ms),
                        Some(run_tags(later.user, run_name)),
                    ),
                ),
            ),
    {
    }

    /// Logging needs no run to be started first: with no active run, a task
    /// begins by settling the experiment or by creating the run, and never
    /// fails at once.
    pub proof fn lemma_logging_starts_a_run(self, task: TaskModel, ambient: AmbientModel)
        requires
            self.active_run_id is None,
        ensures
            self.ensure_active_run(task, ambient).1 is Send,
            self.ensure_active_run(task, ambient).0.pending is FindingExperiment
                || self.ensure_active_run(task, ambient).0.pending is ConfirmingExperiment
                || self.ensure_active_run(task, ambient).0.pending is CreatingRun,
    {
    }

    /// What is logged goes to the active run: once the run is created, the
    /// task's request names the run that the service answered with.
    pub proof fn lemma_task_goes_to_new_run(
        self,
        task: TaskModel,
        reply: ReplyModel,
        ambient: AmbientModel,
        run: RunModel,
    )
        requires
            self.pending == (PendingModel::CreatingRun { task }),
            reply_result::<FoundRun, GetExperimentErrorCode>(reply) == Ok::<
                RunModel,
                ClientErrorModel<GetExperimentErrorCode>,
            >(run),
        ensures
            self.received(reply, ambient).0.active_run_id == Some(run.info.run_id),
            match self.task_request(run.info.run_id, task, ambient) {
                Some(request) => self.received(reply, ambient).1 == StepModel::Send(request),
                None => self.received(reply, ambient).1 == StepModel::Finished(OutcomeModel::Done),
            },
    {
    }
}

} // verus!
