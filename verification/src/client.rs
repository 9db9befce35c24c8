//! The session client: an active experiment, an active run, and the calls
//! that it takes to keep both as the caller's operations ask.
//!
//! A session performs no exchange itself. Each operation answers with a
//! [`Step`]: either a request to send, or the operation's outcome. The caller
//! sends the request and hands the reply to [`MLflowClient::receive`], which
//! answers with the next step, until the outcome is there.

use crate::api::MLflowAPI;
use crate::errors::{SetupError, SetupErrorModel};
use crate::json::JsonNumber;
use crate::request::{Reply, Request};
use crate::session::{
    last_outcome, run_tags, GoalModel, PendingModel, Session, TaskModel,
};
use crate::structures::{Metric, Param, RunStatus, RunTag, ViewType};
use crate::text::{borrowed_text, owned_text};
use crate::wire::{borrow_all, duplicate_all};
use vstd::prelude::*;

pub use crate::session::{Ambient, Expect, Goal, Outcome, Pending, Step, Task};

verus! {

/// MLflow client: helper methods for starting and managing runs.
#[derive(Debug, Clone, PartialEq)]
pub struct MLflowClient {
    active_experiment_id: Option<String>,
    active_run_id: Option<String>,
    /// API client that says what to send to MLflow.
    pub api: MLflowAPI,
    pending: Pending,
}

impl DeepView for MLflowClient {
    type V = Session;

    closed spec fn deep_view(&self) -> Session {
        Session {
            active_experiment_id: self.active_experiment_id.deep_view(),
            active_run_id: self.active_run_id.deep_view(),
            base: self.api@,
            pending: self.pending.deep_view(),
        }
    }
}

/// The tags that a new run gets.
pub fn new_run_tags(user: &str, run_name: Option<&str>) -> (tags: Vec<RunTag>)
    ensures
        tags.deep_view() == run_tags(user@, run_name.deep_view()),
{
    let mut tags: Vec<RunTag> = Vec::new();
    tags.push(RunTag { key: "mlflow.user".to_owned(), value: user.to_owned() });
    match run_name {
        Some(name) => {
            tags.push(RunTag { key: "mlflow.runName".to_owned(), value: name.to_owned() });
        },
        None => {},
    }
    assert(tags.deep_view() =~= run_tags(user@, run_name.deep_view()));
    tags
}

impl MLflowClient {
    /// An operation that ends at once.
    fn ended(&mut self, outcome: Outcome) -> (step: Step)
        ensures
            (final(self).deep_view(), step.deep_view()) == old(self).deep_view().ended(
                outcome.deep_view(),
            ),
    {
        self.pending = Pending::Idle;
        Step::Finished(outcome)
    }

    /// An operation that sends its last request.
    fn finishing(&mut self, request: Request, expect: Expect) -> (step: Step)
        ensures
            (final(self).deep_view(), step.deep_view()) == old(self).deep_view().finishing(
                request.deep_view(),
                expect.deep_view(),
            ),
    {
        self.pending = Pending::Finishing(expect);
        Step::Send(request)
    }

    /// The request that carries out `task` under the run `run_id`.
    fn task_request(&self, run_id: &str, task: Task, ambient: &Ambient) -> (request: Option<
        Request,
    >)
        ensures
            request.deep_view() == self.deep_view().task_request(
                run_id@,
                task.deep_view(),
                ambient.deep_view(),
            ),
    {
        match task {
            Task::Report => None,
            Task::LogParam { key, value } => Some(
                self.api.log_param(run_id, key.as_str(), value.as_str()),
            ),
            Task::LogParams(params) => {
                let borrowed = borrow_all(&params);
                Some(self.api.log_batch(run_id, None, Some(borrowed.as_slice()), None))
            },
            Task::LogMetric { key, measured, step } => Some(
                self.api.log_metric(run_id, key.as_str(), &measured, ambient.now_ms, Some(step)),
            ),
            Task::LogMetrics(metrics) => {
                let borrowed = borrow_all(&metrics);
                Some(self.api.log_batch(run_id, Some(borrowed.as_slice()), None, None))
            },
            Task::SetTag { key, value } => Some(
                self.api.set_run_tag(run_id, key.as_str(), value.as_str()),
            ),
            Task::SetTags(tags) => {
                let borrowed = borrow_all(&tags);
                Some(self.api.log_batch(run_id, None, None, Some(borrowed.as_slice())))
            },
            Task::DeleteTag { key } => Some(self.api.delete_run_tag(run_id, key.as_str())),
        }
    }

    /// Carries out `task` under the active run.
    fn begin_task(&mut self, task: Task, ambient: &Ambient) -> (step: Step)
        ensures
            (final(self).deep_view(), step.deep_view()) == old(self).deep_view().begin_task(
                task.deep_view(),
                ambient.deep_view(),
            ),
    {
        let request = match &self.active_run_id {
            None => {
                return self.ended(Outcome::Failed);
            },
            Some(run_id) => self.task_request(run_id.as_str(), task, ambient),
        };
        match request {
            None => self.ended(Outcome::Done),
            Some(request) => self.finishing(request, Expect::Nothing),
        }
    }

    /// Starts a run in the active experiment.
    fn begin_run(&mut self, run_name: Option<String>, task: Task, ambient: &Ambient) -> (step: Step)
        ensures
            (final(self).deep_view(), step.deep_view()) == old(self).deep_view().begin_run(
                run_name.deep_view(),
                task.deep_view(),
                ambient.deep_view(),
            ),
    {
        let request = match &self.active_experiment_id {
            None => {
                return self.ended(Outcome::Failed);
            },
            Some(experiment_id) => self.api.create_run(
                experiment_id.as_str(),
                Some(ambient.now_ms),
                Some(new_run_tags(ambient.user.as_str(), borrowed_text(&run_name))),
            ),
        };
        self.pending = Pending::CreatingRun { task };
        Step::Send(request)
    }

    /// Asks for the experiment of the given name.
    fn find_experiment(&mut self, name: String, goal: Goal) -> (step: Step)
        ensures
            (final(self).deep_view(), step.deep_view()) == old(self).deep_view().find_experiment(
                name@,
                goal.deep_view(),
            ),
    {
        let request = self.api.get_experiment_by_name(name.as_str());
        self.pending = Pending::FindingExperiment { name, goal };
        Step::Send(request)
    }

    /// Asks the service for the experiment of the given ID.
    fn confirm_experiment(&mut self, experiment_id: String, run_name: Option<String>, task: Task) -> (step:
        Step)
        ensures
            (final(self).deep_view(), step.deep_view()) == old(
                self,
            ).deep_view().confirm_experiment(
                experiment_id@,
                run_name.deep_view(),
                task.deep_view(),
            ),
    {
        let request = self.api.get_experiment(experiment_id.as_str());
        self.pending = Pending::ConfirmingExperiment { experiment_id, run_name, task };
        Step::Send(request)
    }

    /// Goes on once the active experiment is settled.
    fn settled(&mut self, goal: Goal, ambient: &Ambient) -> (step: Step)
        ensures
            (final(self).deep_view(), step.deep_view()) == old(self).deep_view().settled(
                goal.deep_view(),
                ambient.deep_view(),
            ),
    {
        match goal {
            Goal::Report => {
                let outcome = match &self.active_experiment_id {
                    Some(experiment_id) => Outcome::Experiment(Ok(experiment_id.clone())),
                    None => Outcome::Failed,
                };
                self.ended(outcome)
            },
            Goal::StartRun { run_name, task } => self.begin_run(run_name, task, ambient),
        }
    }

    /// Starts a run, after settling the experiment to start it in.
    fn start_run_internal(
        &mut self,
        experiment_id: Option<&str>,
        run_name: Option<&str>,
        task: Task,
        ambient: &Ambient,
    ) -> (step: Step)
        ensures
            (final(self).deep_view(), step.deep_view()) == old(
                self,
            ).deep_view().start_run_internal(
                experiment_id.deep_view(),
                run_name.deep_view(),
                task.deep_view(),
                ambient.deep_view(),
            ),
    {
        let run_name = owned_text(run_name);
        match experiment_id {
            Some(experiment_id) => self.confirm_experiment(
                experiment_id.to_owned(),
                run_name,
                task,
            ),
            None => match &ambient.experiment_name {
                Some(name) => self.find_experiment(name.clone(), Goal::StartRun { run_name, task }),
                None => match &ambient.experiment_id {
                    Some(experiment_id) => self.confirm_experiment(
                        experiment_id.clone(),
                        run_name,
                        task,
                    ),
                    None => {
                        if self.active_experiment_id.is_some() {
                            self.begin_run(run_name, task, ambient)
                        } else {
                            self.find_experiment(
                                "Default".to_owned(),
                                Goal::StartRun { run_name, task },
                            )
                        }
                    },
                },
            },
        }
    }

    /// Carries out `task` under the active run, after starting a run where
    /// none is active.
    fn ensure_active_run(&mut self, task: Task, ambient: &Ambient) -> (step: Step)
        ensures
            (final(self).deep_view(), step.deep_view()) == old(
                self,
            ).deep_view().ensure_active_run(task.deep_view(), ambient.deep_view()),
    {
        if self.active_run_id.is_some() {
            self.begin_task(task, ambient)
        } else {
            self.start_run_internal(None, None, task, ambient)
        }
    }
}

impl MLflowClient {
    /// A session with the tracking server that the surroundings name. Where
    /// they name none, the words that say so are treated as the URI, and
    /// come back in the error.
    pub fn new(tracking_uri: Option<&str>) -> (made: Result<MLflowClient, SetupError>)
        ensures
            made is Ok <==> crate::api::url_parses(Self::tracking_uri_or_words(tracking_uri.deep_view())),
            made matches Ok(client) ==> client.deep_view() == Self::fresh(
                Self::tracking_uri_or_words(tracking_uri.deep_view()),
            ),
            made matches Err(error) ==> error.deep_view() == SetupErrorModel::InvalidUrl(
                Self::tracking_uri_or_words(tracking_uri.deep_view()),
            ),
    {
        match tracking_uri {
            Some(uri) => Self::new_with_tracking_uri(uri),
            None => Self::new_with_tracking_uri("Missing MLFLOW_TRACKING_URI"),
        }
    }

    /// The tracking URI, or the words that stand in for a missing one.
    pub open spec fn tracking_uri_or_words(tracking_uri: Option<Seq<char>>) -> Seq<char> {
        match tracking_uri {
            Some(uri) => uri,
            None => "Missing MLFLOW_TRACKING_URI"@,
        }
    }

    /// A session that has just begun: nothing is active, and no reply is
    /// waited for.
    pub open spec fn fresh(base: Seq<char>) -> Session {
        Session {
            active_experiment_id: None,
            active_run_id: None,
            base,
            pending: PendingModel::Idle,
        }
    }

    /// A session with the tracking server at `uri`, which must parse as an
    /// absolute URL.
    pub fn new_with_tracking_uri(uri: &str) -> (made: Result<MLflowClient, SetupError>)
        ensures
            made is Ok <==> crate::api::url_parses(uri@),
            made matches Ok(client) ==> client.deep_view() == Self::fresh(uri@),
            made matches Err(error) ==> error.deep_view() == SetupErrorModel::InvalidUrl(uri@),
    {
        match MLflowAPI::new(uri) {
            Ok(api) => Ok(Self::with_api(api)),
            Err(error) => Err(error),
        }
    }

    /// A session on a client that is already made.
    pub fn with_api(api: MLflowAPI) -> (client: MLflowClient)
        ensures
            client.deep_view() == Self::fresh(api@),
    {
        MLflowClient { active_experiment_id: None, active_run_id: None, api, pending: Pending::Idle }
    }

    /// The active experiment.
    pub fn active_experiment_id(&self) -> (id: Option<&str>)
        ensures
            id.deep_view() == self.deep_view().active_experiment_id,
    {
        borrowed_text(&self.active_experiment_id)
    }

    /// The active run.
    pub fn active_run_id(&self) -> (id: Option<&str>)
        ensures
            id.deep_view() == self.deep_view().active_run_id,
    {
        borrowed_text(&self.active_run_id)
    }

    /// Whether the session waits for a reply.
    pub fn is_waiting(&self) -> (waiting: bool)
        ensures
            waiting == !(self.deep_view().pending is Idle),
    {
        match &self.pending {
            Pending::Idle => false,
            _ => true,
        }
    }

    /// Takes up an existing run: the one that the caller names, else the one
    /// that the surroundings name; the operation fails where neither names
    /// one. The service is asked for the run, and the run is the active one
    /// once the service has answered with it.
    pub fn resume_run(&mut self, run_id: Option<&str>, ambient: &Ambient) -> (step: Step)
        ensures
            (final(self).deep_view(), step.deep_view()) == old(self).deep_view().resume_run(
                run_id.deep_view(),
                ambient.deep_view(),
            ),
    {
        let chosen = match run_id {
            Some(run_id) => Some(run_id),
            None => borrowed_text(&ambient.run_id),
        };
        match chosen {
            Some(run_id) => {
                let request = self.api.get_run(run_id);
                self.pending = Pending::ConfirmingRun { run_id: run_id.to_owned() };
                Step::Send(request)
            },
            None => self.ended(Outcome::Failed),
        }
    }

    /// Starts a run of the given name, in the experiment that the
    /// surroundings name by its name or else by its ID, else in the active
    /// one, else in the experiment `Default`.
    pub fn start_run(&mut self, run_name: &str, ambient: &Ambient) -> (step: Step)
        ensures
            (final(self).deep_view(), step.deep_view()) == old(
                self,
            ).deep_view().start_run_internal(
                None,
                Some(run_name@),
                TaskModel::Report,
                ambient.deep_view(),
            ),
    {
        self.start_run_internal(None, Some(run_name), Task::Report, ambient)
    }

    /// Starts a run of the given name in the given experiment.
    pub fn start_run_in_experiment(
        &mut self,
        experiment_id: &str,
        run_name: &str,
        ambient: &Ambient,
    ) -> (step: Step)
        ensures
            (final(self).deep_view(), step.deep_view()) == old(
                self,
            ).deep_view().start_run_internal(
                Some(experiment_id@),
                Some(run_name@),
                TaskModel::Report,
                ambient.deep_view(),
            ),
    {
        self.start_run_internal(Some(experiment_id), Some(run_name), Task::Report, ambient)
    }

    /// Set given experiment as active experiment. If the experiment does not
    /// exist, an experiment of that name is created.
    pub fn set_experiment(&mut self, experiment_name: &str) -> (step: Step)
        ensures
            (final(self).deep_view(), step.deep_view()) == old(self).deep_view().find_experiment(
                experiment_name@,
                GoalModel::Report,
            ),
    {
        self.find_experiment(experiment_name.to_owned(), Goal::Report)
    }

    /// Create an experiment, and make it the active one.
    pub fn create_experiment(&mut self, experiment_name: &str, artifact_path: Option<&str>) -> (step:
        Step)
        ensures
            (final(self).deep_view(), step.deep_view()) == old(
                self,
            ).deep_view().create_experiment(experiment_name@, artifact_path.deep_view()),
    {
        let request = self.api.create_experiment(experiment_name, artifact_path);
        self.pending = Pending::CreatingExperiment { goal: Goal::Report };
        Step::Send(request)
    }

    /// Log a parameter under the current run, creating a run if necessary.
    pub fn log_param(&mut self, key: &str, value: &str, ambient: &Ambient) -> (step: Step)
        ensures
            (final(self).deep_view(), step.deep_view()) == old(
                self,
            ).deep_view().ensure_active_run(
                TaskModel::LogParam { key: key@, value: value@ },
                ambient.deep_view(),
            ),
    {
        self.ensure_active_run(
            Task::LogParam { key: key.to_owned(), value: value.to_owned() },
            ambient,
        )
    }

    /// Log a batch of params for the current run, starting a run if no run
    /// is active.
    pub fn log_params(&mut self, params: &[&Param], ambient: &Ambient) -> (step: Step)
        ensures
            (final(self).deep_view(), step.deep_view()) == old(
                self,
            ).deep_view().ensure_active_run(
                TaskModel::LogParams(params.deep_view()),
                ambient.deep_view(),
            ),
    {
        self.ensure_active_run(Task::LogParams(duplicate_all(params)), ambient)
    }

    /// Log a metric under the current run, creating a run if necessary.
    pub fn log_metric(&mut self, key: &str, value: &JsonNumber, ambient: &Ambient) -> (step: Step)
        ensures
            (final(self).deep_view(), step.deep_view()) == old(
                self,
            ).deep_view().ensure_active_run(
                TaskModel::LogMetric { key: key@, measured: value.deep_view(), step: 0 },
                ambient.deep_view(),
            ),
    {
        self.log_metric_at_step(key, value, 0, ambient)
    }

    /// Log a metric under the current run at step, creating a run if
    /// necessary.
    pub fn log_metric_at_step(
        &mut self,
        key: &str,
        value: &JsonNumber,
        step: u64,
        ambient: &Ambient,
    ) -> (next: Step)
        ensures
            (final(self).deep_view(), next.deep_view()) == old(
                self,
            ).deep_view().ensure_active_run(
                TaskModel::LogMetric { key: key@, measured: value.deep_view(), step },
                ambient.deep_view(),
            ),
    {
        self.ensure_active_run(
            Task::LogMetric { key: key.to_owned(), measured: value.duplicate(), step },
            ambient,
        )
    }

    /// Log a batch of metrics for the current run, starting a run if no run
    /// is active.
    pub fn log_metrics(&mut self, metrics: &[&Metric], ambient: &Ambient) -> (step: Step)
        ensures
            (final(self).deep_view(), step.deep_view()) == old(
                self,
            ).deep_view().ensure_active_run(
                TaskModel::LogMetrics(metrics.deep_view()),
                ambient.deep_view(),
            ),
    {
        self.ensure_active_run(Task::LogMetrics(duplicate_all(metrics)), ambient)
    }

    /// Set a tag under the current run, creating a run if necessary.
    pub fn set_tag(&mut self, key: &str, value: &str, ambient: &Ambient) -> (step: Step)
        ensures
            (final(self).deep_view(), step.deep_view()) == old(
                self,
            ).deep_view().ensure_active_run(
                TaskModel::SetTag { key: key@, value: value@ },
                ambient.deep_view(),
            ),
    {
        self.ensure_active_run(
            Task::SetTag { key: key.to_owned(), value: value.to_owned() },
            ambient,
        )
    }

    /// Log a batch of tags for the current run, starting a run if no run is
    /// active.
    pub fn set_tags(&mut self, tags: &[&RunTag], ambient: &Ambient) -> (step: Step)
        ensures
            (final(self).deep_view(), step.deep_view()) == old(
                self,
            ).deep_view().ensure_active_run(
                TaskModel::SetTags(tags.deep_view()),
                ambient.deep_view(),
            ),
    {
        self.ensure_active_run(Task::SetTags(duplicate_all(tags)), ambient)
    }

    /// Delete a tag from the current run, creating a run if necessary.
    pub fn delete_tag(&mut self, key: &str, ambient: &Ambient) -> (step: Step)
        ensures
            (final(self).deep_view(), step.deep_view()) == old(
                self,
            ).deep_view().ensure_active_run(
                TaskModel::DeleteTag { key: key@ },
                ambient.deep_view(),
            ),
    {
        self.ensure_active_run(Task::DeleteTag { key: key.to_owned() }, ambient)
    }

    /// Get the currently active run. The operation fails where no run is
    /// active.
    pub fn active_run(&mut self) -> (step: Step)
        ensures
            (final(self).deep_view(), step.deep_view()) == old(self).deep_view().active_run(),
    {
        let request = match &self.active_run_id {
            Some(run_id) => self.api.get_run(run_id.as_str()),
            None => {
                return self.ended(Outcome::Failed);
            },
        };
        self.finishing(request, Expect::Run)
    }

    /// End the active run as finished.
    pub fn end_run(&mut self, ambient: &Ambient) -> (step: Step)
        ensures
            (final(self).deep_view(), step.deep_view()) == old(
                self,
            ).deep_view().update_run_status(RunStatus::Finished, ambient.deep_view()),
    {
        self.update_run_status(RunStatus::Finished, ambient)
    }

    /// Update the active run with the specified status. The operation fails
    /// where no run is active.
    pub fn update_run_status(&mut self, status: RunStatus, ambient: &Ambient) -> (step: Step)
        ensures
            (final(self).deep_view(), step.deep_view()) == old(
                self,
            ).deep_view().update_run_status(status, ambient.deep_view()),
    {
        let end_time = if status.is_terminal() {
            Some(ambient.now_ms)
        } else {
            None
        };
        let request = match &self.active_run_id {
            Some(run_id) => self.api.update_run(run_id.as_str(), status, end_time),
            None => {
                return self.ended(Outcome::Failed);
            },
        };
        self.finishing(request, Expect::RunInfo)
    }

    /// Get a list of runs that fit the search criteria.
    pub fn search_runs(
        &mut self,
        experiment_ids: &[&str],
        filter_string: Option<&str>,
        run_view_type: Option<ViewType>,
        max_result: Option<u32>,
        order_by: Option<Vec<String>>,
    ) -> (step: Step)
        ensures
            (final(self).deep_view(), step.deep_view()) == old(self).deep_view().search_runs(
                experiment_ids.deep_view(),
                filter_string.deep_view(),
                run_view_type,
                max_result,
                order_by.deep_view(),
            ),
    {
        let view_type = match run_view_type {
            Some(view_type) => view_type,
            None => ViewType::ActiveOnly,
        };
        let limit: u32 = match max_result {
            Some(n) => n,
            None => 100000,
        };
        let request = self.api.search_runs(
            experiment_ids,
            filter_string,
            Some(view_type),
            Some(limit),
            order_by,
            None,
        );
        self.finishing(request, Expect::Runs)
    }

    /// Delete an experiment from the backend store.
    pub fn delete_experiment(&mut self, experiment_id: &str) -> (step: Step)
        ensures
            (final(self).deep_view(), step.deep_view()) == old(
                self,
            ).deep_view().delete_experiment(experiment_id@),
    {
        let request = self.api.delete_experiment(experiment_id);
        self.finishing(request, Expect::Nothing)
    }

    /// Deletes a run with the given ID.
    pub fn delete_run(&mut self, run_id: &str) -> (step: Step)
        ensures
            (final(self).deep_view(), step.deep_view()) == old(self).deep_view().delete_run(
                run_id@,
            ),
    {
        let request = self.api.delete_run(run_id);
        self.finishing(request, Expect::Nothing)
    }

    /// Get the absolute URI of the specified artifact in the currently
    /// active run. If no path is given, the artifact root URI of the
    /// currently active run, with a slash at its end.
    pub fn get_artifact_uri(&mut self, artifact_path: Option<&str>) -> (step: Step)
        ensures
            (final(self).deep_view(), step.deep_view()) == old(
                self,
            ).deep_view().get_artifact_uri(artifact_path.deep_view()),
    {
        let path = match artifact_path {
            Some(path) => path.to_owned(),
            None => String::new(),
        };
        let request = match &self.active_run_id {
            Some(run_id) => self.api.get_run(run_id.as_str()),
            None => {
                return self.ended(Outcome::Failed);
            },
        };
        self.finishing(request, Expect::ArtifactUri { path })
    }
}

/// Reads the reply to an operation's last request.
pub fn read_last(expect: Expect, reply: &Reply) -> (outcome: Outcome)
    ensures
        outcome.deep_view() == last_outcome(expect.deep_view(), reply.deep_view()),
{
    match expect {
        Expect::Nothing => match MLflowAPI::read_done(reply) {
            Ok(_) => Outcome::Done,
            Err(_) => Outcome::Failed,
        },
        Expect::RunInfo => match MLflowAPI::read_run_info(reply) {
            Ok(_) => Outcome::Done,
            Err(_) => Outcome::Failed,
        },
        Expect::Run => match MLflowAPI::read_run(reply) {
            Ok(run) => Outcome::Run(run),
            Err(_) => Outcome::Failed,
        },
        Expect::Runs => match MLflowAPI::read_runs(reply) {
            Ok(page) => Outcome::Runs(page.0),
            Err(_) => Outcome::Failed,
        },
        Expect::ArtifactUri { path } => match MLflowAPI::read_run(reply) {
            Ok(run) => Outcome::ArtifactUri(
                crate::text::join(run.info.artifact_uri.as_str(), "/").concat(path.as_str()),
            ),
            Err(_) => Outcome::Failed,
        },
    }
}

impl MLflowClient {
    /// Takes the reply to the request that the session sent last, and goes
    /// on with the operation that the request belongs to: to its next
    /// request, or to its outcome. A session that waits for no reply answers
    /// with failure and stays as it is.
    pub fn receive(&mut self, reply: &Reply, ambient: &Ambient) -> (step: Step)
        ensures
            (final(self).deep_view(), step.deep_view()) == old(self).deep_view().received(
                reply.deep_view(),
                ambient.deep_view(),
            ),
    {
        let mut pending = Pending::Idle;
        core::mem::swap(&mut self.pending, &mut pending);
        match pending {
            Pending::Idle => self.ended(Outcome::Failed),
            Pending::ConfirmingExperiment { experiment_id, run_name, task } => {
                match MLflowAPI::read_experiment(reply) {
                    Ok(_) => {
                        self.active_experiment_id = Some(experiment_id);
                        self.begin_run(run_name, task, ambient)
                    },
                    Err(_) => self.ended(Outcome::Failed),
                }
            },
            Pending::FindingExperiment { name, goal } => {
                match MLflowAPI::read_experiment(reply) {
                    Ok(found) => {
                        self.active_experiment_id = Some(found.experiment_id);
                        self.settled(goal, ambient)
                    },
                    Err(_) => {
                        let request = self.api.create_experiment(name.as_str(), None);
                        self.pending = Pending::CreatingExperiment { goal };
                        Step::Send(request)
                    },
                }
            },
            Pending::CreatingExperiment { goal } => {
                match MLflowAPI::read_experiment_id(reply) {
                    Ok(experiment_id) => {
                        self.active_experiment_id = Some(experiment_id);
                        self.settled(goal, ambient)
                    },
                    Err(error) => match goal {
                        Goal::Report => self.ended(Outcome::Experiment(Err(error))),
                        Goal::StartRun { .. } => self.ended(Outcome::Failed),
                    },
                }
            },
            Pending::CreatingRun { task } => {
                match MLflowAPI::read_run(reply) {
                    Ok(run) => {
                        self.active_run_id = Some(run.info.run_id);
                        self.begin_task(task, ambient)
                    },
                    Err(_) => self.ended(Outcome::Failed),
                }
            },
            Pending::ConfirmingRun { run_id } => {
                match MLflowAPI::read_run(reply) {
                    Ok(_) => {
                        self.active_run_id = Some(run_id);
                        self.ended(Outcome::Done)
                    },
                    Err(_) => self.ended(Outcome::Failed),
                }
            },
            Pending::Finishing(expect) => {
                let outcome = read_last(expect, reply);
                self.ended(outcome)
            },
        }
    }
}

} // verus!
