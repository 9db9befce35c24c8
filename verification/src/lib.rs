//! Typed client for the REST interface of an MLflow tracking server.
//!
//! The library says what to send and reads what came back; it performs no
//! exchange itself. [`MLflowAPI`] has one request per endpoint and one reader
//! per kind of answer. [`MLflowClient`] keeps an active experiment and an
//! active run, and steps through the calls that an operation takes.

pub mod api;
pub mod client;
pub mod errors;
pub mod json;
pub mod request;
pub mod session;
pub mod structures;
pub mod text;
pub mod wire;

pub use api::MLflowAPI;
pub use client::MLflowClient;
pub use structures::{
    Experiment, ExperimentTag, FileInfo, LifecycleStage, Metric, Param, Run, RunData, RunInfo,
    RunStatus, RunTag, ViewType,
};
