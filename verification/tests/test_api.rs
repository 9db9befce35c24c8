use mlflow_api::api::MLflowAPI;
use mlflow_api::errors::SetupError;

#[test]
fn can_create_instance() {
    let client = MLflowAPI::new("http://localhost:5000");
    assert!(client.is_ok());
    assert_eq!(client.unwrap().uri(), "http://localhost:5000");
}

#[test]
fn cant_create_instance_with_invalid_url() {
    let client = MLflowAPI::new("not-a-url");
    assert!(client.is_err());
    assert_eq!(client.unwrap_err(), SetupError::InvalidUrl("not-a-url".to_string()));
}

#[test]
fn session_without_a_tracking_uri_names_what_is_missing() {
    let made = mlflow_api::client::MLflowClient::new(None);
    assert_eq!(made, Err(SetupError::InvalidUrl("Missing MLFLOW_TRACKING_URI".to_string())));
    let made = mlflow_api::client::MLflowClient::new(Some("http://localhost:5000"));
    assert_eq!(made.unwrap().api.uri(), "http://localhost:5000");
    let made = mlflow_api::client::MLflowClient::new(Some("nope"));
    assert_eq!(made, Err(SetupError::InvalidUrl("nope".to_string())));
    let made = mlflow_api::client::MLflowClient::new_with_tracking_uri("not-a-url");
    assert_eq!(made, Err(SetupError::InvalidUrl("not-a-url".to_string())));
    let api = MLflowAPI::new("http://h").unwrap();
    assert_eq!(mlflow_api::client::MLflowClient::with_api(api.clone()).api, api);
}

#[test]
fn can_cast_reqwest_error() {
    fn test() -> Result<(), mlflow_api::errors::ClientError<mlflow_api::errors::GetExperimentErrorCode>> {
        let sent = reqwest::blocking::Client::new()
            .get("http://ghghghgh")
            .timeout(std::time::Duration::from_secs(10))
            .send()
            .and_then(|response| response.bytes());
        let reply = match sent {
            Ok(bytes) => mlflow_api::request::Reply::Body(bytes.to_vec()),
            Err(error) => mlflow_api::request::Reply::Failed(error.to_string()),
        };
        mlflow_api::api::return_field(&reply, |_: mlflow_api::api::Nothing| ())
    }
    assert!(test().is_err());
}
