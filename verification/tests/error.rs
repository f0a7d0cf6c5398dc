use ssh_tool::environment::Environment;
use ssh_tool::error::ConnectError;

#[test]
fn password_read_shows_the_readers_account() {
    let error = ConnectError::PasswordRead("No such device or address (os error 6)".to_string());
    assert_eq!(error.message(), "No such device or address (os error 6)");
}

#[test]
fn unimplemented_shows_the_fixed_text() {
    assert_eq!(
        ConnectError::Unimplemented.message(),
        "Prod environment is not yet implemented. Please add custom connection logic here."
    );
}

#[test]
fn spawn_shows_the_systems_account() {
    let error = ConnectError::Spawn("No such file or directory (os error 2)".to_string());
    assert_eq!(error.message(), "No such file or directory (os error 2)");
}

#[test]
fn connection_failed_names_environment_and_service() {
    let error = ConnectError::ConnectionFailed {
        environment: Environment::QA,
        service: Some("billing-v12".to_string()),
    };
    assert_eq!(error.message(), "Connection to QA or service billing-v12 failed");
    let error = ConnectError::ConnectionFailed {
        environment: Environment::RFS,
        service: Some("".to_string()),
    };
    assert_eq!(error.message(), "Connection to RFS or service  failed");
}

#[test]
fn connection_failed_without_service_names_the_environment() {
    let error = ConnectError::ConnectionFailed { environment: Environment::Prod, service: None };
    assert_eq!(error.message(), "Connection to Prod failed");
}

#[test]
fn message_leaves_the_error_unchanged() {
    let error = ConnectError::ConnectionFailed {
        environment: Environment::QA,
        service: Some("billing-v12".to_string()),
    };
    let _ = error.message();
    assert_eq!(
        error,
        ConnectError::ConnectionFailed {
            environment: Environment::QA,
            service: Some("billing-v12".to_string()),
        }
    );
}
