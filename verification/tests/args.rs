use govee_undoc::args::{CredentialError, UndocApiArguments};

fn arguments(email: Option<&str>, password: Option<&str>) -> UndocApiArguments {
    UndocApiArguments {
        govee_email: email.map(str::to_string),
        govee_password: password.map(str::to_string),
        govee_iot_key: "/dev/shm/govee.iot.key".into(),
        govee_iot_cert: "/dev/shm/govee.iot.cert".into(),
        amazon_root_ca: "AmazonRootCA1.pem".into(),
    }
}

#[test]
fn argument_wins_over_environment() {
    let args = arguments(Some("arg@example.com"), Some("arg-secret"));
    assert_eq!(args.opt_email(Ok(Some("env@example.com".to_string()))), Ok(Some("arg@example.com".to_string())));
    assert_eq!(args.opt_password(Ok(Some("env-secret".to_string()))), Ok(Some("arg-secret".to_string())));
    assert_eq!(args.email(Ok(None)), Ok("arg@example.com".to_string()));
    assert_eq!(args.password(Ok(None)), Ok("arg-secret".to_string()));
}

#[test]
fn environment_is_not_consulted_when_the_argument_is_given() {
    let args = arguments(Some("arg@example.com"), Some("arg-secret"));
    assert_eq!(args.opt_email(Err("not unicode".to_string())), Ok(Some("arg@example.com".to_string())));
    assert_eq!(args.password(Err("not unicode".to_string())), Ok("arg-secret".to_string()));
}

#[test]
fn environment_fills_in_for_a_missing_argument() {
    let args = arguments(None, None);
    assert_eq!(args.opt_email(Ok(Some("env@example.com".to_string()))), Ok(Some("env@example.com".to_string())));
    assert_eq!(args.opt_email(Ok(None)), Ok(None));
    assert_eq!(args.opt_password(Ok(None)), Ok(None));
    assert_eq!(args.email(Ok(Some("env@example.com".to_string()))), Ok("env@example.com".to_string()));
    assert_eq!(args.password(Ok(Some("env-secret".to_string()))), Ok("env-secret".to_string()));
}

#[test]
fn missing_credentials_are_asked_for() {
    let args = arguments(None, None);
    let email = args.email(Ok(None)).unwrap_err();
    assert_eq!(email, CredentialError::MissingEmail);
    assert_eq!(
        email.message(),
        "Please specify the govee account email either via the --govee-email parameter or by setting $GOVEE_EMAIL"
    );
    let password = args.password(Ok(None)).unwrap_err();
    assert_eq!(password, CredentialError::MissingPassword);
    assert_eq!(
        password.message(),
        "Please specify the govee account password either via the --govee-password parameter or by setting $GOVEE_PASSWORD"
    );
}

#[test]
fn unreadable_environment_is_reported() {
    let args = arguments(None, None);
    let error = args.opt_email(Err("GOVEE_EMAIL is not unicode".to_string())).unwrap_err();
    assert_eq!(error, CredentialError::Environment("GOVEE_EMAIL is not unicode".to_string()));
    assert_eq!(error.message(), "GOVEE_EMAIL is not unicode");
    assert_eq!(
        args.password(Err("bad".to_string())),
        Err(CredentialError::Environment("bad".to_string()))
    );
}

#[test]
fn api_client_is_built_from_both_credentials() {
    let args = arguments(Some("user@example.com"), None);
    let client = args.api_client(Ok(None), Ok(Some("env-secret".to_string()))).unwrap();
    assert_eq!(client.email(), "user@example.com");
    assert_eq!(client.password(), "env-secret");
    assert_eq!(client.client_id(), "b21b5663c40d51b78d60c015e3de48e9");
}

#[test]
fn api_client_reports_the_email_first() {
    let args = arguments(None, None);
    assert_eq!(args.api_client(Ok(None), Ok(None)).unwrap_err(), CredentialError::MissingEmail);
    assert_eq!(
        args.api_client(Err("e".to_string()), Err("p".to_string())).unwrap_err(),
        CredentialError::Environment("e".to_string())
    );
    assert_eq!(
        args.api_client(Ok(Some("user@example.com".to_string())), Ok(None)).unwrap_err(),
        CredentialError::MissingPassword
    );
    assert_eq!(
        args.api_client(Ok(Some("user@example.com".to_string())), Err("p".to_string())).unwrap_err(),
        CredentialError::Environment("p".to_string())
    );
}
