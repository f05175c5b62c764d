use toucan_sentry::client::{SentryClient, SentryCommand, SentryConfig};
use toucan_sentry::error::ToucanError;

fn config(dsn: &str) -> SentryConfig {
    SentryConfig::from_dsn(dsn.to_string()).unwrap()
}

#[test]
fn from_dsn_keeps_the_dsn_and_leaves_the_rest_empty() {
    let cfg = SentryConfig::from_dsn("https://key@sentry.example/1".to_string()).unwrap();
    assert_eq!(cfg.dsn, "https://key@sentry.example/1");
    assert!(cfg.environment.is_none());
    assert!(cfg.cf_access_client_id.is_none());
    assert!(cfg.cf_access_client_secret.is_none());
}

#[test]
fn init_options_without_credentials_have_no_transport_headers() {
    let o = config("dsn").into_init_options(false, false);
    assert_eq!(o.dsn, "dsn");
    assert_eq!(o.transport_headers, Vec::<(String, String)>::new());
    assert!(!o.include_request);
    assert!(!o.include_context);
    assert!(!o.debug);
    assert!(o.environment.is_none());
}

#[test]
fn init_options_carry_both_credentials_in_order() {
    let mut cfg = config("dsn");
    cfg.cf_access_client_id = Some("id".to_string());
    cfg.cf_access_client_secret = Some("client-secret-value".to_string());
    let o = cfg.into_init_options(true, true);
    assert_eq!(
        o.transport_headers,
        vec![
            ("CF-Access-Client-ID".to_string(), "id".to_string()),
            ("CF-Access-Client-Secret".to_string(), "client-secret-value".to_string()),
        ]
    );
    assert!(o.include_request);
    assert!(o.include_context);
}

#[test]
fn init_options_carry_the_id_alone() {
    let mut cfg = config("dsn");
    cfg.cf_access_client_id = Some("id".to_string());
    let o = cfg.into_init_options(false, true);
    assert_eq!(
        o.transport_headers,
        vec![("CF-Access-Client-ID".to_string(), "id".to_string())]
    );
}

#[test]
fn init_options_carry_the_secret_alone() {
    let mut cfg = config("dsn");
    cfg.cf_access_client_secret = Some("client-secret-value".to_string());
    let o = cfg.into_init_options(false, false);
    assert_eq!(
        o.transport_headers,
        vec![("CF-Access-Client-Secret".to_string(), "client-secret-value".to_string())]
    );
}

#[test]
fn init_options_list_the_allowed_headers_in_order() {
    let o = config("dsn").into_init_options(false, false);
    assert_eq!(
        o.allowed_headers,
        vec![
            "user-agent",
            "accept-encoding",
            "accept-language",
            "cf-ray",
            "content-length",
            "content-type",
            "x-real-ip",
            "host",
        ]
    );
}

#[test]
fn init_options_keep_the_environment() {
    let mut cfg = config("dsn");
    cfg.environment = Some("staging".to_string());
    let o = cfg.into_init_options(false, false);
    assert_eq!(o.environment, Some("staging".to_string()));
}

#[test]
fn a_new_client_has_no_commands() {
    let client = SentryClient::new(config("dsn").into_init_options(false, false));
    assert!(client.commands.is_empty());
    assert_eq!(client.options.dsn, "dsn");
}

#[test]
fn passthrough_methods_queue_commands_in_call_order() {
    let mut client = SentryClient::new(config("dsn").into_init_options(false, false));
    client.set_tag("release", "1.2.3");
    client.capture_message("something broke");
    client.set_request_body("{}");
    client.set_enabled(false);
    assert_eq!(client.commands.len(), 4);
    match &client.commands[0] {
        SentryCommand::SetTag { key, value } => {
            assert_eq!(key, "release");
            assert_eq!(value, "1.2.3");
        }
        other => panic!("unexpected command {:?}", command_name(other)),
    }
    match &client.commands[1] {
        SentryCommand::CaptureMessage { message } => assert_eq!(message, "something broke"),
        other => panic!("unexpected command {:?}", command_name(other)),
    }
    match &client.commands[2] {
        SentryCommand::SetRequestBody { body } => assert_eq!(body, "{}"),
        other => panic!("unexpected command {:?}", command_name(other)),
    }
    match &client.commands[3] {
        SentryCommand::SetEnabled { enabled } => assert!(!enabled),
        other => panic!("unexpected command {:?}", command_name(other)),
    }
}

#[test]
fn queueing_commands_keeps_the_options() {
    let mut cfg = config("dsn");
    cfg.environment = Some("prod".to_string());
    let mut client = SentryClient::new(cfg.into_init_options(true, false));
    client.set_enabled(true);
    client.set_tag("a", "b");
    assert_eq!(client.options.environment, Some("prod".to_string()));
    assert!(client.options.include_request);
}

fn command_name(c: &SentryCommand) -> &'static str {
    match c {
        SentryCommand::SetTag { .. } => "SetTag",
        SentryCommand::SetContext { .. } => "SetContext",
        SentryCommand::CaptureMessage { .. } => "CaptureMessage",
        SentryCommand::CaptureException { .. } => "CaptureException",
        SentryCommand::SetPropagationContext { .. } => "SetPropagationContext",
        SentryCommand::SetRequestBody { .. } => "SetRequestBody",
        SentryCommand::SetEnabled { .. } => "SetEnabled",
        SentryCommand::AddBreadcrumb { .. } => "AddBreadcrumb",
    }
}

#[test]
fn from_message_keeps_the_message() {
    let e = ToucanError::from_message("boom".to_string());
    assert_eq!(e.msg, "boom");
    assert_eq!(e.message(), "boom");
}

#[test]
fn from_js_string_keeps_a_string_value() {
    let e = ToucanError::from_js_string(Some("bad value".to_string()));
    assert_eq!(e.msg, "bad value");
}

#[test]
fn from_js_string_falls_back_for_a_non_string_value() {
    let e = ToucanError::from_js_string(None);
    assert_eq!(e.msg, "JsValue string conversion failed");
}
