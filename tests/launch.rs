use lapce_python::json::{get, string_elements, JsonValue};
use lapce_python::launch::{
    document_selector, handle_initialize, initialize, launch_config, locator, server_args,
    server_path, InitError, LaunchConfig,
};

fn s(text: &str) -> JsonValue {
    JsonValue::Str(text.to_string())
}

fn object(members: Vec<(&str, JsonValue)>) -> JsonValue {
    JsonValue::Object(members.into_iter().map(|(k, v)| (k.to_string(), v)).collect())
}

fn with_overrides(overrides: Vec<(&str, JsonValue)>) -> Option<JsonValue> {
    Some(object(vec![("volt", object(overrides))]))
}

fn assert_python_selector(config: &LaunchConfig) {
    assert_eq!(config.document_selector.len(), 1);
    let filter = &config.document_selector[0];
    assert_eq!(filter.language.as_deref(), Some("python"));
    assert_eq!(filter.pattern.as_deref(), Some("**.py"));
    assert_eq!(filter.scheme, None);
}

#[test]
fn no_options_use_default_locator() {
    let config = initialize(None).unwrap();
    assert_eq!(config.server_uri, "urn:pylsp");
    assert!(config.server_args.is_empty());
    assert!(config.options.is_none());
    assert_python_selector(&config);
}

#[test]
fn options_without_overrides_use_defaults() {
    let options = Some(object(vec![("other", object(vec![("serverPath", s("x"))]))]));
    let config = initialize(options).unwrap();
    assert_eq!(config.server_uri, "urn:pylsp");
    assert!(config.server_args.is_empty());
    assert!(matches!(config.options, Some(JsonValue::Object(_))));
}

#[test]
fn options_that_are_no_object_use_defaults() {
    let config = initialize(Some(JsonValue::Array(vec![s("volt")]))).unwrap();
    assert_eq!(config.server_uri, "urn:pylsp");
    assert!(config.server_args.is_empty());
}

#[test]
fn string_arguments_kept_in_order() {
    let args = JsonValue::Array(vec![
        s("--foo"),
        JsonValue::Number("1".to_string()),
        JsonValue::Null,
        s("bar"),
        JsonValue::Bool(true),
    ]);
    let config = initialize(with_overrides(vec![("serverArgs", args)])).unwrap();
    assert_eq!(config.server_args, vec!["--foo".to_string(), "bar".to_string()]);
    assert_eq!(config.server_uri, "urn:pylsp");
}

#[test]
fn arguments_that_are_no_array_are_ignored() {
    let options = with_overrides(vec![("serverArgs", s("--foo"))]);
    assert!(server_args(&options).is_empty());
}

#[test]
fn server_path_replaces_locator() {
    let config = initialize(with_overrides(vec![("serverPath", s("mylsp"))])).unwrap();
    assert_eq!(config.server_uri, "urn:mylsp");
    assert!(config.server_args.is_empty());
    assert_python_selector(&config);
}

#[test]
fn server_path_and_arguments_together() {
    let options = with_overrides(vec![
        ("serverArgs", JsonValue::Array(vec![s("-v")])),
        ("serverPath", s("mylsp")),
    ]);
    let config = initialize(options).unwrap();
    assert_eq!(config.server_uri, "urn:mylsp");
    assert_eq!(config.server_args, vec!["-v".to_string()]);
}

#[test]
fn empty_server_path_keeps_default() {
    let options = with_overrides(vec![("serverPath", s(""))]);
    assert_eq!(server_path(&options), None);
    let config = initialize(options).unwrap();
    assert_eq!(config.server_uri, "urn:pylsp");
}

#[test]
fn server_path_that_is_no_string_keeps_default() {
    let options = with_overrides(vec![("serverPath", JsonValue::Number("3".to_string()))]);
    assert_eq!(locator(&options), "urn:pylsp");
}

#[test]
fn locator_puts_path_under_urn_scheme() {
    let options = with_overrides(vec![("serverPath", s("/usr/bin/pylsp"))]);
    assert_eq!(locator(&options), "urn:/usr/bin/pylsp");
}

#[test]
fn locator_is_normalized_by_url_parsing() {
    // URL parsing drops tabs and newlines from its input.
    let options = with_overrides(vec![("serverPath", s("my\tlsp"))]);
    assert_eq!(locator(&options), "urn:my\tlsp");
    let config = initialize(options).unwrap();
    assert_eq!(config.server_uri, "urn:mylsp");
}

#[test]
fn unparseable_server_path_is_an_error() {
    let options = with_overrides(vec![("serverPath", s("//host:99999"))]);
    assert!(matches!(initialize(options), Err(InitError::InvalidServerUri)));
}

#[test]
fn unparseable_server_path_still_answers_success() {
    let options = with_overrides(vec![("serverPath", s("//host:99999"))]);
    let reply = handle_initialize(42, options);
    assert_eq!(reply.success_for, 42);
    assert!(reply.launch.is_none());
}

#[test]
fn initialize_request_starts_server_and_answers() {
    let reply = handle_initialize(7, with_overrides(vec![("serverPath", s("mylsp"))]));
    assert_eq!(reply.success_for, 7);
    let config = reply.launch.unwrap();
    assert_eq!(config.server_uri, "urn:mylsp");
    assert_python_selector(&config);
}

#[test]
fn selector_is_one_python_filter() {
    let selector = document_selector();
    assert_eq!(selector.len(), 1);
    assert_eq!(selector[0].language.as_deref(), Some("python"));
    assert_eq!(selector[0].pattern.as_deref(), Some("**.py"));
    assert_eq!(selector[0].scheme, None);
}

#[test]
fn launch_config_forwards_options() {
    let options = with_overrides(vec![("serverArgs", JsonValue::Array(vec![s("a")]))]);
    let config = launch_config("urn:x".to_string(), options);
    assert_eq!(config.server_uri, "urn:x");
    assert_eq!(config.server_args, vec!["a".to_string()]);
    assert!(matches!(config.options, Some(JsonValue::Object(ref m)) if m.len() == 1));
    assert_python_selector(&config);
}

#[test]
fn get_reads_last_member_with_key() {
    let v = object(vec![("k", s("first")), ("other", JsonValue::Null), ("k", s("second"))]);
    assert!(matches!(get(&v, "k"), Some(JsonValue::Str(t)) if t == "second"));
    assert!(matches!(get(&v, "other"), Some(JsonValue::Null)));
    assert!(get(&v, "missing").is_none());
    assert!(get(&s("k"), "k").is_none());
}

#[test]
fn string_elements_skip_other_values() {
    let items = vec![JsonValue::Bool(false), s("x"), JsonValue::Array(vec![s("y")]), s("z")];
    assert_eq!(string_elements(&items), vec!["x".to_string(), "z".to_string()]);
    assert!(string_elements(&Vec::new()).is_empty());
}
