use sorbet_extension::resolve::{server_binary_name, Command, ServerSettings, SorbetBinary};
use sorbet_extension::SorbetExtension;

fn default_args() -> Vec<String> {
    vec![
        "tc".to_string(),
        "--lsp".to_string(),
        "--enable-experimental-lsp-document-highlight".to_string(),
    ]
}

fn settings(path: Option<&str>, arguments: Option<Vec<&str>>) -> ServerSettings<String> {
    ServerSettings {
        path: path.map(|p| p.to_string()),
        arguments: arguments.map(|args| args.into_iter().map(|a| a.to_string()).collect()),
        initialization_options: None,
    }
}

#[test]
fn configured_path_wins_over_discovery() {
    let ext = SorbetExtension::new();
    let result = ext.language_server_binary(
        Some(settings(Some("/custom/srb"), None)),
        Some("/usr/bin/srb".to_string()),
    );
    assert_eq!(
        result,
        Ok(SorbetBinary { path: "/custom/srb".to_string(), args: Some(default_args()) })
    );
}

#[test]
fn discovered_binary_used_without_configured_path() {
    let ext = SorbetExtension::new();
    let result = ext.language_server_binary(
        Some(settings(None, None)),
        Some("/usr/bin/srb".to_string()),
    );
    assert_eq!(
        result,
        Ok(SorbetBinary { path: "/usr/bin/srb".to_string(), args: Some(default_args()) })
    );
}

#[test]
fn configured_arguments_used_verbatim() {
    let ext = SorbetExtension::new();
    let result = ext.language_server_binary(
        Some(settings(Some("/custom/srb"), Some(vec!["tc", "--lsp"]))),
        None::<String>,
    );
    assert_eq!(
        result,
        Ok(SorbetBinary {
            path: "/custom/srb".to_string(),
            args: Some(vec!["tc".to_string(), "--lsp".to_string()]),
        })
    );
}

#[test]
fn absent_settings_degrade_to_defaults() {
    let ext = SorbetExtension::new();
    let result = ext.language_server_binary(
        None::<ServerSettings<String>>,
        Some("/usr/bin/srb".to_string()),
    );
    assert_eq!(
        result,
        Ok(SorbetBinary { path: "/usr/bin/srb".to_string(), args: Some(default_args()) })
    );
}

#[test]
fn unresolvable_binary_fails_with_descriptive_error() {
    let ext = SorbetExtension::new();
    let result = ext.language_server_binary(None::<ServerSettings<String>>, None);
    let message = result.unwrap_err();
    assert!(!message.is_empty());
    assert_eq!(
        message,
        "srb gem must be installed manually. Install it with `gem install sorbet`."
    );
}

#[test]
fn command_carries_binary_and_environment() {
    let ext = SorbetExtension::new();
    let env = vec![("PATH".to_string(), "/usr/bin".to_string())];
    let result = ext.language_server_command(
        Some(settings(Some("/custom/srb"), None)),
        None,
        env.clone(),
    );
    assert_eq!(
        result,
        Ok(Command { command: "/custom/srb".to_string(), args: default_args(), env })
    );
}

#[test]
fn command_propagates_resolution_failure() {
    let ext = SorbetExtension::new();
    let result = ext.language_server_command(None::<ServerSettings<String>>, None, Vec::new());
    assert_eq!(
        result,
        Err("srb gem must be installed manually. Install it with `gem install sorbet`."
            .to_string())
    );
}

#[test]
fn resolution_is_idempotent() {
    let ext = SorbetExtension::new();
    let first = ext.language_server_binary(Some(settings(Some("/custom/srb"), None)), None);
    let second = ext.language_server_binary(Some(settings(Some("/custom/srb"), None)), None);
    assert_eq!(first, second);
}

#[test]
fn discovery_searches_for_srb() {
    assert_eq!(server_binary_name(), "srb");
}

#[test]
fn initialization_options_returned_verbatim() {
    let ext = SorbetExtension::new();
    let with_options = ServerSettings {
        path: None,
        arguments: None,
        initialization_options: Some("{\"highlightUntyped\":true}".to_string()),
    };
    let result = ext.language_server_initialization_options(
        Some(with_options),
        "null".to_string(),
    );
    assert_eq!(result, Ok(Some("{\"highlightUntyped\":true}".to_string())));
}

#[test]
fn initialization_options_default_when_absent() {
    let ext = SorbetExtension::new();
    let result = ext.language_server_initialization_options(
        None::<ServerSettings<String>>,
        "null".to_string(),
    );
    assert_eq!(result, Ok(Some("null".to_string())));

    let without_options = settings(Some("/custom/srb"), None);
    let result = ext.language_server_initialization_options(
        Some(without_options),
        "null".to_string(),
    );
    assert_eq!(result, Ok(Some("null".to_string())));
}
