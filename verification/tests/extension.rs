use svelte_extension::error::Error;
use svelte_extension::extension::{
    auxiliary_server_command, get_package_path,
    language_server_additional_workspace_configuration, language_server_command,
    language_server_entry_script, language_server_initialization_options,
    language_server_package_name, normalize_host_path, typescript_plugin_package_name,
};
use svelte_extension::runtime::Runtime;

#[test]
fn package_names_are_fixed() {
    assert_eq!(language_server_package_name(), "svelte-language-server");
    assert_eq!(typescript_plugin_package_name(), "typescript-svelte-plugin");
}

#[test]
fn package_path_joins_working_directory() {
    let p = get_package_path(Ok("/work".to_string()), "svelte-language-server").unwrap();
    assert_eq!(p, "/work/node_modules/svelte-language-server");
}

#[test]
fn package_path_fails_without_working_directory() {
    let err = get_package_path(Err("no cwd".to_string()), "svelte-language-server").unwrap_err();
    assert_eq!(err, Error::Path("no cwd".to_string()));
}

#[test]
fn normalization_strips_one_leading_separator() {
    assert_eq!(normalize_host_path("/C:/work", true), "C:/work");
    assert_eq!(normalize_host_path("C:/work", true), "C:/work");
    assert_eq!(normalize_host_path("/work", false), "/work");
    assert_eq!(normalize_host_path("", true), "");
}

#[test]
fn entry_script_lies_inside_the_package() {
    let p = language_server_entry_script(Ok("/work".to_string())).unwrap();
    assert_eq!(p, "/work/node_modules/svelte-language-server/bin/server.js");
    let err = language_server_entry_script(Err("no cwd".to_string())).unwrap_err();
    assert_eq!(err, Error::Path("no cwd".to_string()));
}

#[test]
fn launch_command_runs_entry_script_on_stdio() {
    let cmd = language_server_command(
        &Runtime::Node,
        Ok("/work".to_string()),
        Ok("/editor/bin/node".to_string()),
    )
    .unwrap();
    assert_eq!(cmd.command, "/editor/bin/node");
    assert_eq!(
        cmd.args,
        vec![
            "/work/node_modules/svelte-language-server/bin/server.js".to_string(),
            "--stdio".to_string()
        ]
    );
    assert!(cmd.env.is_empty());
}

#[test]
fn launch_command_uses_the_alternative_runtime_when_chosen() {
    let cmd = language_server_command(
        &Runtime::Bun("/opt/bun".to_string()),
        Ok("/work".to_string()),
        Err("node must not be resolved".to_string()),
    )
    .unwrap();
    assert_eq!(cmd.command, "/opt/bun");
    assert_eq!(
        cmd.args,
        vec![
            "/work/node_modules/svelte-language-server/bin/server.js".to_string(),
            "--stdio".to_string()
        ]
    );
}

#[test]
fn launch_command_propagates_path_error_first() {
    let err = language_server_command(
        &Runtime::Node,
        Err("no cwd".to_string()),
        Err("no node".to_string()),
    )
    .unwrap_err();
    assert_eq!(err, Error::Path("no cwd".to_string()));
}

#[test]
fn launch_command_propagates_host_resolution_error() {
    let err = language_server_command(
        &Runtime::Node,
        Ok("/work".to_string()),
        Err("no node".to_string()),
    )
    .unwrap_err();
    assert_eq!(err, Error::HostResolution("no node".to_string()));
}

#[test]
fn auxiliary_server_launches_its_own_entry_file() {
    let cmd = auxiliary_server_command(
        &Runtime::Node,
        "svelte-mcp",
        "dist/index.js",
        Ok("/work".to_string()),
        Ok("/editor/bin/node".to_string()),
    )
    .unwrap();
    assert_eq!(cmd.command, "/editor/bin/node");
    assert_eq!(
        cmd.args,
        vec![
            "/work/node_modules/svelte-mcp/dist/index.js".to_string(),
            "--stdio".to_string()
        ]
    );
    let err = auxiliary_server_command(
        &Runtime::Node,
        "svelte-mcp",
        "dist/index.js",
        Ok("/work".to_string()),
        Err("no node".to_string()),
    )
    .unwrap_err();
    assert_eq!(err, Error::HostResolution("no node".to_string()));
}

#[test]
fn initialization_options_enable_everything() {
    let o = language_server_initialization_options();
    assert!(o.provide_formatter);
    assert!(o.dont_filter_incomplete_completions);
    assert_eq!(o.typescript, o.javascript);
    let hints = &o.typescript;
    assert_eq!(hints.parameter_names.enabled, "all");
    assert!(!hints.parameter_names.suppress_when_argument_matches_name);
    assert!(hints.parameter_types.enabled);
    assert!(hints.variable_types.enabled);
    assert!(!hints.variable_types.suppress_when_type_matches_name);
    assert!(hints.property_declaration_types.enabled);
    assert!(hints.function_like_return_types.enabled);
    assert!(hints.enum_member_values.enabled);
}

#[test]
fn typescript_server_gets_the_plugin() {
    let plugin = language_server_additional_workspace_configuration(
        "vtsls",
        Ok("/work".to_string()),
    )
    .unwrap()
    .unwrap();
    assert_eq!(plugin.name, "typescript-svelte-plugin");
    assert_eq!(
        plugin.location,
        "/work/node_modules/typescript-svelte-plugin"
    );
    assert!(plugin.enable_for_workspace_typescript_versions);
}

#[test]
fn other_servers_get_no_plugin() {
    let r = language_server_additional_workspace_configuration(
        "rust-analyzer",
        Ok("/work".to_string()),
    )
    .unwrap();
    assert!(r.is_none());
}

#[test]
fn plugin_lookup_fails_without_working_directory() {
    let err = language_server_additional_workspace_configuration(
        "vtsls",
        Err("no cwd".to_string()),
    )
    .unwrap_err();
    assert_eq!(err, Error::Path("no cwd".to_string()));
}

#[test]
fn error_message_is_kept() {
    assert_eq!(Error::Query("oops".to_string()).message(), "oops");
    assert_eq!(Error::Install("bad".to_string()).message(), "bad");
    assert_eq!(Error::HostResolution("gone".to_string()).message(), "gone");
    assert_eq!(Error::Path("lost".to_string()).message(), "lost");
}
