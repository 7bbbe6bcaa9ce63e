use svelte_extension::error::Error;
use svelte_extension::runtime::{InstallInvocation, Runtime};

#[test]
fn probe_hit_selects_alternative_runtime() {
    let r = Runtime::new(Some("/usr/local/bin/bun".to_string()));
    assert_eq!(r, Runtime::Bun("/usr/local/bin/bun".to_string()));
}

#[test]
fn probe_miss_falls_back_to_host_runtime() {
    let r = Runtime::new(None);
    assert_eq!(r, Runtime::Node);
}

#[test]
fn alternative_runtime_launches_from_probed_path() {
    let r = Runtime::new(Some("/opt/bun".to_string()));
    let cmd = r
        .server_command("/work/server.js", Err("unused".to_string()))
        .unwrap();
    assert_eq!(cmd.command, "/opt/bun");
    assert_eq!(
        cmd.args,
        vec!["/work/server.js".to_string(), "--stdio".to_string()]
    );
    assert!(cmd.env.is_empty());
}

#[test]
fn host_runtime_launches_from_resolved_path() {
    let r = Runtime::new(None);
    let cmd = r
        .server_command("/work/server.js", Ok("/editor/bin/node".to_string()))
        .unwrap();
    assert_eq!(cmd.command, "/editor/bin/node");
    assert_eq!(
        cmd.args,
        vec!["/work/server.js".to_string(), "--stdio".to_string()]
    );
    assert!(cmd.env.is_empty());
}

#[test]
fn missing_host_runtime_fails_launch() {
    let r = Runtime::new(None);
    let err = r
        .server_command("/work/server.js", Err("no node".to_string()))
        .unwrap_err();
    assert_eq!(err, Error::HostResolution("no node".to_string()));
}

#[test]
fn alternative_runtime_installs_itself() {
    let r = Runtime::new(Some("/opt/bun".to_string()));
    let inv = r.install_invocation("svelte-language-server", "1.2.3");
    assert_eq!(
        inv,
        InstallInvocation::Exec {
            program: "/opt/bun".to_string(),
            args: vec![
                "add".to_string(),
                "svelte-language-server@1.2.3".to_string()
            ],
        }
    );
}

#[test]
fn host_runtime_installs_through_host_package_manager() {
    let r = Runtime::new(None);
    let inv = r.install_invocation("svelte-language-server", "1.2.3");
    assert_eq!(
        inv,
        InstallInvocation::HostNpm {
            package_name: "svelte-language-server".to_string(),
            version: "1.2.3".to_string(),
        }
    );
}

#[test]
fn describe_names_the_runtime() {
    assert_eq!(
        Runtime::new(Some("/opt/bun".to_string())).describe(),
        "Bun(/opt/bun)"
    );
    assert_eq!(Runtime::new(None).describe(), "Node");
}
