use vstd::prelude::*;
use vstd::string::StrSliceExecFns;
use vstd::string::StringExecFns;
use crate::error::Error;
use crate::launch::Command;
use crate::launch::launch_args_ok;
use crate::runtime::Runtime;

verus! {

/// The package that holds the language server.
pub fn language_server_package_name() -> (s: String)
    ensures
        s@ == "svelte-language-server"@,
{
    "svelte-language-server".to_owned()
}

/// The package that holds the TypeScript plugin a cooperating server loads.
pub fn typescript_plugin_package_name() -> (s: String)
    ensures
        s@ == "typescript-svelte-plugin"@,
{
    "typescript-svelte-plugin".to_owned()
}

/// Where a package installed into the working directory lies on disk.
pub open spec fn spec_package_path(cwd: Seq<char>, package_name: Seq<char>) -> Seq<char> {
    cwd + "/node_modules/"@ + package_name
}

/// Joins the working directory with the on-disk location of an installed
/// package. `cwd` is the host's answer for the working directory; when the
/// host could not resolve it, the failure becomes a path error.
pub fn get_package_path(cwd: Result<String, String>, package_name: &str) -> (r: Result<
    String,
    Error,
>)
    ensures
        match cwd {
            Ok(c) => (r matches Ok(p) && p@ == spec_package_path(c@, package_name@)),
            Err(e) => r == Result::<String, Error>::Err(Error::Path(e)),
        },
{
    match cwd {
        Ok(c) => {
            let mut p = c;
            p.append("/node_modules/");
            p.append(package_name);
            Ok(p)
        },
        Err(e) => Err(Error::Path(e)),
    }
}

/// The language server's entry script, inside its installed package.
pub open spec fn spec_entry_script(cwd: Seq<char>) -> Seq<char> {
    spec_package_path(cwd, "svelte-language-server"@) + "/bin/server.js"@
}

/// On one platform the host's sandboxed filesystem reports paths with a
/// spurious leading separator; the caller says whether this process runs
/// there. When it does and the path starts with a separator, that one
/// character is stripped; every other path passes through unchanged.
pub fn normalize_host_path(path: &str, strip_leading_separator: bool) -> (r: String)
    ensures
        r@ == if strip_leading_separator && path@.len() > 0 && path@[0] == '/' {
            path@.skip(1)
        } else {
            path@
        },
{
    if strip_leading_separator {
        let n = path.unicode_len();
        if n > 0 && path.get_char(0) == '/' {
            let rest = path.substring_char(1, n);
            let r = rest.to_owned();
            proof {
                assert(r@ =~= path@.skip(1));
            }
            return r;
        }
    }
    path.to_owned()
}

/// The entry script of the installed language server package, under the
/// working directory; a working directory the host could not resolve fails
/// with a path error.
pub fn language_server_entry_script(cwd: Result<String, String>) -> (r: Result<String, Error>)
    ensures
        match cwd {
            Ok(c) => (r matches Ok(p) && p@ == spec_entry_script(c@)),
            Err(e) => r == Result::<String, Error>::Err(Error::Path(e)),
        },
{
    let package_name = language_server_package_name();
    match get_package_path(cwd, package_name.as_str()) {
        Ok(root) => {
            let mut entry = root;
            entry.append("/bin/server.js");
            Ok(entry)
        },
        Err(e) => Err(e),
    }
}

/// Builds the launch descriptor for the language server: the chosen runtime
/// running the installed package's entry script on standard input/output.
/// `cwd` and `node_binary` are the host's answers for the working directory
/// and its bundled runtime path, resolved fresh for this call; a working
/// directory failure comes first, and the host runtime's path is only needed
/// (and its failure only raised) when the host runtime was chosen.
pub fn language_server_command(
    runtime: &Runtime,
    cwd: Result<String, String>,
    node_binary: Result<String, String>,
) -> (r: Result<Command, Error>)
    ensures
        match cwd {
            Err(e) => r == Result::<Command, Error>::Err(Error::Path(e)),
            Ok(c) => match runtime {
                Runtime::Bun(path) => (r matches Ok(cmd) && cmd.command@ == path@
                    && launch_args_ok(cmd.args@, spec_entry_script(c@)) && cmd.env@.len() == 0),
                Runtime::Node => match node_binary {
                    Err(e) => r == Result::<Command, Error>::Err(Error::HostResolution(e)),
                    Ok(node) => (r matches Ok(cmd) && cmd.command@ == node@
                        && launch_args_ok(cmd.args@, spec_entry_script(c@)) && cmd.env@.len()
                        == 0),
                },
            },
        },
{
    let entry = match language_server_entry_script(cwd) {
        Ok(p) => p,
        Err(e) => {
            return Err(e);
        },
    };
    runtime.server_command(entry.as_str(), node_binary)
}

/// Builds the launch descriptor for an auxiliary server that lives in its own
/// package: the chosen runtime running `entry_file` from inside the installed
/// package on standard input/output. The same pattern as the language
/// server's launch, for a caller-named package and entry file; this entry
/// point has no status-reporting channel, so the provisioning runs that
/// precede it have no observer.
pub fn auxiliary_server_command(
    runtime: &Runtime,
    package_name: &str,
    entry_file: &str,
    cwd: Result<String, String>,
    node_binary: Result<String, String>,
) -> (r: Result<Command, Error>)
    ensures
        match cwd {
            Err(e) => r == Result::<Command, Error>::Err(Error::Path(e)),
            Ok(c) => match runtime {
                Runtime::Bun(path) => (r matches Ok(cmd) && cmd.command@ == path@
                    && launch_args_ok(
                    cmd.args@,
                    spec_package_path(c@, package_name@) + "/"@ + entry_file@,
                ) && cmd.env@.len() == 0),
                Runtime::Node => match node_binary {
                    Err(e) => r == Result::<Command, Error>::Err(Error::HostResolution(e)),
                    Ok(node) => (r matches Ok(cmd) && cmd.command@ == node@ && launch_args_ok(
                        cmd.args@,
                        spec_package_path(c@, package_name@) + "/"@ + entry_file@,
                    ) && cmd.env@.len() == 0),
                },
            },
        },
{
    let root = match get_package_path(cwd, package_name) {
        Ok(p) => p,
        Err(e) => {
            return Err(e);
        },
    };
    let mut entry = root;
    entry.append("/");
    entry.append(entry_file);
    runtime.server_command(entry.as_str(), node_binary)
}

/// Whether one family of inlay hints is shown.
#[derive(Debug, Clone, PartialEq, Eq)]
pub struct HintToggle {
    pub enabled: bool,
}

/// Inlay hints for parameter names: a mode string saying which parameters get
/// one, and whether a hint is suppressed when the argument already matches the
/// parameter's name.
#[derive(Debug, Clone, PartialEq, Eq)]
pub struct ParameterNameHints {
    pub enabled: String,
    pub suppress_when_argument_matches_name: bool,
}

/// Inlay hints for variable types, with suppression when the type already
/// matches the variable's name.
#[derive(Debug, Clone, PartialEq, Eq)]
pub struct VariableTypeHints {
    pub enabled: bool,
    pub suppress_when_type_matches_name: bool,
}

/// The inlay-hint configuration handed to the language server for one
/// language.
#[derive(Debug, Clone, PartialEq, Eq)]
pub struct InlayHintSettings {
    pub parameter_names: ParameterNameHints,
    pub parameter_types: HintToggle,
    pub variable_types: VariableTypeHints,
    pub property_declaration_types: HintToggle,
    pub function_like_return_types: HintToggle,
    pub enum_member_values: HintToggle,
}

/// The configuration injected into the language server's initialization
/// handshake: formatter capability flags and per-language inlay-hint settings.
#[derive(Debug, Clone, PartialEq, Eq)]
pub struct InitializationOptions {
    pub provide_formatter: bool,
    pub dont_filter_incomplete_completions: bool,
    pub typescript: InlayHintSettings,
    pub javascript: InlayHintSettings,
}

/// The inlay-hint settings this extension always requests: every hint family
/// on, parameter-name hints for all parameters, and no suppression.
pub open spec fn all_hints_on(h: InlayHintSettings) -> bool {
    &&& h.parameter_names.enabled@ == "all"@
    &&& !h.parameter_names.suppress_when_argument_matches_name
    &&& h.parameter_types.enabled
    &&& h.variable_types.enabled
    &&& !h.variable_types.suppress_when_type_matches_name
    &&& h.property_declaration_types.enabled
    &&& h.function_like_return_types.enabled
    &&& h.enum_member_values.enabled
}

fn default_inlay_hints() -> (h: InlayHintSettings)
    ensures
        all_hints_on(h),
{
    InlayHintSettings {
        parameter_names: ParameterNameHints {
            enabled: "all".to_owned(),
            suppress_when_argument_matches_name: false,
        },
        parameter_types: HintToggle { enabled: true },
        variable_types: VariableTypeHints {
            enabled: true,
            suppress_when_type_matches_name: false,
        },
        property_declaration_types: HintToggle { enabled: true },
        function_like_return_types: HintToggle { enabled: true },
        enum_member_values: HintToggle { enabled: true },
    }
}

/// The static configuration merged into the language server's initialization
/// handshake: the formatter is provided, incomplete completions are not
/// filtered, and both languages get the full inlay-hint settings.
pub fn language_server_initialization_options() -> (o: InitializationOptions)
    ensures
        o.provide_formatter,
        o.dont_filter_incomplete_completions,
        all_hints_on(o.typescript),
        all_hints_on(o.javascript),
{
    InitializationOptions {
        provide_formatter: true,
        dont_filter_incomplete_completions: true,
        typescript: default_inlay_hints(),
        javascript: default_inlay_hints(),
    }
}

/// A global-plugin entry for a cooperating TypeScript language server: the
/// plugin package's name, where it lies on disk, and that it is enabled for
/// the workspace's own TypeScript versions.
#[derive(Debug, Clone, PartialEq, Eq)]
pub struct TypescriptPlugin {
    pub name: String,
    pub location: String,
    pub enable_for_workspace_typescript_versions: bool,
}

/// Cross-server configuration, keyed by the identity of a different
/// cooperating language server: exactly the TypeScript server gets a plugin
/// entry pointing at the installed plugin package; every other server gets
/// nothing. The plugin's location is recomputed from the working directory on
/// every call; a working directory the host could not resolve fails the call
/// whatever the target server is.
pub fn language_server_additional_workspace_configuration(
    target_id: &str,
    cwd: Result<String, String>,
) -> (r: Result<Option<TypescriptPlugin>, Error>)
    ensures
        match cwd {
            Err(e) => r == Result::<Option<TypescriptPlugin>, Error>::Err(Error::Path(e)),
            Ok(c) => {
                if target_id@ == "vtsls"@ {
                    r matches Ok(Some(p)) && p.name@ == "typescript-svelte-plugin"@
                        && p.location@ == spec_package_path(c@, "typescript-svelte-plugin"@)
                        && p.enable_for_workspace_typescript_versions
                } else {
                    r matches Ok(o) && o is None
                }
            },
        },
{
    let plugin_name = typescript_plugin_package_name();
    let location = match get_package_path(cwd, plugin_name.as_str()) {
        Ok(p) => p,
        Err(e) => {
            return Err(e);
        },
    };
    let target = target_id.to_owned();
    let vtsls = "vtsls".to_owned();
    if target == vtsls {
        Ok(
            Some(
                TypescriptPlugin {
                    name: plugin_name,
                    location,
                    enable_for_workspace_typescript_versions: true,
                },
            ),
        )
    } else {
        Ok(None)
    }
}

} // verus!
