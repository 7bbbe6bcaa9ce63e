use vstd::prelude::*;
use vstd::string::StringExecFns;
use crate::error::Error;
use crate::launch::Command;
use crate::launch::build_command;
use crate::launch::launch_args_ok;

verus! {

/// Which JavaScript runtime launches the servers. Chosen once per process
/// lifetime, when the extension starts, by probing the system `PATH` for the
/// alternative runtime; immutable afterwards.
#[derive(Debug, Clone, PartialEq, Eq)]
pub enum Runtime {
    /// The alternative runtime was found on `PATH`, at this path.
    Bun(String),
    /// Fall back to the host's bundled runtime, resolved anew at each launch.
    Node,
}

/// How one package installation is to be carried out.
#[derive(Debug, Clone, PartialEq, Eq)]
pub enum InstallInvocation {
    /// Spawn `program` with `args` and wait for it to exit.
    Exec { program: String, args: Vec<String> },
    /// Ask the host's package manager to install `package_name` at `version`.
    HostNpm { package_name: String, version: String },
}

impl Runtime {
    /// Turns the answer of the `PATH` probe into the runtime choice: the
    /// alternative runtime wherever the probe found it, the host's bundled
    /// runtime otherwise.
    pub fn new(bun_path: Option<String>) -> (r: Runtime)
        ensures
            match bun_path {
                Some(p) => r == Runtime::Bun(p),
                None => r == Runtime::Node,
            },
    {
        match bun_path {
            Some(p) => Runtime::Bun(p),
            None => Runtime::Node,
        }
    }

    /// Builds the launch descriptor for a server entry script. The alternative
    /// runtime launches directly from its probed path; the host's runtime uses
    /// `node_binary`, the host's freshly resolved answer for its bundled
    /// runtime path, and a failed resolution propagates unchanged. Both
    /// branches pass exactly the entry script and the standard-input/output
    /// flag as arguments.
    pub fn server_command(&self, server_path: &str, node_binary: Result<String, String>) -> (r: Result<
        Command,
        Error,
    >)
        ensures
            match self {
                Runtime::Bun(path) => (r matches Ok(c) && c.command@ == path@
                    && launch_args_ok(c.args@, server_path@) && c.env@.len() == 0),
                Runtime::Node => match node_binary {
                    Ok(node) => (r matches Ok(c) && c.command@ == node@
                        && launch_args_ok(c.args@, server_path@) && c.env@.len() == 0),
                    Err(e) => r == Result::<Command, Error>::Err(Error::HostResolution(e)),
                },
            },
    {
        let executable: String = match self {
            Runtime::Bun(path) => path.clone(),
            Runtime::Node => match node_binary {
                Ok(node) => node,
                Err(e) => {
                    return Err(Error::HostResolution(e));
                },
            },
        };
        Ok(build_command(executable, server_path))
    }

    /// Describes how to install a package with this runtime: the alternative
    /// runtime adds the package itself (`add <name>@<version>`), the host's
    /// runtime goes through the host's package manager.
    pub fn install_invocation(&self, package_name: &str, version: &str) -> (inv: InstallInvocation)
        ensures
            match self {
                Runtime::Bun(path) => (inv matches InstallInvocation::Exec { program, args }
                    && program@ == path@ && args@.len() == 2 && args@[0]@ == "add"@
                    && args@[1]@ == package_name@ + "@"@ + version@),
                Runtime::Node => (inv matches InstallInvocation::HostNpm {
                    package_name: p,
                    version: v,
                } && p@ == package_name@ && v@ == version@),
            },
    {
        match self {
            Runtime::Bun(path) => {
                let mut pinned = package_name.to_owned();
                pinned.append("@");
                pinned.append(version);
                let mut args: Vec<String> = Vec::new();
                args.push("add".to_owned());
                args.push(pinned);
                InstallInvocation::Exec { program: path.clone(), args }
            },
            Runtime::Node => InstallInvocation::HostNpm {
                package_name: package_name.to_owned(),
                version: version.to_owned(),
            },
        }
    }

    /// The runtime's name, with the probed path for the alternative runtime.
    pub fn describe(&self) -> (s: String)
        ensures
            match self {
                Runtime::Bun(path) => s@ == "Bun("@ + path@ + ")"@,
                Runtime::Node => s@ == "Node"@,
            },
    {
        match self {
            Runtime::Bun(path) => {
                let mut s = "Bun(".to_owned();
                s.append(path.as_str());
                s.append(")");
                s
            },
            Runtime::Node => "Node".to_owned(),
        }
    }
}

} // verus!
