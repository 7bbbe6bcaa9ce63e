use vstd::prelude::*;

verus! {

/// A launch descriptor: everything needed to start a server process. The host
/// executes it; this library only constructs it.
#[derive(Debug, Clone, PartialEq, Eq)]
pub struct Command {
    /// Path of the executable to run.
    pub command: String,
    /// Arguments, in order.
    pub args: Vec<String>,
    /// Environment variables handed to the process.
    pub env: Vec<(String, String)>,
}

/// The argument list every server launch gets: the entry script followed by
/// the flag that puts the server on standard input/output.
pub open spec fn launch_args_ok(args: Seq<String>, entry_script: Seq<char>) -> bool {
    &&& args.len() == 2
    &&& args[0]@ == entry_script
    &&& args[1]@ == "--stdio"@
}

/// Builds the launch descriptor for a given executable and entry script, with
/// an empty environment.
pub fn build_command(executable: String, entry_script: &str) -> (c: Command)
    ensures
        c.command@ == executable@,
        launch_args_ok(c.args@, entry_script@),
        c.env@.len() == 0,
{
    let mut args: Vec<String> = Vec::new();
    args.push(entry_script.to_owned());
    args.push("--stdio".to_owned());
    Command { command: executable, args, env: Vec::new() }
}

} // verus!
