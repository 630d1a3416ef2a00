//! The proxy's command line and the texts of its spawn failures.
use vstd::prelude::*;
use crate::text::{decimal, join2, port_text, split_on_spaces, split_spaces, string_views};

verus! {

/// File name of the relay script that the proxy loads, kept in the binary
/// directory.
pub fn relay_script_name() -> (r: &'static str)
    ensures
        r@ == "send_traffic_to_videodownloader.py"@,
{
    "send_traffic_to_videodownloader.py"
}

/// What the proxy will be run with: its arguments, the directory that holds
/// its binary, and the path of the relay script in that directory.
#[derive(Debug)]
pub struct MitmproxyRunner {
    pub args: Vec<String>,
    pub bin_dir: String,
    pub script_path: String,
}

impl MitmproxyRunner {
    /// A runner with no arguments yet.
    pub fn new(bin_dir: String, script_path: String) -> (r: Self)
        ensures
            r.args@.len() == 0,
            r.bin_dir@ == bin_dir@,
            r.script_path@ == script_path@,
    {
        MitmproxyRunner { args: Vec::new(), bin_dir, script_path }
    }

    /// Appends the given arguments, then `-s` and the relay script's path.
    pub fn with_args(self, args: Vec<String>) -> (r: Self)
        ensures
            string_views(r.args@) == string_views(self.args@) + string_views(args@) + seq![
                "-s"@,
                self.script_path@,
            ],
            r.bin_dir@ == self.bin_dir@,
            r.script_path@ == self.script_path@,
    {
        let mut all = self.args;
        let mut given = args;
        let ghost before = all@;
        let ghost added = given@;
        all.append(&mut given);
        all.push("-s".to_owned());
        all.push(self.script_path.clone());
        proof {
            assert(all@ =~= before + added + seq![all@[all@.len() - 2], all@[all@.len() - 1]]);
            assert(string_views(all@) =~= string_views(before) + string_views(added) + seq![
                "-s"@,
                self.script_path@,
            ]);
        }
        MitmproxyRunner { args: all, bin_dir: self.bin_dir, script_path: self.script_path }
    }

    /// The search path the proxy runs with: the binary directory, then the
    /// inherited path, joined by the platform's separator.
    pub fn search_path(&self, inherited: &str, windows: bool) -> (r: String)
        ensures
            r@ == self.bin_dir@ + (if windows { ";"@ } else { ":"@ }) + inherited@,
    {
        let head = join2(self.bin_dir.as_str(), if windows { ";" } else { ":" });
        join2(head.as_str(), inherited)
    }
}

/// Arguments of a scanning proxy: the user's extra arguments split at single
/// spaces, then quiet mode and the port to listen on.
pub open spec fn scanner_arg_views(extra: Seq<char>, port: u16) -> Seq<Seq<char>> {
    split_spaces(extra) + seq!["-q"@, "--listen-port"@, decimal(port as nat)]
}

pub fn scanner_args(extra: &str, port: u16) -> (r: Vec<String>)
    ensures
        string_views(r@) == scanner_arg_views(extra@, port),
{
    let mut v = split_on_spaces(extra);
    let ghost before = v@;
    v.push("-q".to_owned());
    v.push("--listen-port".to_owned());
    v.push(port_text(port));
    proof {
        assert(v@ =~= before + seq![v@[v@.len() - 3], v@[v@.len() - 2], v@[v@.len() - 1]]);
        assert(string_views(v@) =~= string_views(before) + seq!["-q"@, "--listen-port"@, decimal(port as nat)]);
    }
    v
}

/// Why spawning or running the proxy failed, with the underlying message.
#[derive(Debug, PartialEq, Eq)]
pub enum SpawnFailure {
    /// The platform hook that prepares the command failed.
    Setup(String),
    /// The process could not be created.
    Launch(String),
    /// The platform descriptor of the new process could not be derived.
    Describe(String),
    /// A run to completion could not be performed.
    Run(String),
    /// The background task of a run to completion failed.
    Task(String),
}

pub open spec fn failure_text(f: SpawnFailure) -> Seq<char> {
    match f {
        SpawnFailure::Setup(m) => "mitmweb spawn setup failed: "@ + m@,
        SpawnFailure::Launch(m) => "mitmweb failed to spawn: "@ + m@,
        SpawnFailure::Describe(m) => m@,
        SpawnFailure::Run(m) => "mitmweb failed to run: "@ + m@,
        SpawnFailure::Task(m) => "mitmweb task failed: "@ + m@,
    }
}

impl SpawnFailure {
    /// Whether a process was already created and must be killed before the
    /// failure is reported, so that none is left running.
    pub fn needs_kill(&self) -> (r: bool)
        ensures
            r == (*self is Describe),
    {
        match self {
            SpawnFailure::Describe(_) => true,
            _ => false,
        }
    }

    /// The text reported for the failure.
    pub fn message(&self) -> (r: String)
        ensures
            r@ == failure_text(*self),
    {
        match self {
            SpawnFailure::Setup(m) => join2("mitmweb spawn setup failed: ", m.as_str()),
            SpawnFailure::Launch(m) => join2("mitmweb failed to spawn: ", m.as_str()),
            SpawnFailure::Describe(m) => m.clone(),
            SpawnFailure::Run(m) => join2("mitmweb failed to run: ", m.as_str()),
            SpawnFailure::Task(m) => join2("mitmweb task failed: ", m.as_str()),
        }
    }
}

} // verus!
