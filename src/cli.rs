use vstd::prelude::*;

use vstd::string::StringExecFns;

use crate::manifest::{config_map_file, config_map_file_of};

verus! {

/// The command line: one subcommand.
#[derive(Clone, Debug)]
pub struct Cli {
    pub command: Commands,
}

/// What the program is asked to do.
#[derive(Clone, Debug)]
pub enum Commands {
    /// Listen for one-shot triggers.
    Server,
    /// Run the periodic session of one task.
    Worker { task_index: usize, config: String },
    /// Write one worker manifest per task, and the shared configuration.
    Init { config: String, output: String },
    /// Apply the written manifests to the cluster.
    Serve { input: String },
    /// Delete the applied manifests from the cluster.
    Stop { input: String },
}

/// The arguments of the cluster CLI calls, as text.
pub open spec fn steps_view(steps: Seq<Vec<String>>) -> Seq<Seq<Seq<char>>> {
    steps.map_values(|s: Vec<String>| s@.map_values(|a: String| a@))
}

/// Applying what `input` holds: the shared configuration first, since the
/// workers mount it, then every manifest of the directory.
pub open spec fn apply_steps_of(input: Seq<char>) -> Seq<Seq<Seq<char>>> {
    seq![seq!["apply"@, "-f"@, input + "/"@ + config_map_file_of()], seq!["apply"@, "-f"@, input]]
}

/// Removing what `input` holds.
pub open spec fn delete_steps_of(input: Seq<char>) -> Seq<Seq<Seq<char>>> {
    seq![seq!["delete"@, "-f"@, input]]
}

fn file_args(verb: &str, target: String) -> (r: Vec<String>)
    ensures
        r@.map_values(|a: String| a@) == seq![verb@, "-f"@, target@],
{
    let mut r: Vec<String> = Vec::new();
    r.push(String::from_str(verb));
    r.push(String::from_str("-f"));
    r.push(target);
    assert(r@.map_values(|a: String| a@) =~= seq![verb@, "-f"@, target@]);
    r
}

/// The cluster CLI calls that apply the manifests under `input`, in order.
pub fn apply_steps(input: &str) -> (r: Vec<Vec<String>>)
    ensures
        steps_view(r@) == apply_steps_of(input@),
{
    let mut config_map = String::from_str(input);
    config_map.append("/");
    let file = config_map_file();
    config_map.append(file.as_str());
    let mut r: Vec<Vec<String>> = Vec::new();
    r.push(file_args("apply", config_map));
    r.push(file_args("apply", String::from_str(input)));
    assert(steps_view(r@) =~= apply_steps_of(input@));
    r
}

/// The cluster CLI call that deletes the manifests under `input`.
pub fn delete_steps(input: &str) -> (r: Vec<Vec<String>>)
    ensures
        steps_view(r@) == delete_steps_of(input@),
{
    let mut r: Vec<Vec<String>> = Vec::new();
    r.push(file_args("delete", String::from_str(input)));
    assert(steps_view(r@) =~= delete_steps_of(input@));
    r
}

} // verus!
