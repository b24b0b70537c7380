use vstd::prelude::*;

use vstd::string::StringExecFns;

use crate::config::{DeploymentConfig, TrafficConfig};
use crate::text::{decimal_of, usize_decimal};

verus! {

/// The label of the task at `index`: its own name, or one made from its
/// position.
pub open spec fn label_of(name: Option<String>, index: nat) -> Seq<char> {
    match name {
        Some(n) => n@,
        None => "barrage-task-"@ + decimal_of(index),
    }
}

/// The label of the task at `index`.
pub fn task_label(name: &Option<String>, index: usize) -> (r: String)
    ensures
        r@ == label_of(*name, index as nat),
{
    match name {
        Some(n) => String::from_str(n.as_str()),
        None => {
            let mut r = String::from_str("barrage-task-");
            let d = usize_decimal(index);
            r.append(d.as_str());
            r
        },
    }
}

/// The directory where a worker's container mounts the shared configuration.
pub open spec fn mount_path_of() -> Seq<char> {
    "/etc/barrage"@
}

/// The file of the shared configuration that holds the task list.
pub open spec fn config_file_of() -> Seq<char> {
    "traffic.yaml"@
}

/// The name of the configuration map that holds the task list.
pub open spec fn config_map_name_of() -> Seq<char> {
    "barrage-config"@
}

/// The manifest file of the configuration map, beside the workers' ones.
pub open spec fn config_map_file_of() -> Seq<char> {
    "configmap.yaml"@
}

/// The manifest file of the configuration map, beside the workers' ones.
pub fn config_map_file() -> (r: String)
    ensures
        r@ == config_map_file_of(),
{
    String::from_str("configmap.yaml")
}

/// Where a worker finds the shared task list.
pub open spec fn shared_config_path() -> Seq<char> {
    mount_path_of() + "/"@ + config_file_of()
}

/// The directory where a worker's container mounts the shared configuration.
pub fn mount_path() -> (r: String)
    ensures
        r@ == mount_path_of(),
{
    String::from_str("/etc/barrage")
}

/// The file of the shared configuration that holds the task list.
pub fn config_file() -> (r: String)
    ensures
        r@ == config_file_of(),
{
    String::from_str("traffic.yaml")
}

/// The name of the configuration map that holds the task list.
pub fn config_map_name() -> (r: String)
    ensures
        r@ == config_map_name_of(),
{
    String::from_str("barrage-config")
}

/// The arguments a worker for the task at `index` is started with.
pub open spec fn worker_args_of(index: nat) -> Seq<Seq<char>> {
    seq!["worker"@, "--task-index"@, decimal_of(index), "--config"@, shared_config_path()]
}

/// The arguments a worker for the task at `index` is started with.
pub fn worker_args(index: usize) -> (r: Vec<String>)
    ensures
        r@.map_values(|a: String| a@) == worker_args_of(index as nat),
{
    let mut path = mount_path();
    path.append("/");
    let file = config_file();
    path.append(file.as_str());
    let mut r: Vec<String> = Vec::new();
    r.push(String::from_str("worker"));
    r.push(String::from_str("--task-index"));
    r.push(usize_decimal(index));
    r.push(String::from_str("--config"));
    r.push(path);
    assert(r@.map_values(|a: String| a@) =~= worker_args_of(index as nat));
    r
}

/// Key and value pairs, as text.
pub open spec fn pairs_view(p: Seq<(String, String)>) -> Seq<(Seq<char>, Seq<char>)> {
    p.map_values(|kv: (String, String)| (kv.0@, kv.1@))
}

/// The labels of a worker: the application, and the task it runs. They
/// mark the deployment, select its pods and mark each pod.
pub open spec fn labels_of(label: Seq<char>) -> Seq<(Seq<char>, Seq<char>)> {
    seq![("app"@, "barrage"@), ("task"@, label)]
}

/// What each worker container is given, and also the most it may use.
pub open spec fn resources_of(cpu: Seq<char>, mem: Seq<char>) -> Seq<(Seq<char>, Seq<char>)> {
    seq![("cpu"@, cpu), ("memory"@, mem)]
}

fn pair(k: &str, v: String) -> (r: (String, String))
    ensures
        r.0@ == k@,
        r.1@ == v@,
{
    (String::from_str(k), v)
}

/// What one deployable worker runs: which task, how many copies, with what
/// resources, and how its container reaches the shared configuration.
pub struct WorkerSpec {
    pub name: String,
    pub replicas: i32,
    /// Labels of the deployment, its pod selector and its pods alike.
    pub labels: Vec<(String, String)>,
    /// The annotation key stamped with the time the manifest was written.
    pub restart_annotation: String,
    /// Both the requests and the limits of the container.
    pub resources: Vec<(String, String)>,
    pub container: String,
    pub image: String,
    pub image_pull_policy: String,
    pub command: Vec<String>,
    pub args: Vec<String>,
    /// The volume that carries the configuration map into the container.
    pub volume: String,
    pub config_map: String,
    pub mount_path: String,
}

/// `w` is the worker for the task at `index`.
pub open spec fn is_worker_for(
    w: WorkerSpec,
    dep: DeploymentConfig,
    traffic: TrafficConfig,
    index: nat,
) -> bool {
    let label = label_of(traffic.tasks@[index as int].name, index);
    &&& w.name@ == label
    &&& w.replicas == dep.instance
    &&& pairs_view(w.labels@) == labels_of(label)
    &&& w.restart_annotation@ == "barrage.io/restartedAt"@
    &&& pairs_view(w.resources@) == resources_of(dep.cpu@, dep.mem@)
    &&& w.container@ == "barrage"@
    &&& w.image@ == "barrage:latest"@
    &&& w.image_pull_policy@ == "Always"@
    &&& w.command@.map_values(|a: String| a@) == seq!["barrage"@]
    &&& w.args@.map_values(|a: String| a@) == worker_args_of(index)
    &&& w.volume@ == "config-volume"@
    &&& w.config_map@ == config_map_name_of()
    &&& w.mount_path@ == mount_path_of()
}

/// The worker for the task at `index`.
pub fn worker_spec(dep: &DeploymentConfig, traffic: &TrafficConfig, index: usize) -> (r:
    WorkerSpec)
    requires
        index < traffic.tasks@.len(),
    ensures
        is_worker_for(r, *dep, *traffic, index as nat),
{
    let name = task_label(&traffic.tasks[index].name, index);
    let mut labels: Vec<(String, String)> = Vec::new();
    labels.push(pair("app", String::from_str("barrage")));
    labels.push(pair("task", String::from_str(name.as_str())));
    assert(pairs_view(labels@) =~= labels_of(name@));
    let mut resources: Vec<(String, String)> = Vec::new();
    resources.push(pair("cpu", String::from_str(dep.cpu.as_str())));
    resources.push(pair("memory", String::from_str(dep.mem.as_str())));
    assert(pairs_view(resources@) =~= resources_of(dep.cpu@, dep.mem@));
    let mut command: Vec<String> = Vec::new();
    command.push(String::from_str("barrage"));
    assert(command@.map_values(|a: String| a@) =~= seq!["barrage"@]);
    WorkerSpec {
        name,
        replicas: dep.instance,
        labels,
        restart_annotation: String::from_str("barrage.io/restartedAt"),
        resources,
        container: String::from_str("barrage"),
        image: String::from_str("barrage:latest"),
        image_pull_policy: String::from_str("Always"),
        command,
        args: worker_args(index),
        volume: String::from_str("config-volume"),
        config_map: config_map_name(),
        mount_path: mount_path(),
    }
}
/// One worker for each task, in the order of the task list.
pub fn worker_specs(dep: &DeploymentConfig, traffic: &TrafficConfig) -> (r: Vec<WorkerSpec>)
    ensures
        r@.len() == traffic.tasks@.len(),
        forall|i: int|
            0 <= i < r@.len() ==> is_worker_for(#[trigger] r@[i], *dep, *traffic, i as nat),
{
    let mut r: Vec<WorkerSpec> = Vec::new();
    let mut i: usize = 0;
    while i < traffic.tasks.len()
        invariant
            i <= traffic.tasks@.len(),
            r@.len() == i,
            forall|j: int|
                0 <= j < i ==> is_worker_for(#[trigger] r@[j], *dep, *traffic, j as nat),
        decreases traffic.tasks@.len() - i,
    {
        r.push(worker_spec(dep, traffic, i));
        i = i + 1;
    }
    r
}

} // verus!
