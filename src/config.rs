use vstd::prelude::*;

use crate::error::ConfigError;

verus! {

/// The transport a task sends over.
#[derive(Clone, Copy, Debug, PartialEq, Eq, Structural)]
pub enum TaskType {
    Http,
    Kafka,
}

/// One traffic task, as configured: where to send, how often, how long.
#[derive(Clone, Debug)]
pub struct TaskConfig {
    pub name: Option<String>,
    pub task_type: TaskType,
    /// The HTTP host, or the broker's bootstrap address.
    pub host: String,
    /// Appended to the host for HTTP tasks.
    pub path: Option<String>,
    /// The topic of a broker task.
    pub topic: Option<String>,
    /// Sends per minute.
    pub frequency: u64,
    /// A time span such as `10s` or `1m`.
    pub duration: String,
}

/// The ordered list of tasks.
#[derive(Clone, Debug)]
pub struct TrafficConfig {
    pub tasks: Vec<TaskConfig>,
}

/// How many workers to run for each task, and what each may use.
#[derive(Clone, Debug)]
pub struct DeploymentConfig {
    pub instance: i32,
    pub cpu: String,
    pub mem: String,
}

impl TrafficConfig {
    /// The task at `index`; a position past the end is a configuration error.
    pub fn task(&self, index: usize) -> (r: Result<&TaskConfig, ConfigError>)
        ensures
            index < self.tasks@.len() <==> r is Ok,
            r is Ok ==> r->Ok_0 == &self.tasks@[index as int],
            r is Err ==> r->Err_0 == (ConfigError::MissingTask {
                index,
                count: self.tasks@.len() as usize,
            }),
    {
        if index < self.tasks.len() {
            Ok(&self.tasks[index])
        } else {
            Err(ConfigError::MissingTask { index, count: self.tasks.len() })
        }
    }
}

} // verus!
