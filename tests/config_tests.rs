use barrage::config::{DeploymentConfig, TaskConfig, TaskType, TrafficConfig};
use barrage::error::{ConfigError, SendError, trigger_reply};
use barrage::manifest::{
    config_file, config_map_file, config_map_name, mount_path, task_label, worker_args,
    worker_specs,
};
use barrage::payload::periodic_payload;

fn task(name: Option<&str>, task_type: TaskType) -> TaskConfig {
    TaskConfig {
        name: name.map(|n| n.to_string()),
        task_type,
        host: "http://example.com".to_string(),
        path: None,
        topic: None,
        frequency: 5,
        duration: "10s".to_string(),
    }
}

#[test]
fn task_lookup_by_index() {
    let traffic = TrafficConfig {
        tasks: vec![task(Some("a"), TaskType::Http), task(None, TaskType::Kafka)],
    };
    assert_eq!(traffic.task(1).unwrap().task_type, TaskType::Kafka);
    assert_eq!(traffic.task(0).unwrap().name, Some("a".to_string()));
    assert!(matches!(
        traffic.task(2),
        Err(ConfigError::MissingTask { index: 2, count: 2 })
    ));
}

#[test]
fn labels_fall_back_to_position() {
    assert_eq!(task_label(&Some("my-http-task".to_string()), 3), "my-http-task");
    assert_eq!(task_label(&None, 0), "barrage-task-0");
    assert_eq!(task_label(&None, 12), "barrage-task-12");
}

#[test]
fn worker_arguments_carry_the_index() {
    assert_eq!(
        worker_args(7),
        vec!["worker", "--task-index", "7", "--config", "/etc/barrage/traffic.yaml"]
    );
}

#[test]
fn one_worker_per_task() {
    let dep = DeploymentConfig { instance: 2, cpu: "100m".to_string(), mem: "128Mi".to_string() };
    let traffic = TrafficConfig {
        tasks: vec![task(Some("my-http-task"), TaskType::Http), task(None, TaskType::Http)],
    };
    let workers = worker_specs(&dep, &traffic);
    assert_eq!(workers.len(), 2);
    assert_eq!(workers[0].name, "my-http-task");
    assert_eq!(workers[1].name, "barrage-task-1");
    assert_eq!(workers[1].replicas, 2);
    assert_eq!(workers[1].args[2], "1");
    assert_eq!(
        workers[0].labels,
        vec![
            ("app".to_string(), "barrage".to_string()),
            ("task".to_string(), "my-http-task".to_string()),
        ]
    );
    assert_eq!(
        workers[1].resources,
        vec![("cpu".to_string(), "100m".to_string()), ("memory".to_string(), "128Mi".to_string())]
    );
    assert_eq!(workers[1].container, "barrage");
    assert_eq!(workers[1].image, "barrage:latest");
    assert_eq!(workers[1].image_pull_policy, "Always");
    assert_eq!(workers[1].command, vec!["barrage"]);
    assert_eq!(workers[1].volume, "config-volume");
    assert_eq!(workers[1].config_map, "barrage-config");
    assert_eq!(workers[1].mount_path, "/etc/barrage");
    assert_eq!(workers[1].restart_annotation, "barrage.io/restartedAt");
}

#[test]
fn shared_configuration_names() {
    assert_eq!(config_map_name(), "barrage-config");
    assert_eq!(config_file(), "traffic.yaml");
    assert_eq!(config_map_file(), "configmap.yaml");
    assert_eq!(mount_path(), "/etc/barrage");
}

#[test]
fn periodic_payload_is_json() {
    assert_eq!(
        periodic_payload("2024-01-01T00:00:00+00:00"),
        "{\"timestamp\":\"2024-01-01T00:00:00+00:00\",\"message\":\"periodic trigger\"}"
    );
    assert_eq!(
        periodic_payload("a\"b"),
        "{\"timestamp\":\"a\\\"b\",\"message\":\"periodic trigger\"}"
    );
}

#[test]
fn trigger_reply_surfaces_the_outcome() {
    assert_eq!(trigger_reply(&Ok(())), Ok("Message sent successfully".to_string()));
    assert_eq!(
        trigger_reply(&Err(SendError::Status(503))),
        Err("Failed to send message: HTTP: Failed to send data, status: 503".to_string())
    );
    assert_eq!(
        trigger_reply(&Err(SendError::Broker("timed out".to_string()))),
        Err("Failed to send message: Kafka send error: timed out".to_string())
    );
}

#[test]
fn send_error_messages() {
    assert_eq!(SendError::Status(404).message(), "HTTP: Failed to send data, status: 404");
    assert_eq!(SendError::Transport("refused".to_string()).message(), "HTTP: refused");
}
