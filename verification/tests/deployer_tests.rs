use operator::deployer::{
    aggregate, deploy, deploy_component, remove, Action, ComponentTask, TaskState, TransportEvent,
};
use operator::ephemeral_roles::{Component, ERVersion, ERVersionSpec};
use operator::errors::{ClusterError, ComponentFailure, DeployError, FetchError};

const NS_YAML: &str = "apiVersion: v1\nkind: Namespace\nmetadata:\n  name: team-a\n";
const DEPLOY_YAML: &str =
    "apiVersion: apps/v1\nkind: Deployment\nmetadata:\n  name: web\n  namespace: team-a\nspec:\n  replicas: 2\n";

fn component(files: &[&str]) -> Component {
    Component {
        version: "1.2.3".to_string(),
        files: files.iter().map(|f| f.to_string()).collect(),
    }
}

struct Script {
    fetches: Vec<Result<String, FetchError>>,
    creates: Vec<Result<(), ClusterError>>,
    updates: Vec<Result<(), ClusterError>>,
}

/// Drives one component task to completion against scripted transport
/// answers, logging every action the task asks for.
fn drive(mut task: ComponentTask, mut script: Script) -> (ComponentTask, Vec<String>) {
    let mut log: Vec<String> = Vec::new();
    loop {
        match task.next_action() {
            None => return (task, log),
            Some(Action::Fetch { reference }) => {
                log.push(format!("fetch {}", reference));
                task = task.step(TransportEvent::Fetched(script.fetches.remove(0)));
            }
            Some(Action::Create { object, .. }) => {
                let kind = object.types.as_ref().map(|t| t.kind.clone()).unwrap_or_default();
                log.push(format!("create {}", kind));
                task = task.step(TransportEvent::Created(script.creates.remove(0)));
            }
            Some(Action::Update { name, field_owner, .. }) => {
                log.push(format!("update {} by {}", name, field_owner));
                task = task.step(TransportEvent::Updated(script.updates.remove(0)));
            }
        }
    }
}

fn not_found() -> Result<String, FetchError> {
    Err(FetchError { message: "status 404".to_string() })
}

fn conflict() -> Result<(), ClusterError> {
    Err(ClusterError::Status { code: 409, message: "already exists".to_string() })
}

#[test]
fn scenario_a_both_manifests_apply_in_listed_order() {
    let task = deploy_component(
        "comp1".to_string(),
        component(&["http://x/ns.yaml", "http://x/deploy.yaml"]),
    );
    let script = Script {
        fetches: vec![Ok(NS_YAML.to_string()), Ok(DEPLOY_YAML.to_string())],
        creates: vec![Ok(()), Ok(())],
        updates: vec![],
    };
    let (done, log) = drive(task, script);
    assert!(matches!(done.state, TaskState::Succeeded));
    assert_eq!(
        log,
        vec![
            "fetch http://x/ns.yaml",
            "create Namespace",
            "fetch http://x/deploy.yaml",
            "create Deployment",
        ],
    );
    let outcome = aggregate(vec![done.outcome()]);
    assert!(outcome.is_ok());
}

#[test]
fn p1_first_failure_stops_the_component() {
    let task = deploy_component(
        "comp".to_string(),
        component(&["http://x/a.yaml", "http://x/b.yaml", "http://x/c.yaml"]),
    );
    let script = Script { fetches: vec![not_found()], creates: vec![], updates: vec![] };
    let (done, log) = drive(task, script);
    // Exactly one call was recorded: b and c were never attempted.
    assert_eq!(log, vec!["fetch http://x/a.yaml"]);
    assert!(done.next_action().is_none());
    let failure = done.outcome().unwrap_err();
    assert_eq!(failure.component, "comp");
    assert_eq!(failure.reference, "http://x/a.yaml");
    assert!(matches!(failure.error, DeployError::Fetch { ref message } if message == "status 404"));
}

#[test]
fn p2_scenario_b_one_failure_does_not_suppress_the_other_component() {
    let failing = deploy_component("x".to_string(), component(&["http://x/only.yaml"]));
    let (failing_done, _) = drive(
        failing,
        Script { fetches: vec![not_found()], creates: vec![], updates: vec![] },
    );
    let succeeding = deploy_component("y".to_string(), component(&["http://x/ns.yaml"]));
    let (succeeding_done, log) = drive(
        succeeding,
        Script { fetches: vec![Ok(NS_YAML.to_string())], creates: vec![Ok(())], updates: vec![] },
    );
    // Y's manifest really was applied.
    assert_eq!(log, vec!["fetch http://x/ns.yaml", "create Namespace"]);
    let y_outcome = succeeding_done.outcome();
    assert!(y_outcome.is_ok());

    let aggregated = aggregate(vec![failing_done.outcome(), y_outcome]).unwrap_err();
    assert_eq!(aggregated.errors.len(), 1);
    assert_eq!(aggregated.errors[0].component, "x");
    assert_eq!(aggregated.errors[0].reference, "http://x/only.yaml");
}

#[test]
fn p3_reapplying_an_unchanged_manifest_succeeds_through_update() {
    // First rollout: the object does not exist yet, create succeeds.
    let first = deploy_component("comp".to_string(), component(&["http://x/deploy.yaml"]));
    let (first_done, first_log) = drive(
        first,
        Script {
            fetches: vec![Ok(DEPLOY_YAML.to_string())],
            creates: vec![Ok(())],
            updates: vec![],
        },
    );
    assert!(first_done.outcome().is_ok());
    assert_eq!(first_log, vec!["fetch http://x/deploy.yaml", "create Deployment"]);

    // Second rollout of the same manifest: create reports the conflict,
    // the update branch applies it, and the outcome is again success.
    let second = deploy_component("comp".to_string(), component(&["http://x/deploy.yaml"]));
    let (second_done, second_log) = drive(
        second,
        Script {
            fetches: vec![Ok(DEPLOY_YAML.to_string())],
            creates: vec![conflict()],
            updates: vec![Ok(())],
        },
    );
    assert!(second_done.outcome().is_ok());
    assert_eq!(
        second_log,
        vec![
            "fetch http://x/deploy.yaml",
            "create Deployment",
            "update web by ephemeral-roles-operator",
        ],
    );
}

#[test]
fn p4_conflict_issues_exactly_one_update_and_no_create_retry() {
    let task = deploy_component("comp".to_string(), component(&["http://x/deploy.yaml"]));
    let (done, log) = drive(
        task,
        Script {
            fetches: vec![Ok(DEPLOY_YAML.to_string())],
            creates: vec![conflict()],
            updates: vec![Ok(())],
        },
    );
    assert!(matches!(done.state, TaskState::Succeeded));
    let creates = log.iter().filter(|l| l.starts_with("create")).count();
    let updates = log.iter().filter(|l| l.starts_with("update")).count();
    assert_eq!(creates, 1);
    assert_eq!(updates, 1);
}

#[test]
fn non_conflict_create_failure_is_fatal() {
    let task = deploy_component("comp".to_string(), component(&["http://x/deploy.yaml"]));
    let (done, log) = drive(
        task,
        Script {
            fetches: vec![Ok(DEPLOY_YAML.to_string())],
            creates: vec![Err(ClusterError::Status { code: 500, message: "boom".to_string() })],
            updates: vec![],
        },
    );
    assert_eq!(log.iter().filter(|l| l.starts_with("update")).count(), 0);
    let failure = done.outcome().unwrap_err();
    assert!(matches!(
        failure.error,
        DeployError::Create(ClusterError::Status { code: 500, .. })
    ));
}

#[test]
fn update_failure_is_fatal() {
    let task = deploy_component("comp".to_string(), component(&["http://x/deploy.yaml"]));
    let (done, _) = drive(
        task,
        Script {
            fetches: vec![Ok(DEPLOY_YAML.to_string())],
            creates: vec![conflict()],
            updates: vec![Err(ClusterError::Transport { message: "timed out".to_string() })],
        },
    );
    let failure = done.outcome().unwrap_err();
    assert!(matches!(
        failure.error,
        DeployError::Update(ClusterError::Transport { ref message }) if message == "timed out"
    ));
}

#[test]
fn p5_object_without_type_descriptor_fails_before_any_cluster_call() {
    let task = deploy_component("comp".to_string(), component(&["http://x/odd.yaml"]));
    let (done, log) = drive(
        task,
        Script {
            fetches: vec![Ok("metadata:\n  name: mystery\n".to_string())],
            creates: vec![],
            updates: vec![],
        },
    );
    // Zero create or update calls were recorded for that manifest.
    assert_eq!(log, vec!["fetch http://x/odd.yaml"]);
    let failure = done.outcome().unwrap_err();
    match failure.error {
        DeployError::Unknown(u) => {
            assert!(u.object.types.is_none());
            assert_eq!(u.object.name, Some("mystery".to_string()));
        }
        _ => panic!("expected the unknown-object failure"),
    }
}

#[test]
fn malformed_manifest_fails_at_decoding() {
    let task = deploy_component("comp".to_string(), component(&["http://x/bad.yaml"]));
    let (done, log) = drive(
        task,
        Script {
            fetches: vec![Ok(": not yaml: [\n".to_string())],
            creates: vec![],
            updates: vec![],
        },
    );
    assert_eq!(log.len(), 1);
    let failure = done.outcome().unwrap_err();
    assert!(matches!(failure.error, DeployError::Decode));
}

#[test]
fn decoded_object_carries_identity_and_verbatim_body() {
    let mut task = deploy_component("comp".to_string(), component(&["http://x/deploy.yaml"]));
    assert!(matches!(task.next_action(), Some(Action::Fetch { .. })));
    task = task.step(TransportEvent::Fetched(Ok(DEPLOY_YAML.to_string())));
    match task.next_action() {
        Some(Action::Create { handle, object }) => {
            let types = object.types.as_ref().unwrap();
            assert_eq!(types.api_version, "apps/v1");
            assert_eq!(types.kind, "Deployment");
            assert_eq!(object.name, Some("web".to_string()));
            assert_eq!(object.namespace, Some("team-a".to_string()));
            assert_eq!(object.body, DEPLOY_YAML);
            assert_eq!(handle.group, "apps");
            assert_eq!(handle.version, "v1");
            assert_eq!(handle.kind, "Deployment");
        }
        _ => panic!("expected a create action"),
    }
}

#[test]
fn component_without_manifests_succeeds_at_once() {
    let task = deploy_component("empty".to_string(), component(&[]));
    assert!(task.next_action().is_none());
    assert!(task.outcome().is_ok());
}

#[test]
fn aggregate_of_no_failures_is_success() {
    assert!(aggregate(vec![]).is_ok());
    assert!(aggregate(vec![Ok(()), Ok(())]).is_ok());
}

#[test]
fn aggregate_keeps_every_failure_in_completion_order() {
    let f1 = ComponentFailure {
        component: "a".to_string(),
        reference: "r1".to_string(),
        error: DeployError::Decode,
    };
    let f2 = ComponentFailure {
        component: "b".to_string(),
        reference: "r2".to_string(),
        error: DeployError::Fetch { message: "status 404".to_string() },
    };
    let joined = aggregate(vec![Ok(()), Err(f1), Ok(()), Err(f2)]).unwrap_err();
    assert_eq!(joined.errors.len(), 2);
    assert_eq!(joined.errors[0].component, "a");
    assert_eq!(joined.errors[1].component, "b");
}

#[test]
fn deploy_fans_out_one_task_per_component() {
    let er_version = ERVersion {
        name: "v1.2.3".to_string(),
        spec: ERVersionSpec {
            components: vec![
                ("one".to_string(), component(&["http://x/a.yaml"])),
                ("two".to_string(), component(&[])),
            ],
        },
        status: None,
    };
    let tasks = deploy(er_version);
    assert_eq!(tasks.len(), 2);
    assert_eq!(tasks[0].component, "one");
    assert!(matches!(tasks[0].state, TaskState::Fetching { index: 0 }));
    assert_eq!(tasks[1].component, "two");
    assert!(matches!(tasks[1].state, TaskState::Succeeded));
}

#[test]
fn remove_is_a_no_op_success() {
    let er_version = ERVersion {
        name: "gone".to_string(),
        spec: ERVersionSpec { components: vec![] },
        status: None,
    };
    assert!(remove(&er_version).is_ok());
}
