use webhook_helper::controller::{
    Action, Created, CustomAction, RemoteError, UpdateTask, create_action, delete_outcome,
    delete_plan, determine_action, error_policy, fetch_failure_action, plan_update, stage_after,
    update_action,
};
use webhook_helper::crd::{DeploymentType, Stage, WebhookHelperStatus};
use webhook_helper::error::Error;
use webhook_helper::objects::{Deployment, ObjectMeta};
use webhook_helper::operation::{ObjectKind, Operation, RemoteCall, owner_reference};

fn meta(finalizers: Option<Vec<&str>>, deleting: bool) -> ObjectMeta {
    let mut m = ObjectMeta::empty();
    m.finalizers = finalizers.map(|f| f.into_iter().map(|s| s.to_string()).collect());
    if deleting {
        m.deletion_timestamp = Some("2024-01-01T00:00:00Z".to_string());
    }
    m
}

fn named_deployment(name: &str) -> DeploymentType {
    let mut m = ObjectMeta::empty();
    m.name = Some(name.to_string());
    DeploymentType::Deployment(Deployment { metadata: m, spec: None, status: None })
}

#[test]
fn no_finalizer_no_deletion_is_create() {
    assert_eq!(determine_action(&meta(None, false)), CustomAction::Create);
    assert_eq!(determine_action(&meta(Some(vec![]), false)), CustomAction::Create);
}

#[test]
fn own_finalizer_no_deletion_is_update() {
    assert_eq!(determine_action(&meta(Some(vec!["webhook-helper.io"]), false)), CustomAction::Update);
}

#[test]
fn own_finalizer_with_deletion_is_delete() {
    assert_eq!(determine_action(&meta(Some(vec!["other", "webhook-helper.io/cleanup"]), true)), CustomAction::Delete);
}

#[test]
fn deletion_without_own_finalizer_is_noop() {
    assert_eq!(determine_action(&meta(None, true)), CustomAction::NoOp);
    assert_eq!(determine_action(&meta(Some(vec!["other.io"]), true)), CustomAction::NoOp);
}

#[test]
fn foreign_finalizer_is_create() {
    assert_eq!(determine_action(&meta(Some(vec!["webhook-helper"]), false)), CustomAction::Create);
}

#[test]
fn stages_map_to_their_handlers() {
    assert!(matches!(plan_update(Stage::HelperCreated), UpdateTask::Wait));
    assert!(matches!(plan_update(Stage::Deleting), UpdateTask::Wait));
    match plan_update(Stage::CertificateCreated("tls".to_string())) {
        UpdateTask::CreateWorkload(s) => assert_eq!(s, "tls"),
        other => panic!("unexpected task {:?}", other),
    }
    assert!(matches!(plan_update(Stage::DeploymentStarted(named_deployment("d"))), UpdateTask::PollWorkload(_)));
    assert!(matches!(plan_update(Stage::DeploymentComplete(named_deployment("d"))), UpdateTask::CreateService(_)));
    assert!(matches!(plan_update(Stage::CreationFailed("x".to_string())), UpdateTask::Idle));
}

#[test]
fn actions_after_tasks() {
    let poll = UpdateTask::PollWorkload(named_deployment("d"));
    assert_eq!(update_action(&poll, Err(Error::ResourceNotReady)).unwrap(), Action::Requeue(10));
    assert_eq!(update_action(&poll, Ok(())).unwrap(), Action::Requeue(10));
    assert!(update_action(&poll, Err(Error::UnknownOperation("x".to_string()))).is_err());
    let create = UpdateTask::CreateWorkload("tls".to_string());
    assert!(update_action(&create, Err(Error::ResourceNotReady)).is_err());
    assert_eq!(update_action(&UpdateTask::Idle, Ok(())).unwrap(), Action::AwaitChange);
    assert_eq!(update_action(&UpdateTask::Wait, Ok(())).unwrap(), Action::Requeue(5));
    assert_eq!(create_action(Ok(())).unwrap(), Action::Requeue(5));
    assert!(create_action(Err(Error::ResourceNotReady)).is_err());
    assert_eq!(error_policy(&Error::ResourceNotReady), Action::Requeue(60));
}

#[test]
fn written_stage_follows_task() {
    let task = UpdateTask::CreateWorkload("tls".to_string());
    match stage_after(&task, Created::Workload(named_deployment("d"))) {
        Some(s) => assert_eq!(s.condition_type(), "DeploymentStarted"),
        None => panic!("a stage is owed"),
    }
    let poll = UpdateTask::PollWorkload(named_deployment("d"));
    match stage_after(&poll, Created::Workload(named_deployment("d"))) {
        Some(s) => assert_eq!(s.condition_type(), "DeploymentComplete"),
        None => panic!("a stage is owed"),
    }
    assert!(stage_after(&UpdateTask::Idle, Created::Workload(named_deployment("d"))).is_none());
}

#[test]
fn fetch_failures_back_off() {
    let gone = RemoteError::Api { code: 404, message: "not found".to_string() };
    let refused = RemoteError::Api { code: 500, message: "boom".to_string() };
    let unreachable = RemoteError::Other("connection reset".to_string());
    assert_eq!(fetch_failure_action(&gone), Action::AwaitChange);
    assert_eq!(fetch_failure_action(&refused), Action::Requeue(15));
    assert_eq!(fetch_failure_action(&unreachable), Action::Requeue(30));
}

#[test]
fn deleting_what_is_gone_succeeds() {
    assert!(delete_outcome(Ok(())).is_ok());
    assert!(delete_outcome(Err(RemoteError::Api { code: 404, message: "gone".to_string() })).is_ok());
    match delete_outcome(Err(RemoteError::Api { code: 500, message: "boom".to_string() })) {
        Err(e) => assert_eq!(e.message(), "Failed to create Webhook: boom"),
        Ok(()) => panic!("a failure is owed"),
    }
}

#[test]
fn teardown_follows_fixed_order() {
    let mut st = WebhookHelperStatus::empty();
    st.certificate = Some("tls".to_string());
    st.service = Some("svc".to_string());
    st.pod = Some("pod".to_string());
    st.validating_webhook = Some("hook".to_string());
    let plan = delete_plan(&Some(st), &"ns1".to_string());
    let kinds: Vec<ObjectKind> = plan.iter().map(|r| r.kind).collect();
    assert_eq!(
        kinds,
        vec![ObjectKind::Pod, ObjectKind::ValidatingWebhookConfiguration, ObjectKind::Service, ObjectKind::Secret]
    );
    assert_eq!(plan[0].name, "pod");
    assert_eq!(plan[0].namespace, Some("ns1".to_string()));
    assert_eq!(plan[1].namespace, None);
    assert_eq!(plan[3].name, "tls");
}

#[test]
fn nothing_recorded_means_nothing_to_delete() {
    assert!(delete_plan(&None, &"ns1".to_string()).is_empty());
    assert!(delete_plan(&Some(WebhookHelperStatus::empty()), &"ns1".to_string()).is_empty());
}

#[test]
fn operations_map_to_remote_calls() {
    assert!(matches!(Operation::Create.remote_call(), Ok(RemoteCall::Create)));
    assert!(matches!(Operation::Update.remote_call(), Ok(RemoteCall::Replace)));
    match Operation::Unknown("frob".to_string()).remote_call() {
        Err(e) => assert_eq!(e.message(), "UnknownOperation: frob"),
        Ok(_) => panic!("an error is owed"),
    }
    match Operation::Bootstrap.remote_call() {
        Err(e) => assert_eq!(e.message(), "UnknownOperation: Bootstrap"),
        Ok(_) => panic!("an error is owed"),
    }
    let owner = owner_reference("uid-1".to_string());
    assert_eq!(owner.kind, "WebhookHelper");
    assert_eq!(owner.uid, "uid-1");
    assert!(!owner.block_owner_deletion);
}

#[test]
fn new_resource_starts_in_pipeline_order() {
    assert!(webhook_helper::controller::needs_certificate(&None));
    assert!(webhook_helper::controller::needs_certificate(&Some(WebhookHelperStatus::empty())));
    let started = webhook_helper::status::update_status(&Stage::HelperCreated, None, 0);
    assert!(!webhook_helper::controller::needs_certificate(&Some(started)));
    let stages = webhook_helper::controller::start_stages("tls".to_string());
    let types: Vec<String> = stages.iter().map(|s| s.condition_type()).collect();
    assert_eq!(types, vec!["WebhookHelperCreated".to_string(), "CertificateCreated".to_string()]);
}

#[test]
fn owner_reference_only_after_workload_start() {
    let uid = Some("uid-7".to_string());
    let started = Stage::DeploymentStarted(named_deployment("d"));
    assert_eq!(webhook_helper::controller::owner_for(&started, &uid).unwrap().uid, "uid-7");
    assert!(webhook_helper::controller::owner_for(&started, &None).is_none());
    assert!(webhook_helper::controller::owner_for(&Stage::DeploymentComplete(named_deployment("d")), &uid).is_none());
}
