use webhook_helper::admission::{AdmissionBody, AdmissionCandidate, Verdict, handler};
use webhook_helper::objects::{
    Container, Deployment, DeploymentSpec, ObjectMeta, Pod, PodSpec, PodTemplateSpec,
};

fn pod_spec(names: &[&str]) -> PodSpec {
    PodSpec {
        containers: names
            .iter()
            .map(|n| Container { name: n.to_string(), volume_mounts: None })
            .collect(),
        volumes: None,
    }
}

fn deployment_of(names: &[&str]) -> Deployment {
    Deployment {
        metadata: ObjectMeta::empty(),
        spec: Some(DeploymentSpec {
            template: PodTemplateSpec { metadata: None, spec: Some(pod_spec(names)) },
        }),
        status: None,
    }
}

fn candidate(deployment: Option<Deployment>, pod: Option<Pod>, mutating: bool) -> AdmissionBody {
    AdmissionBody::Helper(AdmissionCandidate {
        container_name: None,
        deployment,
        pod,
        validating_webhook: false,
        mutating_webhook: mutating,
    })
}

fn denial(v: Verdict) -> String {
    match v {
        Verdict::Deny(r) => r,
        Verdict::Admit => panic!("a denial is owed"),
    }
}

#[test]
fn undecodable_body_is_denied() {
    assert_eq!(denial(handler(&AdmissionBody::Undecodable)), "invalid request format");
}

#[test]
fn body_without_object_is_admitted() {
    assert!(matches!(handler(&AdmissionBody::Missing), Verdict::Admit));
}

#[test]
fn workload_of_neither_kind_is_denied() {
    assert_eq!(denial(handler(&candidate(None, None, true))), "invalid request format");
}

#[test]
fn single_container_deployment_with_mutating_webhook_is_admitted() {
    assert!(matches!(handler(&candidate(Some(deployment_of(&["web"])), None, true)), Verdict::Admit));
}

#[test]
fn webhook_of_neither_kind_is_denied() {
    assert_eq!(
        denial(handler(&candidate(Some(deployment_of(&["web"])), None, false))),
        "invalid request format"
    );
}

#[test]
fn validator_message_is_surfaced() {
    assert_eq!(
        denial(handler(&candidate(Some(deployment_of(&["a", "b"])), None, true))),
        "UnableToCreateObject: Too many containers in PodSpec, specify ContainerName in WebhookHelper Spec"
    );
}

#[test]
fn deployment_without_spec_is_denied() {
    let d = Deployment { metadata: ObjectMeta::empty(), spec: None, status: None };
    assert_eq!(
        denial(handler(&candidate(Some(d), None, true))),
        "UnableToCreateObject: No DeploymentSpec found in WebhookHelper"
    );
}

#[test]
fn pod_without_containers_is_denied() {
    let p = Pod { metadata: ObjectMeta::empty(), spec: Some(pod_spec(&[])), status: None };
    assert_eq!(
        denial(handler(&candidate(None, Some(p), true))),
        "UnableToCreateObject: No Containers Specified in PodSpec"
    );
}
