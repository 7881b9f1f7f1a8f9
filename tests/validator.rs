use webhook_helper::error::Error;
use webhook_helper::objects::{Container, PodSpec};
use webhook_helper::validator::validate_container_name;

fn spec_with(names: &[&str]) -> Option<PodSpec> {
    Some(PodSpec {
        containers: names
            .iter()
            .map(|n| Container { name: n.to_string(), volume_mounts: None })
            .collect(),
        volumes: None,
    })
}

fn error_text(r: Result<(), Error>) -> String {
    match r {
        Ok(()) => panic!("expected an error"),
        Err(e) => e.message(),
    }
}

#[test]
fn sole_container_without_name_is_accepted() {
    assert!(validate_container_name(&None, &spec_with(&["web"])).is_ok());
}

#[test]
fn no_containers_is_rejected() {
    let text = error_text(validate_container_name(&None, &spec_with(&[])));
    assert_eq!(text, "UnableToCreateObject: No Containers Specified in PodSpec");
}

#[test]
fn missing_pod_spec_counts_as_no_containers() {
    let text = error_text(validate_container_name(&None, &None));
    assert_eq!(text, "UnableToCreateObject: No Containers Specified in PodSpec");
}

#[test]
fn two_containers_without_name_are_ambiguous() {
    let text = error_text(validate_container_name(&None, &spec_with(&["a", "b"])));
    assert_eq!(
        text,
        "UnableToCreateObject: Too many containers in PodSpec, specify ContainerName in WebhookHelper Spec"
    );
}

#[test]
fn named_container_absent_is_not_found() {
    let text = error_text(validate_container_name(&Some("x".to_string()), &spec_with(&["a", "b"])));
    assert_eq!(text, "UnableToCreateObject: Container name x not found in PodSpec");
}

#[test]
fn named_container_present_once_is_accepted() {
    assert!(validate_container_name(&Some("x".to_string()), &spec_with(&["a", "x"])).is_ok());
}

#[test]
fn named_container_present_twice_is_not_found() {
    let text = error_text(validate_container_name(&Some("x".to_string()), &spec_with(&["x", "x"])));
    assert_eq!(text, "UnableToCreateObject: Container name x not found in PodSpec");
}
