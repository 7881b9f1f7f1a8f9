//! The helper resource, its status ledger entries, and the pipeline stages.
use vstd::prelude::*;
use vstd::string::StringExecFns;
use crate::objects::{
    Deployment, ObjectMeta, Pod, Service, WebhookConfiguration, name_any, opt_view,
};

verus! {

#[verifier::external_type_specification]
#[verifier::external_body]
pub struct ExJsonValue(serde_json::Value);

/// One entry of the condition ledger.
#[derive(Debug, Clone)]
pub struct WebhookHelperCondition {
    pub type_: String,
    pub message: String,
    pub status: String,
    pub last_transition_time: String,
}

/// The mathematical value of a [`WebhookHelperCondition`].
pub struct ConditionView {
    pub type_: Seq<char>,
    pub message: Seq<char>,
    pub status: Seq<char>,
    pub last_transition_time: Seq<char>,
}

impl View for WebhookHelperCondition {
    type V = ConditionView;

    open spec fn view(&self) -> ConditionView {
        ConditionView {
            type_: self.type_@,
            message: self.message@,
            status: self.status@,
            last_transition_time: self.last_transition_time@,
        }
    }
}

/// The persisted status of a helper resource: the names of what was created and
/// the append-only condition ledger.
#[derive(Debug, Clone)]
pub struct WebhookHelperStatus {
    pub certificate: Option<String>,
    pub service: Option<String>,
    pub deployment: Option<String>,
    pub pod: Option<String>,
    pub validating_webhook: Option<String>,
    pub mutating_webhook: Option<String>,
    pub conditions: Option<Vec<WebhookHelperCondition>>,
}

/// The mathematical value of a [`WebhookHelperStatus`].
pub struct StatusView {
    pub certificate: Option<Seq<char>>,
    pub service: Option<Seq<char>>,
    pub deployment: Option<Seq<char>>,
    pub pod: Option<Seq<char>>,
    pub validating_webhook: Option<Seq<char>>,
    pub mutating_webhook: Option<Seq<char>>,
    pub conditions: Option<Seq<ConditionView>>,
}

pub open spec fn conditions_view(c: Seq<WebhookHelperCondition>) -> Seq<ConditionView> {
    c.map_values(|x: WebhookHelperCondition| x@)
}

impl View for WebhookHelperStatus {
    type V = StatusView;

    open spec fn view(&self) -> StatusView {
        StatusView {
            certificate: opt_view(self.certificate),
            service: opt_view(self.service),
            deployment: opt_view(self.deployment),
            pod: opt_view(self.pod),
            validating_webhook: opt_view(self.validating_webhook),
            mutating_webhook: opt_view(self.mutating_webhook),
            conditions: match self.conditions {
                Some(c) => Some(conditions_view(c@)),
                None => None,
            },
        }
    }
}

/// The status of a resource that was never written.
pub open spec fn empty_status() -> StatusView {
    StatusView {
        certificate: None,
        service: None,
        deployment: None,
        pod: None,
        validating_webhook: None,
        mutating_webhook: None,
        conditions: None,
    }
}

impl WebhookHelperStatus {
    /// A status with nothing recorded.
    pub fn empty() -> (r: WebhookHelperStatus)
        ensures
            r@ == empty_status(),
    {
        WebhookHelperStatus {
            certificate: None,
            service: None,
            deployment: None,
            pod: None,
            validating_webhook: None,
            mutating_webhook: None,
            conditions: None,
        }
    }
}

/// What the user asks for: where to run, the workload and webhook documents,
/// and how the webhook is reached.
#[derive(Debug)]
pub struct HelperSpec {
    pub namespace: String,
    pub webhook: serde_json::Value,
    pub listening_port: i32,
    pub target_port: Option<i32>,
    pub path: Option<String>,
    pub container_name: Option<String>,
    pub deployment: serde_json::Value,
}

/// The helper resource.
#[derive(Debug)]
pub struct WebhookHelper {
    pub metadata: ObjectMeta,
    pub spec: HelperSpec,
    pub status: Option<WebhookHelperStatus>,
}

/// The managed workload: a Pod or a Deployment.
#[derive(Debug, Clone)]
pub enum DeploymentType {
    Pod(Pod),
    Deployment(Deployment),
}

/// The managed admission-webhook configuration.
#[derive(Debug, Clone)]
pub enum WebhookType {
    Mutating(WebhookConfiguration),
    Validating(WebhookConfiguration),
}

/// A point in the pipeline, derived from the last condition of the ledger.
#[derive(Debug, Clone)]
pub enum Stage {
    HelperCreated,
    Deleting,
    CertificateCreated(String),
    ServiceCreated(Service),
    DeploymentStarted(DeploymentType),
    DeploymentComplete(DeploymentType),
    WebhookCreated(WebhookType),
    CreationFailed(String),
}

/// The mathematical value of a [`Stage`]: names become character sequences,
/// the objects stay as they are.
pub enum StageView {
    HelperCreated,
    Deleting,
    CertificateCreated(Seq<char>),
    ServiceCreated(Service),
    DeploymentStarted(DeploymentType),
    DeploymentComplete(DeploymentType),
    WebhookCreated(WebhookType),
    CreationFailed(Seq<char>),
}

impl View for Stage {
    type V = StageView;

    open spec fn view(&self) -> StageView {
        match self {
            Stage::HelperCreated => StageView::HelperCreated,
            Stage::Deleting => StageView::Deleting,
            Stage::CertificateCreated(c) => StageView::CertificateCreated(c@),
            Stage::ServiceCreated(s) => StageView::ServiceCreated(*s),
            Stage::DeploymentStarted(d) => StageView::DeploymentStarted(*d),
            Stage::DeploymentComplete(d) => StageView::DeploymentComplete(*d),
            Stage::WebhookCreated(w) => StageView::WebhookCreated(*w),
            Stage::CreationFailed(r) => StageView::CreationFailed(r@),
        }
    }
}

/// The name of the managed workload.
pub open spec fn workload_name(d: DeploymentType) -> Seq<char> {
    match d {
        DeploymentType::Pod(p) => name_any(p.metadata),
        DeploymentType::Deployment(d) => name_any(d.metadata),
    }
}

/// The name of the managed webhook configuration.
pub open spec fn webhook_name(w: WebhookType) -> Seq<char> {
    match w {
        WebhookType::Mutating(m) => name_any(m.metadata),
        WebhookType::Validating(v) => name_any(v.metadata),
    }
}

/// The condition type under which a stage is persisted.
pub open spec fn stage_type(s: StageView) -> Seq<char> {
    match s {
        StageView::HelperCreated => "WebhookHelperCreated"@,
        StageView::CertificateCreated(_) => "CertificateCreated"@,
        StageView::DeploymentComplete(_) => "DeploymentComplete"@,
        StageView::DeploymentStarted(_) => "DeploymentStarted"@,
        StageView::ServiceCreated(_) => "ServiceCreated"@,
        StageView::WebhookCreated(_) => "WebhookCreated"@,
        StageView::CreationFailed(_) => "CreationFailed"@,
        StageView::Deleting => "Deleting"@,
    }
}

/// The human-readable description of a stage.
pub open spec fn stage_message(s: StageView) -> Seq<char> {
    match s {
        StageView::HelperCreated => "Webhook Helper Created"@,
        StageView::CertificateCreated(c) => "Certificate "@ + c + " Created"@,
        StageView::DeploymentComplete(d) => "Deployment "@ + workload_name(d) + " Completed"@,
        StageView::DeploymentStarted(d) => "Deployment "@ + workload_name(d) + " Started"@,
        StageView::ServiceCreated(s) => "Service "@ + name_any(s.metadata) + " Created"@,
        StageView::WebhookCreated(w) => "Webhook "@ + webhook_name(w) + " Created"@,
        StageView::CreationFailed(r) => "Webhook-helper failed to created webhook: "@ + r,
        StageView::Deleting => "Deleting resource"@,
    }
}

/// `a`, then `b`, then `c`.
fn join3(a: &str, b: &String, c: &str) -> (r: String)
    ensures
        r@ == a@ + b@ + c@,
{
    let mut r = String::from_str(a);
    r.append(b.as_str());
    r.append(c);
    r
}

impl DeploymentType {
    /// The name of the workload.
    pub fn name(&self) -> (r: String)
        ensures
            r@ == workload_name(*self),
    {
        match self {
            DeploymentType::Pod(p) => p.metadata.name_any(),
            DeploymentType::Deployment(d) => d.metadata.name_any(),
        }
    }
}

impl WebhookType {
    /// The name of the webhook configuration.
    pub fn name(&self) -> (r: String)
        ensures
            r@ == webhook_name(*self),
    {
        match self {
            WebhookType::Mutating(m) => m.metadata.name_any(),
            WebhookType::Validating(v) => v.metadata.name_any(),
        }
    }
}

impl Stage {
    /// The condition type under which the stage is persisted.
    pub fn condition_type(&self) -> (r: String)
        ensures
            r@ == stage_type(self@),
    {
        match self {
            Stage::HelperCreated => String::from_str("WebhookHelperCreated"),
            Stage::CertificateCreated(_) => String::from_str("CertificateCreated"),
            Stage::DeploymentComplete(_) => String::from_str("DeploymentComplete"),
            Stage::DeploymentStarted(_) => String::from_str("DeploymentStarted"),
            Stage::ServiceCreated(_) => String::from_str("ServiceCreated"),
            Stage::WebhookCreated(_) => String::from_str("WebhookCreated"),
            Stage::CreationFailed(_) => String::from_str("CreationFailed"),
            Stage::Deleting => String::from_str("Deleting"),
        }
    }

    /// The human-readable description of the stage.
    pub fn message(&self) -> (r: String)
        ensures
            r@ == stage_message(self@),
    {
        match self {
            Stage::HelperCreated => String::from_str("Webhook Helper Created"),
            Stage::CertificateCreated(c) => join3("Certificate ", c, " Created"),
            Stage::DeploymentComplete(d) => join3("Deployment ", &d.name(), " Completed"),
            Stage::DeploymentStarted(d) => join3("Deployment ", &d.name(), " Started"),
            Stage::ServiceCreated(s) => join3("Service ", &s.metadata.name_any(), " Created"),
            Stage::WebhookCreated(w) => join3("Webhook ", &w.name(), " Created"),
            Stage::CreationFailed(r) => {
                let mut m = String::from_str("Webhook-helper failed to created webhook: ");
                m.append(r.as_str());
                m
            },
            Stage::Deleting => String::from_str("Deleting resource"),
        }
    }
}

} // verus!
