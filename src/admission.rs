//! The admission check run on every create or edit of a helper resource.
use vstd::prelude::*;
use vstd::string::StringExecFns;
use crate::error::{Error, ErrorView, error_text};
use crate::objects::{Deployment, Pod, opt_view};
use crate::validator::{container_check, spec_containers, validate_container_name};
use crate::workload::no_deployment_spec_text;

verus! {

/// What the admission check reads from a helper resource, after its embedded
/// documents were decoded.
#[derive(Debug)]
pub struct AdmissionCandidate {
    pub container_name: Option<String>,
    /// The workload document read as a Deployment, if it reads as one.
    pub deployment: Option<Deployment>,
    /// The workload document read as a Pod, if it reads as one.
    pub pod: Option<Pod>,
    /// Whether the webhook document reads as a validating webhook.
    pub validating_webhook: bool,
    /// Whether the webhook document reads as a mutating webhook.
    pub mutating_webhook: bool,
}

/// The body of an admission request.
#[derive(Debug)]
pub enum AdmissionBody {
    /// The request carries no object.
    Missing,
    /// The object does not decode as a helper resource.
    Undecodable,
    Helper(AdmissionCandidate),
}

/// The answer to an admission request.
#[derive(Debug)]
pub enum Verdict {
    Admit,
    /// Refuse, with the reason shown to the user.
    Deny(String),
}

/// The mathematical value of a [`Verdict`].
pub enum VerdictView {
    Admit,
    Deny(Seq<char>),
}

impl View for Verdict {
    type V = VerdictView;

    open spec fn view(&self) -> VerdictView {
        match self {
            Verdict::Admit => VerdictView::Admit,
            Verdict::Deny(r) => VerdictView::Deny(r@),
        }
    }
}

pub open spec fn invalid_format_text() -> Seq<char> {
    "invalid request format"@
}

/// The verdict on a decoded helper resource: a Deployment needs a spec, the
/// target container must be identifiable in every reading of the workload, the
/// workload must read as a Deployment or a Pod, and the webhook as a mutating
/// or validating webhook.
pub open spec fn candidate_verdict(c: AdmissionCandidate) -> VerdictView {
    let name = opt_view(c.container_name);
    let deployment_check: Result<(), ErrorView> = match c.deployment {
        None => Ok(()),
        Some(d) => match d.spec {
            None => Err(ErrorView::UnableToCreateObject(no_deployment_spec_text())),
            Some(s) => container_check(name, spec_containers(s.template.spec)),
        },
    };
    let pod_check: Result<(), ErrorView> = match c.pod {
        None => Ok(()),
        Some(p) => container_check(name, spec_containers(p.spec)),
    };
    if deployment_check is Err {
        VerdictView::Deny(error_text(deployment_check->Err_0))
    } else if pod_check is Err {
        VerdictView::Deny(error_text(pod_check->Err_0))
    } else if c.deployment is None && c.pod is None {
        VerdictView::Deny(invalid_format_text())
    } else if !c.validating_webhook && !c.mutating_webhook {
        VerdictView::Deny(invalid_format_text())
    } else {
        VerdictView::Admit
    }
}

/// The verdict on an admission request.
pub open spec fn verdict_of(body: AdmissionBody) -> VerdictView {
    match body {
        AdmissionBody::Missing => VerdictView::Admit,
        AdmissionBody::Undecodable => VerdictView::Deny(invalid_format_text()),
        AdmissionBody::Helper(c) => candidate_verdict(c),
    }
}

fn deny(e: Error) -> (r: Verdict)
    ensures
        r@ == VerdictView::Deny(error_text(e@)),
{
    Verdict::Deny(e.message())
}

fn invalid_format() -> (r: Verdict)
    ensures
        r@ == VerdictView::Deny(invalid_format_text()),
{
    Verdict::Deny(String::from_str("invalid request format"))
}

/// Admits or denies an admission request; every malformed resource is denied
/// with a reason, and none is let through.
pub fn handler(body: &AdmissionBody) -> (r: Verdict)
    ensures
        r@ == verdict_of(*body),
{
    let c = match body {
        AdmissionBody::Missing => {
            return Verdict::Admit;
        },
        AdmissionBody::Undecodable => {
            return invalid_format();
        },
        AdmissionBody::Helper(c) => c,
    };
    if let Some(d) = &c.deployment {
        match &d.spec {
            None => {
                return deny(
                    Error::UnableToCreateObject(
                        String::from_str("No DeploymentSpec found in WebhookHelper"),
                    ),
                );
            },
            Some(s) => {
                if let Err(e) = validate_container_name(&c.container_name, &s.template.spec) {
                    return deny(e);
                }
            },
        }
    }
    if let Some(p) = &c.pod {
        if let Err(e) = validate_container_name(&c.container_name, &p.spec) {
            return deny(e);
        }
    }
    if c.deployment.is_none() && c.pod.is_none() {
        return invalid_format();
    }
    if !c.validating_webhook && !c.mutating_webhook {
        return invalid_format();
    }
    Verdict::Admit
}

} // verus!
