//! The stage resolver: the current stage is read back from the last condition of
//! the ledger, and the object it refers to is fetched again by name.
use vstd::prelude::*;
use vstd::string::StringExecFns;
use crate::crd::{DeploymentType, Stage, StageView, StatusView, WebhookHelperStatus, WebhookType};
use crate::error::{Error, ErrorView};
use crate::objects::{Deployment, Pod, Service, WebhookConfiguration};

verus! {

/// What the last condition asks for: a stage that needs nothing more, or the
/// object that must be fetched to rebuild it.
#[derive(Debug)]
pub enum StageLookup {
    Resolved(Stage),
    Deployment { complete: bool, name: String },
    Pod { complete: bool, name: String },
    Service(String),
    MutatingWebhook(String),
    ValidatingWebhook(String),
}

/// The mathematical value of a [`StageLookup`].
pub enum LookupView {
    Resolved(StageView),
    Deployment { complete: bool, name: Seq<char> },
    Pod { complete: bool, name: Seq<char> },
    Service(Seq<char>),
    MutatingWebhook(Seq<char>),
    ValidatingWebhook(Seq<char>),
}

impl View for StageLookup {
    type V = LookupView;

    open spec fn view(&self) -> LookupView {
        match self {
            StageLookup::Resolved(s) => LookupView::Resolved(s@),
            StageLookup::Deployment { complete, name } => LookupView::Deployment {
                complete: *complete,
                name: name@,
            },
            StageLookup::Pod { complete, name } => LookupView::Pod { complete: *complete, name: name@ },
            StageLookup::Service(n) => LookupView::Service(n@),
            StageLookup::MutatingWebhook(n) => LookupView::MutatingWebhook(n@),
            StageLookup::ValidatingWebhook(n) => LookupView::ValidatingWebhook(n@),
        }
    }
}

/// An object fetched from the remote store to complete a lookup.
#[derive(Debug)]
pub enum FetchedObject {
    Deployment(Deployment),
    Pod(Pod),
    Service(Service),
    Webhook(WebhookConfiguration),
}

pub open spec fn unknown_type_text(t: Seq<char>) -> Seq<char> {
    "Unable to determine condition type: "@ + t
}

pub open spec fn lookup_result_view(r: Result<StageLookup, Error>) -> Result<LookupView, ErrorView> {
    match r {
        Ok(l) => Ok(l@),
        Err(e) => Err(e@),
    }
}

pub open spec fn stage_result_view(r: Result<Stage, Error>) -> Result<StageView, ErrorView> {
    match r {
        Ok(s) => Ok(s@),
        Err(e) => Err(e@),
    }
}

/// The lookup for a workload stage, from the workload names in the status.
pub open spec fn workload_lookup(st: StatusView, complete: bool) -> Result<LookupView, ErrorView> {
    if st.deployment is Some {
        Ok(LookupView::Deployment { complete, name: st.deployment->0 })
    } else if st.pod is Some {
        Ok(LookupView::Pod { complete, name: st.pod->0 })
    } else {
        Err(ErrorView::UnknownOperation("Unable to determine deployment type"@))
    }
}

/// What the persisted status says about the current stage.
pub open spec fn lookup_of(status: Option<StatusView>) -> Result<LookupView, ErrorView> {
    match status {
        None => Ok(LookupView::Resolved(StageView::HelperCreated)),
        Some(st) => match st.conditions {
            None => Ok(LookupView::Resolved(StageView::HelperCreated)),
            Some(c) => if c.len() == 0 {
                Ok(LookupView::Resolved(StageView::HelperCreated))
            } else {
                let last = c.last();
                if last.type_ == "WebhookHelperCreated"@ {
                    Ok(LookupView::Resolved(StageView::HelperCreated))
                } else if last.type_ == "CertificateCreated"@ {
                    match st.certificate {
                        Some(n) => Ok(LookupView::Resolved(StageView::CertificateCreated(n))),
                        None => Err(ErrorView::UnknownOperation("Unable to determine certificate"@)),
                    }
                } else if last.type_ == "DeploymentComplete"@ {
                    workload_lookup(st, true)
                } else if last.type_ == "DeploymentStarted"@ {
                    workload_lookup(st, false)
                } else if last.type_ == "ServiceCreated"@ {
                    match st.service {
                        Some(n) => Ok(LookupView::Service(n)),
                        None => Err(ErrorView::UnknownOperation("Unable to get service"@)),
                    }
                } else if last.type_ == "WebhookCreated"@ {
                    if st.mutating_webhook is Some {
                        Ok(LookupView::MutatingWebhook(st.mutating_webhook->0))
                    } else if st.validating_webhook is Some {
                        Ok(LookupView::ValidatingWebhook(st.validating_webhook->0))
                    } else {
                        Err(ErrorView::UnknownOperation("Unable to determine webhook type"@))
                    }
                } else if last.type_ == "CreationFailed"@ {
                    Ok(LookupView::Resolved(StageView::CreationFailed(last.message)))
                } else if last.type_ == "Deleting"@ {
                    Ok(LookupView::Resolved(StageView::Deleting))
                } else {
                    Err(ErrorView::UnknownOperation(unknown_type_text(last.type_)))
                }
            },
        },
    }
}

pub open spec fn mismatch_text() -> Seq<char> {
    "Fetched object does not match the recorded stage"@
}

/// The stage rebuilt from a lookup and the object fetched for it.
pub open spec fn completed(l: LookupView, fetched: Option<FetchedObject>) -> Result<
    StageView,
    ErrorView,
> {
    match (l, fetched) {
        (LookupView::Resolved(s), _) => Ok(s),
        (LookupView::Deployment { complete, .. }, Some(FetchedObject::Deployment(d))) => {
            let w = DeploymentType::Deployment(d);
            Ok(
                if complete {
                    StageView::DeploymentComplete(w)
                } else {
                    StageView::DeploymentStarted(w)
                },
            )
        },
        (LookupView::Pod { complete, .. }, Some(FetchedObject::Pod(p))) => {
            let w = DeploymentType::Pod(p);
            Ok(
                if complete {
                    StageView::DeploymentComplete(w)
                } else {
                    StageView::DeploymentStarted(w)
                },
            )
        },
        (LookupView::Service(_), Some(FetchedObject::Service(s))) => Ok(
            StageView::ServiceCreated(s),
        ),
        (LookupView::MutatingWebhook(_), Some(FetchedObject::Webhook(w))) => Ok(
            StageView::WebhookCreated(WebhookType::Mutating(w)),
        ),
        (LookupView::ValidatingWebhook(_), Some(FetchedObject::Webhook(w))) => Ok(
            StageView::WebhookCreated(WebhookType::Validating(w)),
        ),
        _ => Err(ErrorView::UnknownOperation(mismatch_text())),
    }
}

pub open spec fn status_opt_view(status: Option<WebhookHelperStatus>) -> Option<StatusView> {
    match status {
        Some(s) => Some(s@),
        None => None,
    }
}

/// Whether `s` reads `lit`.
fn is_text(s: &String, lit: &str) -> (r: bool)
    ensures
        r == (s@ == lit@),
{
    *s == String::from_str(lit)
}

fn unknown(text: &str) -> (r: Error)
    ensures
        r@ == ErrorView::UnknownOperation(text@),
{
    Error::UnknownOperation(String::from_str(text))
}

fn workload(st: &WebhookHelperStatus, complete: bool) -> (r: Result<StageLookup, Error>)
    ensures
        lookup_result_view(r) == workload_lookup(st@, complete),
{
    if let Some(d) = &st.deployment {
        Ok(StageLookup::Deployment { complete, name: d.clone() })
    } else if let Some(p) = &st.pod {
        Ok(StageLookup::Pod { complete, name: p.clone() })
    } else {
        Err(unknown("Unable to determine deployment type"))
    }
}

/// Reads the current stage back from the persisted status. No condition means
/// the helper was just created; otherwise the type of the last condition names
/// the stage, and the name of the object it refers to is taken from the status.
pub fn determine_stage(status: &Option<WebhookHelperStatus>) -> (r: Result<StageLookup, Error>)
    ensures
        lookup_result_view(r) == lookup_of(status_opt_view(*status)),
{
    let st = match status {
        None => {
            return Ok(StageLookup::Resolved(Stage::HelperCreated));
        },
        Some(st) => st,
    };
    let conditions = match &st.conditions {
        None => {
            return Ok(StageLookup::Resolved(Stage::HelperCreated));
        },
        Some(c) => c,
    };
    if conditions.len() == 0 {
        return Ok(StageLookup::Resolved(Stage::HelperCreated));
    }
    let last = &conditions[conditions.len() - 1];
    proof {
        assert(st@.conditions->0.last() == last@);
    }
    if is_text(&last.type_, "WebhookHelperCreated") {
        Ok(StageLookup::Resolved(Stage::HelperCreated))
    } else if is_text(&last.type_, "CertificateCreated") {
        match &st.certificate {
            Some(c) => Ok(StageLookup::Resolved(Stage::CertificateCreated(c.clone()))),
            None => Err(unknown("Unable to determine certificate")),
        }
    } else if is_text(&last.type_, "DeploymentComplete") {
        workload(st, true)
    } else if is_text(&last.type_, "DeploymentStarted") {
        workload(st, false)
    } else if is_text(&last.type_, "ServiceCreated") {
        match &st.service {
            Some(s) => Ok(StageLookup::Service(s.clone())),
            None => Err(unknown("Unable to get service")),
        }
    } else if is_text(&last.type_, "WebhookCreated") {
        if let Some(m) = &st.mutating_webhook {
            Ok(StageLookup::MutatingWebhook(m.clone()))
        } else if let Some(v) = &st.validating_webhook {
            Ok(StageLookup::ValidatingWebhook(v.clone()))
        } else {
            Err(unknown("Unable to determine webhook type"))
        }
    } else if is_text(&last.type_, "CreationFailed") {
        Ok(StageLookup::Resolved(Stage::CreationFailed(last.message.clone())))
    } else if is_text(&last.type_, "Deleting") {
        Ok(StageLookup::Resolved(Stage::Deleting))
    } else {
        let mut text = String::from_str("Unable to determine condition type: ");
        text.append(last.type_.as_str());
        Err(Error::UnknownOperation(text))
    }
}

impl StageLookup {
    /// Rebuilds the stage from the object fetched for this lookup; a stage that
    /// needs no object ignores `fetched`.
    pub fn complete(self, fetched: Option<FetchedObject>) -> (r: Result<Stage, Error>)
        ensures
            stage_result_view(r) == completed(self@, fetched),
    {
        match (self, fetched) {
            (StageLookup::Resolved(s), _) => Ok(s),
            (StageLookup::Deployment { complete, .. }, Some(FetchedObject::Deployment(d))) => {
                let w = DeploymentType::Deployment(d);
                Ok(
                    if complete {
                        Stage::DeploymentComplete(w)
                    } else {
                        Stage::DeploymentStarted(w)
                    },
                )
            },
            (StageLookup::Pod { complete, .. }, Some(FetchedObject::Pod(p))) => {
                let w = DeploymentType::Pod(p);
                Ok(
                    if complete {
                        Stage::DeploymentComplete(w)
                    } else {
                        Stage::DeploymentStarted(w)
                    },
                )
            },
            (StageLookup::Service(_), Some(FetchedObject::Service(s))) => Ok(
                Stage::ServiceCreated(s),
            ),
            (StageLookup::MutatingWebhook(_), Some(FetchedObject::Webhook(w))) => Ok(
                Stage::WebhookCreated(WebhookType::Mutating(w)),
            ),
            (StageLookup::ValidatingWebhook(_), Some(FetchedObject::Webhook(w))) => Ok(
                Stage::WebhookCreated(WebhookType::Validating(w)),
            ),
            _ => Err(unknown("Fetched object does not match the recorded stage")),
        }
    }
}

} // verus!
