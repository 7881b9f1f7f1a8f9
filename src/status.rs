//! The status ledger: how a stage is written into the persisted status.
use vstd::prelude::*;
use vstd::string::StringExecFns;
use crate::crd::{
    ConditionView, DeploymentType, Stage, StageView, StatusView, WebhookHelperCondition,
    WebhookHelperStatus, WebhookType, conditions_view, empty_status, stage_message, stage_type,
    webhook_name, workload_name,
};
use crate::objects::name_any;

verus! {

/// The pattern in which condition timestamps are written.
pub const TRANSITION_TIME_FORMAT: &'static str = "%d/%m/%Y %T";

/// The last second of the year 9999, in seconds since the Unix epoch.
pub const MAX_TIMESTAMP: i64 = 253402300799;

/// The text that chrono renders for the UTC instant `secs` seconds after the
/// Unix epoch, with the pattern `format`.
pub uninterp spec fn utc_text(secs: int, format: Seq<char>) -> Seq<char>;

/// Relies on chrono's `DateTime::<Utc>::from_timestamp`, which returns `Some`
/// for every instant between chrono's `MIN_UTC` and `MAX_UTC` (far beyond the
/// years 1970 to 9999), and on `DateTime::format`, which renders the instant
/// with the given pattern.
#[verifier::external_body]
fn format_utc(secs: i64, format: &str) -> (r: Option<String>)
    requires
        format@ == TRANSITION_TIME_FORMAT@,
    ensures
        r is Some ==> r->0@ == utc_text(secs as int, format@),
        0 <= secs <= MAX_TIMESTAMP ==> r is Some,
{
    match chrono::DateTime::from_timestamp(secs, 0) {
        Some(t) => Some(t.format(format).to_string()),
        None => None,
    }
}

/// The status as read before an update; a missing status reads as empty.
pub open spec fn prior_status(status: Option<WebhookHelperStatus>) -> StatusView {
    match status {
        Some(s) => s@,
        None => empty_status(),
    }
}

/// The conditions recorded so far.
pub open spec fn ledger(st: StatusView) -> Seq<ConditionView> {
    match st.conditions {
        Some(c) => c,
        None => Seq::empty(),
    }
}

/// The condition written for `stage` at `time`.
pub open spec fn condition_for(stage: StageView, time: Seq<char>) -> ConditionView {
    ConditionView {
        type_: stage_type(stage),
        message: stage_message(stage),
        status: if stage is CreationFailed {
            "False"@
        } else {
            "True"@
        },
        last_transition_time: time,
    }
}

/// `st` with the reference that `stage` carries written into its field.
pub open spec fn with_reference(st: StatusView, stage: StageView) -> StatusView {
    match stage {
        StageView::DeploymentComplete(d) | StageView::DeploymentStarted(d) => match d {
            DeploymentType::Deployment(_) => StatusView {
                deployment: Some(workload_name(d)),
                ..st
            },
            DeploymentType::Pod(_) => StatusView { pod: Some(workload_name(d)), ..st },
        },
        StageView::WebhookCreated(w) => match w {
            WebhookType::Mutating(_) => StatusView { mutating_webhook: Some(webhook_name(w)), ..st },
            WebhookType::Validating(_) => StatusView {
                validating_webhook: Some(webhook_name(w)),
                ..st
            },
        },
        StageView::CertificateCreated(c) => StatusView { certificate: Some(c), ..st },
        StageView::ServiceCreated(s) => StatusView { service: Some(name_any(s.metadata)), ..st },
        _ => st,
    }
}

/// The status after `stage` is recorded at `time`: its reference is written and
/// one condition is appended to the ledger.
pub open spec fn recorded(st: StatusView, stage: StageView, time: Seq<char>) -> StatusView {
    StatusView {
        conditions: Some(ledger(st).push(condition_for(stage, time))),
        ..with_reference(st, stage)
    }
}

/// The status that records `stage` on top of `status`, stamped `now_secs`
/// seconds after the Unix epoch.
pub fn update_status(stage: &Stage, status: Option<WebhookHelperStatus>, now_secs: i64) -> (r:
    WebhookHelperStatus)
    requires
        0 <= now_secs <= MAX_TIMESTAMP,
    ensures
        r@ == recorded(
            prior_status(status),
            stage@,
            utc_text(now_secs as int, TRANSITION_TIME_FORMAT@),
        ),
{
    let ghost time_text = utc_text(now_secs as int, TRANSITION_TIME_FORMAT@);
    let mut st = match status {
        Some(s) => s,
        None => WebhookHelperStatus::empty(),
    };
    let ghost st0 = st@;
    assert(st0 == prior_status(status));
    let time = match format_utc(now_secs, TRANSITION_TIME_FORMAT) {
        Some(t) => t,
        None => String::new(),
    };
    let condition = WebhookHelperCondition {
        type_: stage.condition_type(),
        message: stage.message(),
        status: match stage {
            Stage::CreationFailed(_) => String::from_str("False"),
            _ => String::from_str("True"),
        },
        last_transition_time: time,
    };
    match stage {
        Stage::DeploymentComplete(d) | Stage::DeploymentStarted(d) => match d {
            DeploymentType::Deployment(_) => {
                st.deployment = Some(d.name());
            },
            DeploymentType::Pod(_) => {
                st.pod = Some(d.name());
            },
        },
        Stage::WebhookCreated(w) => match w {
            WebhookType::Mutating(_) => {
                st.mutating_webhook = Some(w.name());
            },
            WebhookType::Validating(_) => {
                st.validating_webhook = Some(w.name());
            },
        },
        Stage::CertificateCreated(c) => {
            st.certificate = Some(c.clone());
        },
        Stage::ServiceCreated(s) => {
            st.service = Some(s.metadata.name_any());
        },
        _ => {},
    }
    let mut conditions = match st.conditions.take() {
        Some(c) => c,
        None => Vec::new(),
    };
    let ghost c0 = conditions@;
    proof {
        assert(conditions_view(c0) =~= ledger(st0));
        assert(condition@ == condition_for(stage@, time_text));
    }
    conditions.push(condition);
    proof {
        assert(conditions_view(conditions@) =~= conditions_view(c0).push(condition@));
    }
    st.conditions = Some(conditions);
    assert(st@ == recorded(st0, stage@, time_text));
    st
}

} // verus!
