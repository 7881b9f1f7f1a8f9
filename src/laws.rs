//! Properties that hold across the ledger, the resolver and the controller.
use vstd::prelude::*;
use crate::controller::{
    Created, RemoteError, deletion_outcome, fresh, is_not_found, task_for, teardown_plan,
    written_after,
};
use crate::crd::{DeploymentType, StageView, StatusView, WebhookType, stage_type, webhook_name, workload_name};
use crate::objects::name_any;
use crate::resolver::{FetchedObject, LookupView, completed, lookup_of};
use crate::crd::ConditionView;
use crate::status::{condition_for, ledger, recorded};
use crate::webhook::configuration;

verus! {

/// The condition types of the pipeline, in the order they are written.
pub open spec fn pipeline_types() -> Seq<Seq<char>> {
    seq![
        "WebhookHelperCreated"@,
        "CertificateCreated"@,
        "DeploymentStarted"@,
        "DeploymentComplete"@,
        "ServiceCreated"@,
        "WebhookCreated"@,
    ]
}

/// The position of a stage in the pipeline; -1 for the stages outside it.
pub open spec fn pipeline_rank(s: StageView) -> int {
    match s {
        StageView::HelperCreated => 0,
        StageView::CertificateCreated(_) => 1,
        StageView::DeploymentStarted(_) => 2,
        StageView::DeploymentComplete(_) => 3,
        StageView::ServiceCreated(_) => 4,
        StageView::WebhookCreated(_) => 5,
        StageView::CreationFailed(_) => -1,
        StageView::Deleting => -1,
    }
}

/// Stages advance one step at a time: the condition that an update pass writes
/// after the current stage is the next one of the pipeline, it is appended to
/// the ledger with everything before it kept, and a failed or finished
/// pipeline writes nothing more.
pub proof fn lemma_stage_monotonic(current: StageView, created: Created, st: StatusView, time: Seq<char>)
    ensures
        match written_after(task_for(current), created) {
            Some(next) => {
                &&& 0 <= pipeline_rank(current)
                &&& pipeline_rank(next) == pipeline_rank(current) + 1
                &&& stage_type(next) == pipeline_types()[pipeline_rank(next)]
                &&& ledger(recorded(st, next, time)) == ledger(st).push(condition_for(next, time))
                &&& ledger(st).is_prefix_of(ledger(recorded(st, next, time)))
            },
            None => true,
        },
        current is CreationFailed ==> written_after(task_for(current), created) is None,
        current is WebhookCreated ==> written_after(task_for(current), created) is None,
{
    if let Some(next) = written_after(task_for(current), created) {
        let l = ledger(st);
        let l2 = ledger(recorded(st, next, time));
        assert(l =~= l2.subrange(0, l.len() as int));
    }
}

/// The condition types of a ledger, in order.
pub open spec fn types_of(l: Seq<ConditionView>) -> Seq<Seq<char>> {
    l.map_values(|c: ConditionView| c.type_)
}

/// A ledger history the pipeline can leave: a prefix of the pipeline order,
/// possibly ended by one failure.
pub open spec fn valid_history(t: Seq<Seq<char>>) -> bool {
    exists|k: int|
        0 <= k <= 6 && (t == pipeline_types().take(k) || t == pipeline_types().take(k).push(
            "CreationFailed"@,
        ))
}

/// The stage the resolver rebuilds carries the type of the last condition.
proof fn lemma_resolved_type(st: StatusView, f: Option<FetchedObject>)
    requires
        ledger(st).len() > 0,
        lookup_of(Some(st)) is Ok,
        completed(lookup_of(Some(st))->Ok_0, f) is Ok,
    ensures
        stage_type(completed(lookup_of(Some(st))->Ok_0, f)->Ok_0) == ledger(st).last().type_,
{
    lemma_pipeline_types_distinct();
}

/// Every stage of the pipeline sits at its own position of the pipeline order.
proof fn lemma_rank_of_type(s: StageView, k: int)
    requires
        0 <= k < 6,
        0 <= pipeline_rank(s),
        stage_type(s) == pipeline_types()[k],
    ensures
        pipeline_rank(s) == k,
{
    lemma_pipeline_types_distinct();
}

/// The ledger only grows along the pipeline: when an update pass resolves the
/// current stage from a valid history and records what its handler produced,
/// the old history is a prefix of the new one, which is valid again. A pass
/// from an empty ledger, a failure or a finished pipeline records nothing.
pub proof fn lemma_history_kept(
    st: StatusView,
    fetched: Option<FetchedObject>,
    created: Created,
    time: Seq<char>,
)
    requires
        valid_history(types_of(ledger(st))),
        lookup_of(Some(st)) is Ok,
        completed(lookup_of(Some(st))->Ok_0, fetched) is Ok,
    ensures
        ({
            let current = completed(lookup_of(Some(st))->Ok_0, fetched)->Ok_0;
            match written_after(task_for(current), created) {
                Some(next) => {
                    let t2 = types_of(ledger(recorded(st, next, time)));
                    &&& valid_history(t2)
                    &&& types_of(ledger(st)).is_prefix_of(t2)
                    &&& t2.len() == types_of(ledger(st)).len() + 1
                },
                None => true,
            }
        }),
{
    let current = completed(lookup_of(Some(st))->Ok_0, fetched)->Ok_0;
    let l = ledger(st);
    let t = types_of(l);
    lemma_pipeline_types_distinct();
    if let Some(next) = written_after(task_for(current), created) {
        lemma_stage_monotonic(current, created, st, time);
        let k = choose|k: int|
            0 <= k <= 6 && (t == pipeline_types().take(k) || t == pipeline_types().take(k).push(
                "CreationFailed"@,
            ));
        assert(l.len() > 0);
        lemma_resolved_type(st, fetched);
        assert(t.last() == l.last().type_);
        if t == pipeline_types().take(k).push("CreationFailed"@) {
            assert(stage_type(current) == "CreationFailed"@);
            assert(false);
        }
        assert(t == pipeline_types().take(k));
        assert(k >= 1);
        assert(stage_type(current) == pipeline_types()[k - 1]);
        lemma_rank_of_type(current, k - 1);
        let t2 = types_of(ledger(recorded(st, next, time)));
        assert(ledger(recorded(st, next, time)) == l.push(condition_for(next, time)));
        assert(t2 =~= t.push(stage_type(next)));
        assert(t2 =~= pipeline_types().take(k + 1));
        assert(t =~= t2.subrange(0, t.len() as int));
    }
}

/// A new resource starts its history in pipeline order: recording the helper's
/// creation and then its certificate on an empty ledger gives the first two
/// pipeline types.
pub proof fn lemma_start_history(st: StatusView, secret: Seq<char>, t1: Seq<char>, t2: Seq<char>)
    requires
        fresh(Some(st)),
    ensures
        ({
            let after = recorded(
                recorded(st, StageView::HelperCreated, t1),
                StageView::CertificateCreated(secret),
                t2,
            );
            &&& types_of(ledger(after)) == pipeline_types().take(2)
            &&& valid_history(types_of(ledger(after)))
        }),
{
    let after = recorded(
        recorded(st, StageView::HelperCreated, t1),
        StageView::CertificateCreated(secret),
        t2,
    );
    assert(types_of(ledger(after)) =~= pipeline_types().take(2));
}

/// The object the resolver fetches again for a stage, as the store holds it.
pub open spec fn live_object(s: StageView) -> Option<FetchedObject> {
    match s {
        StageView::DeploymentStarted(w) | StageView::DeploymentComplete(w) => match w {
            DeploymentType::Deployment(d) => Some(FetchedObject::Deployment(d)),
            DeploymentType::Pod(p) => Some(FetchedObject::Pod(p)),
        },
        StageView::ServiceCreated(s) => Some(FetchedObject::Service(s)),
        StageView::WebhookCreated(w) => Some(FetchedObject::Webhook(configuration(w))),
        _ => None,
    }
}

/// The name under which a lookup fetches its object.
pub open spec fn fetch_name(l: LookupView) -> Option<Seq<char>> {
    match l {
        LookupView::Resolved(_) => None,
        LookupView::Deployment { name, .. } => Some(name),
        LookupView::Pod { name, .. } => Some(name),
        LookupView::Service(n) => Some(n),
        LookupView::MutatingWebhook(n) => Some(n),
        LookupView::ValidatingWebhook(n) => Some(n),
    }
}

/// The name of the object a stage refers to.
pub open spec fn live_name(s: StageView) -> Option<Seq<char>> {
    match s {
        StageView::DeploymentStarted(w) | StageView::DeploymentComplete(w) => Some(workload_name(w)),
        StageView::ServiceCreated(s) => Some(name_any(s.metadata)),
        StageView::WebhookCreated(w) => Some(webhook_name(w)),
        _ => None,
    }
}

/// Resolving after recording gives the stage back: the lookup asks for the
/// object by the name the stage carried, and the object fetched under that name
/// rebuilds the same stage. A Pod workload needs no Deployment name left in the
/// status, and a validating webhook no mutating one, since those are read first.
pub proof fn lemma_resolve_recorded(st: StatusView, stage: StageView, time: Seq<char>)
    requires
        !(stage is CreationFailed),
        (stage matches StageView::DeploymentStarted(DeploymentType::Pod(_))) ==> st.deployment is None,
        (stage matches StageView::DeploymentComplete(DeploymentType::Pod(_))) ==> st.deployment is None,
        (stage matches StageView::WebhookCreated(WebhookType::Validating(_))) ==> st.mutating_webhook is None,
    ensures
        lookup_of(Some(recorded(st, stage, time))) is Ok,
        fetch_name(lookup_of(Some(recorded(st, stage, time)))->Ok_0) == live_name(stage),
        completed(lookup_of(Some(recorded(st, stage, time)))->Ok_0, live_object(stage)) == Ok::<
            StageView,
            crate::error::ErrorView,
        >(stage),
{
    lemma_pipeline_types_distinct();
    let r = recorded(st, stage, time);
    assert(r.conditions->0.last() == condition_for(stage, time));
}

/// The condition types can be told apart.
proof fn lemma_pipeline_types_distinct()
    ensures
        "WebhookHelperCreated"@.len() == 20,
        "CertificateCreated"@.len() == 18,
        "DeploymentStarted"@.len() == 17,
        "DeploymentComplete"@.len() == 18,
        "ServiceCreated"@.len() == 14,
        "WebhookCreated"@.len() == 14,
        "CreationFailed"@.len() == 14,
        "Deleting"@.len() == 8,
        "CertificateCreated"@ != "DeploymentComplete"@,
        "ServiceCreated"@ != "WebhookCreated"@,
        "ServiceCreated"@ != "CreationFailed"@,
        "WebhookCreated"@ != "CreationFailed"@,
{
    reveal_strlit("WebhookHelperCreated");
    reveal_strlit("CertificateCreated");
    reveal_strlit("DeploymentStarted");
    reveal_strlit("DeploymentComplete");
    reveal_strlit("ServiceCreated");
    reveal_strlit("WebhookCreated");
    reveal_strlit("CreationFailed");
    reveal_strlit("Deleting");
    assert("CertificateCreated"@[0] != "DeploymentComplete"@[0]);
    assert("ServiceCreated"@[0] != "WebhookCreated"@[0]);
    assert("ServiceCreated"@[0] != "CreationFailed"@[0]);
    assert("WebhookCreated"@[0] != "CreationFailed"@[0]);
}

/// Teardown never fails on what is not there: deleting an object the store
/// no longer holds succeeds, so deleting twice succeeds, and a resource that
/// recorded nothing has nothing to delete.
pub proof fn lemma_delete_idempotent(status: Option<StatusView>, ns: Seq<char>, e: RemoteError)
    ensures
        deletion_outcome(Ok(())) is Ok,
        is_not_found(e) ==> deletion_outcome(Err(e)) is Ok,
        (status is None || ({
            let s = status->0;
            &&& s.deployment is None
            &&& s.pod is None
            &&& s.mutating_webhook is None
            &&& s.validating_webhook is None
            &&& s.service is None
            &&& s.certificate is None
        })) ==> teardown_plan(status, ns).len() == 0,
{
}

} // verus!
