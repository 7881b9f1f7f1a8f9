//! The reconcile decisions: which action an event calls for, which stage
//! handler advances the pipeline, what is torn down and in which order, and
//! when the resource is looked at again.
use vstd::prelude::*;
use vstd::string::{StrSliceExecFns, StringExecFns};
use crate::crd::{DeploymentType, Stage, StageView, StatusView, WebhookHelperStatus, WebhookType};
use crate::error::{Error, ErrorView};
use crate::objects::{ObjectMeta, Service, opt_view};
use crate::operation::{ObjectKind, ObjectRef, ObjectRefView, OwnerReference, owner_ref_for, owner_reference};
use crate::status::ledger;
use crate::resolver::status_opt_view;

verus! {

/// The finalizer token of this operator; a finalizer that starts with it is ours.
pub const FINALIZER: &'static str = "webhook-helper.io";

/// Seconds before a resource is looked at again after it was first seen.
pub const CREATE_REQUEUE_SECS: u64 = 5;

/// Seconds before a resource is looked at again while its pipeline advances.
pub const STAGE_REQUEUE_SECS: u64 = 10;

/// Seconds before a retry when the remote store refused to hand the resource out.
pub const FETCH_REQUEUE_SECS: u64 = 15;

/// Seconds before a retry when the remote store could not be reached.
pub const UNREACHABLE_REQUEUE_SECS: u64 = 30;

/// Seconds before a retry after a reconcile pass failed.
pub const ERROR_REQUEUE_SECS: u64 = 60;

/// What one reconcile event calls for.
#[derive(Debug, Clone, Copy, PartialEq, Eq, Structural)]
pub enum CustomAction {
    /// Start the pipeline: create the certificate and add the finalizer.
    Create,
    /// Tear down everything that was created and release the finalizer.
    Delete,
    /// Advance the pipeline by one stage.
    Update,
    /// Nothing to do.
    NoOp,
}

/// When the resource is reconciled again.
#[derive(Debug, Clone, Copy, PartialEq, Eq, Structural)]
pub enum Action {
    /// After this many seconds.
    Requeue(u64),
    /// On its next change.
    AwaitChange,
}

/// Whether the resource carries this operator's finalizer.
pub open spec fn has_finalizer(m: ObjectMeta) -> bool {
    m.finalizers is Some && exists|i: int|
        0 <= i < m.finalizers->0@.len() && FINALIZER@.is_prefix_of(
            (#[trigger] m.finalizers->0@[i])@,
        )
}

/// The action for a resource: deletion requested with our finalizer present is
/// a teardown, without it nothing; otherwise our finalizer means the pipeline
/// is running, and its absence that it has to start.
pub open spec fn action_of(m: ObjectMeta) -> CustomAction {
    if m.deletion_timestamp is Some {
        if has_finalizer(m) {
            CustomAction::Delete
        } else {
            CustomAction::NoOp
        }
    } else {
        if has_finalizer(m) {
            CustomAction::Update
        } else {
            CustomAction::Create
        }
    }
}

/// Whether `s` starts with `prefix`.
fn starts_with(s: &String, prefix: &str) -> (r: bool)
    ensures
        r == prefix@.is_prefix_of(s@),
{
    let text = s.as_str();
    let n = text.unicode_len();
    let m = prefix.unicode_len();
    if m > n {
        return false;
    }
    let mut i: usize = 0;
    while i < m
        invariant
            0 <= i <= m <= n,
            m == prefix@.len(),
            n == s@.len(),
            text@ == s@,
            forall|j: int| 0 <= j < i ==> s@[j] == prefix@[j],
        decreases m - i,
    {
        if text.get_char(i) != prefix.get_char(i) {
            return false;
        }
        i = i + 1;
    }
    assert(prefix@ =~= s@.subrange(0, prefix@.len() as int));
    true
}

/// Whether some finalizer of `meta` is ours.
fn carries_finalizer(meta: &ObjectMeta) -> (r: bool)
    ensures
        r == has_finalizer(*meta),
{
    match &meta.finalizers {
        None => false,
        Some(fs) => {
            let mut i: usize = 0;
            while i < fs.len()
                invariant
                    0 <= i <= fs@.len(),
                    meta.finalizers == Some(*fs),
                    forall|j: int| 0 <= j < i ==> !FINALIZER@.is_prefix_of((#[trigger] fs@[j])@),
                decreases fs@.len() - i,
            {
                if starts_with(&fs[i], FINALIZER) {
                    assert(FINALIZER@.is_prefix_of(meta.finalizers->0@[i as int]@));
                    return true;
                }
                i = i + 1;
            }
            false
        },
    }
}

/// Classifies a reconcile event from the resource's metadata.
pub fn determine_action(meta: &ObjectMeta) -> (r: CustomAction)
    ensures
        r == action_of(*meta),
{
    let ours = carries_finalizer(meta);
    if meta.deletion_timestamp.is_some() {
        if ours {
            CustomAction::Delete
        } else {
            CustomAction::NoOp
        }
    } else {
        if ours {
            CustomAction::Update
        } else {
            CustomAction::Create
        }
    }
}

/// Whether a new resource still needs its certificate: nothing is recorded yet.
pub open spec fn fresh(status: Option<StatusView>) -> bool {
    match status {
        None => true,
        Some(st) => ledger(st).len() == 0,
    }
}

/// Whether the Create action should issue a certificate: only for a resource
/// whose ledger is empty; one with recorded progress only gets its finalizer
/// back.
pub fn needs_certificate(status: &Option<WebhookHelperStatus>) -> (r: bool)
    ensures
        r == fresh(status_opt_view(*status)),
{
    match status {
        None => true,
        Some(st) => match &st.conditions {
            None => true,
            Some(c) => c.len() == 0,
        },
    }
}

/// The stages recorded, in order, once the certificate `secret` of a new
/// resource exists: the helper is created, then its certificate.
pub fn start_stages(secret: String) -> (r: Vec<Stage>)
    ensures
        r@.len() == 2,
        r@[0]@ == StageView::HelperCreated,
        r@[1]@ == StageView::CertificateCreated(secret@),
{
    let mut r: Vec<Stage> = Vec::new();
    r.push(Stage::HelperCreated);
    r.push(Stage::CertificateCreated(secret));
    r
}

/// The owner reference to apply after `stage` was recorded: a workload that
/// has just started is tied to the helper resource with unique id `uid`, when
/// it has one.
pub fn owner_for(stage: &Stage, uid: &Option<String>) -> (r: Option<OwnerReference>)
    ensures
        r is Some <==> (stage is DeploymentStarted && uid is Some),
        r is Some ==> owner_ref_for(r->0, uid->0@),
{
    match (stage, uid) {
        (Stage::DeploymentStarted(_), Some(u)) => Some(owner_reference(u.clone())),
        _ => None,
    }
}

/// The stage handler that advances the pipeline past the current stage.
#[derive(Debug)]
pub enum UpdateTask {
    /// Nothing to advance yet; look again shortly.
    Wait,
    /// The pipeline is finished or failed; wait for a change.
    Idle,
    /// Create the workload, mounting the certificate from this secret.
    CreateWorkload(String),
    /// Check whether this workload is ready.
    PollWorkload(DeploymentType),
    /// Create the service in front of this workload.
    CreateService(DeploymentType),
    /// Create the webhook configuration that points at this service.
    CreateWebhook(Service),
}

/// The mathematical value of an [`UpdateTask`].
pub enum UpdateTaskView {
    Wait,
    Idle,
    CreateWorkload(Seq<char>),
    PollWorkload(DeploymentType),
    CreateService(DeploymentType),
    CreateWebhook(Service),
}

impl View for UpdateTask {
    type V = UpdateTaskView;

    open spec fn view(&self) -> UpdateTaskView {
        match self {
            UpdateTask::Wait => UpdateTaskView::Wait,
            UpdateTask::Idle => UpdateTaskView::Idle,
            UpdateTask::CreateWorkload(s) => UpdateTaskView::CreateWorkload(s@),
            UpdateTask::PollWorkload(w) => UpdateTaskView::PollWorkload(*w),
            UpdateTask::CreateService(w) => UpdateTaskView::CreateService(*w),
            UpdateTask::CreateWebhook(s) => UpdateTaskView::CreateWebhook(*s),
        }
    }
}

/// The task for each stage.
pub open spec fn task_for(s: StageView) -> UpdateTaskView {
    match s {
        StageView::HelperCreated => UpdateTaskView::Wait,
        StageView::Deleting => UpdateTaskView::Wait,
        StageView::CertificateCreated(c) => UpdateTaskView::CreateWorkload(c),
        StageView::DeploymentStarted(w) => UpdateTaskView::PollWorkload(w),
        StageView::DeploymentComplete(w) => UpdateTaskView::CreateService(w),
        StageView::ServiceCreated(s) => UpdateTaskView::CreateWebhook(s),
        StageView::WebhookCreated(_) => UpdateTaskView::Idle,
        StageView::CreationFailed(_) => UpdateTaskView::Idle,
    }
}

/// Picks the stage handler for the resolved stage.
pub fn plan_update(stage: Stage) -> (r: UpdateTask)
    ensures
        r@ == task_for(stage@),
{
    match stage {
        Stage::HelperCreated => UpdateTask::Wait,
        Stage::Deleting => UpdateTask::Wait,
        Stage::CertificateCreated(c) => UpdateTask::CreateWorkload(c),
        Stage::DeploymentStarted(w) => UpdateTask::PollWorkload(w),
        Stage::DeploymentComplete(w) => UpdateTask::CreateService(w),
        Stage::ServiceCreated(s) => UpdateTask::CreateWebhook(s),
        Stage::WebhookCreated(_) => UpdateTask::Idle,
        Stage::CreationFailed(_) => UpdateTask::Idle,
    }
}

/// An object that a stage handler created, or found ready.
#[derive(Debug)]
pub enum Created {
    Workload(DeploymentType),
    Service(Service),
    Webhook(WebhookType),
}

/// The stage recorded once `task` produced `created`; nothing when the task
/// produces no object of that kind.
pub open spec fn written_after(task: UpdateTaskView, created: Created) -> Option<StageView> {
    match (task, created) {
        (UpdateTaskView::CreateWorkload(_), Created::Workload(w)) => Some(
            StageView::DeploymentStarted(w),
        ),
        (UpdateTaskView::PollWorkload(_), Created::Workload(w)) => Some(
            StageView::DeploymentComplete(w),
        ),
        (UpdateTaskView::CreateService(_), Created::Service(s)) => Some(
            StageView::ServiceCreated(s),
        ),
        (UpdateTaskView::CreateWebhook(_), Created::Webhook(w)) => Some(
            StageView::WebhookCreated(w),
        ),
        _ => None,
    }
}

/// The stage to record once `task` produced `created`.
pub fn stage_after(task: &UpdateTask, created: Created) -> (r: Option<Stage>)
    ensures
        match written_after(task@, created) {
            None => r is None,
            Some(s) => r is Some && r->0@ == s,
        },
{
    match (task, created) {
        (UpdateTask::CreateWorkload(_), Created::Workload(w)) => Some(Stage::DeploymentStarted(w)),
        (UpdateTask::PollWorkload(_), Created::Workload(w)) => Some(Stage::DeploymentComplete(w)),
        (UpdateTask::CreateService(_), Created::Service(s)) => Some(Stage::ServiceCreated(s)),
        (UpdateTask::CreateWebhook(_), Created::Webhook(w)) => Some(Stage::WebhookCreated(w)),
        _ => None,
    }
}

pub open spec fn action_result_view(r: Result<Action, Error>) -> Result<Action, ErrorView> {
    match r {
        Ok(a) => Ok(a),
        Err(e) => Err(e@),
    }
}

/// What follows a task that ran with `outcome`: a stage handler that succeeded
/// is followed by a look at the next stage; a workload that is not ready yet is
/// polled again; any other failure goes to the error policy.
pub open spec fn after_task(task: UpdateTaskView, outcome: Result<(), ErrorView>) -> Result<
    Action,
    ErrorView,
> {
    match task {
        UpdateTaskView::Wait => Ok(Action::Requeue(CREATE_REQUEUE_SECS)),
        UpdateTaskView::Idle => Ok(Action::AwaitChange),
        UpdateTaskView::PollWorkload(_) => match outcome {
            Ok(()) => Ok(Action::Requeue(STAGE_REQUEUE_SECS)),
            Err(ErrorView::ResourceNotReady) => Ok(Action::Requeue(STAGE_REQUEUE_SECS)),
            Err(e) => Err(e),
        },
        _ => match outcome {
            Ok(()) => Ok(Action::Requeue(STAGE_REQUEUE_SECS)),
            Err(e) => Err(e),
        },
    }
}

/// The action after `task` ran with `outcome`.
pub fn update_action(task: &UpdateTask, outcome: Result<(), Error>) -> (r: Result<Action, Error>)
    ensures
        action_result_view(r) == after_task(task@, crate::error::unit_result_view(outcome)),
{
    match task {
        UpdateTask::Wait => Ok(Action::Requeue(CREATE_REQUEUE_SECS)),
        UpdateTask::Idle => Ok(Action::AwaitChange),
        UpdateTask::PollWorkload(_) => match outcome {
            Ok(()) => Ok(Action::Requeue(STAGE_REQUEUE_SECS)),
            Err(Error::ResourceNotReady) => Ok(Action::Requeue(STAGE_REQUEUE_SECS)),
            Err(e) => Err(e),
        },
        _ => match outcome {
            Ok(()) => Ok(Action::Requeue(STAGE_REQUEUE_SECS)),
            Err(e) => Err(e),
        },
    }
}

/// The action after the certificate stage of a new resource ran with
/// `outcome` and the finalizer was added.
pub fn create_action(outcome: Result<(), Error>) -> (r: Result<Action, Error>)
    ensures
        action_result_view(r) == match crate::error::unit_result_view(outcome) {
            Ok(()) => Ok(Action::Requeue(CREATE_REQUEUE_SECS)),
            Err(e) => Err::<Action, ErrorView>(e),
        },
{
    match outcome {
        Ok(()) => Ok(Action::Requeue(CREATE_REQUEUE_SECS)),
        Err(e) => Err(e),
    }
}

/// The action after teardown: deletion is final, so wait for the next change.
pub fn delete_action() -> (r: Action)
    ensures
        r == Action::AwaitChange,
{
    Action::AwaitChange
}

/// The action for a pass that ended in `error`: a fixed, coarse backoff.
pub fn error_policy(_error: &Error) -> (r: Action)
    ensures
        r == Action::Requeue(ERROR_REQUEUE_SECS),
{
    Action::Requeue(ERROR_REQUEUE_SECS)
}

/// A failure reported by the remote object store.
#[derive(Debug, Clone)]
pub enum RemoteError {
    /// The store answered with this status code.
    Api { code: u16, message: String },
    /// The store could not be reached or its answer not read.
    Other(String),
}

/// Whether a remote failure says that the object does not exist.
pub open spec fn is_not_found(e: RemoteError) -> bool {
    e matches RemoteError::Api { code, .. } && code == 404
}

/// What to do when the resource itself cannot be fetched: nothing when it is
/// gone, else try again, later when the store could not be reached at all.
pub fn fetch_failure_action(error: &RemoteError) -> (r: Action)
    ensures
        is_not_found(*error) ==> r == Action::AwaitChange,
        !is_not_found(*error) && error is Api ==> r == Action::Requeue(FETCH_REQUEUE_SECS),
        error is Other ==> r == Action::Requeue(UNREACHABLE_REQUEUE_SECS),
{
    match error {
        RemoteError::Api { code, .. } => {
            if *code == 404 {
                Action::AwaitChange
            } else {
                Action::Requeue(FETCH_REQUEUE_SECS)
            }
        },
        RemoteError::Other(_) => Action::Requeue(UNREACHABLE_REQUEUE_SECS),
    }
}

/// The text of a remote failure.
pub open spec fn remote_text(e: RemoteError) -> Seq<char> {
    match e {
        RemoteError::Api { message, .. } => message@,
        RemoteError::Other(m) => m@,
    }
}

impl RemoteError {
    /// The reconcile error for this remote failure.
    pub fn into_error(self) -> (r: Error)
        ensures
            r@ == ErrorView::WebhookHelperCreationFailed(remote_text(self)),
    {
        match self {
            RemoteError::Api { message, .. } => Error::WebhookHelperCreationFailed(message),
            RemoteError::Other(m) => Error::WebhookHelperCreationFailed(m),
        }
    }
}

/// The outcome of deleting one object: an object that is already gone counts
/// as deleted.
pub open spec fn deletion_outcome(result: Result<(), RemoteError>) -> Result<(), ErrorView> {
    match result {
        Ok(()) => Ok(()),
        Err(e) => if is_not_found(e) {
            Ok(())
        } else {
            Err(ErrorView::WebhookHelperCreationFailed(remote_text(e)))
        },
    }
}

/// Maps the store's answer to one deletion into the reconcile outcome.
pub fn delete_outcome(result: Result<(), RemoteError>) -> (r: Result<(), Error>)
    ensures
        crate::error::unit_result_view(r) == deletion_outcome(result),
{
    match result {
        Ok(()) => Ok(()),
        Err(e) => {
            let gone = match &e {
                RemoteError::Api { code, .. } => *code == 404,
                RemoteError::Other(_) => false,
            };
            if gone {
                Ok(())
            } else {
                Err(e.into_error())
            }
        },
    }
}

/// A reference to a namespaced object.
pub open spec fn namespaced(kind: ObjectKind, name: Seq<char>, ns: Seq<char>) -> ObjectRefView {
    ObjectRefView { kind, name, namespace: Some(ns) }
}

/// A reference to a cluster-wide object.
pub open spec fn cluster_wide(kind: ObjectKind, name: Seq<char>) -> ObjectRefView {
    ObjectRefView { kind, name, namespace: None }
}

/// The objects recorded in `st`, in teardown order: the workload, the webhook
/// configuration, the service, then the certificate secret.
pub open spec fn teardown_of(st: StatusView, ns: Seq<char>) -> Seq<ObjectRefView> {
    let workload = if st.deployment is Some {
        seq![namespaced(ObjectKind::Deployment, st.deployment->0, ns)]
    } else if st.pod is Some {
        seq![namespaced(ObjectKind::Pod, st.pod->0, ns)]
    } else {
        Seq::empty()
    };
    let webhook = if st.mutating_webhook is Some {
        seq![cluster_wide(ObjectKind::MutatingWebhookConfiguration, st.mutating_webhook->0)]
    } else if st.validating_webhook is Some {
        seq![cluster_wide(ObjectKind::ValidatingWebhookConfiguration, st.validating_webhook->0)]
    } else {
        Seq::empty()
    };
    let service = if st.service is Some {
        seq![namespaced(ObjectKind::Service, st.service->0, ns)]
    } else {
        Seq::empty()
    };
    let certificate = if st.certificate is Some {
        seq![namespaced(ObjectKind::Secret, st.certificate->0, ns)]
    } else {
        Seq::empty()
    };
    workload + webhook + service + certificate
}

/// The teardown of a resource whose status may be missing.
pub open spec fn teardown_plan(status: Option<StatusView>, ns: Seq<char>) -> Seq<ObjectRefView> {
    match status {
        None => Seq::empty(),
        Some(st) => teardown_of(st, ns),
    }
}

pub open spec fn refs_view(v: Seq<ObjectRef>) -> Seq<ObjectRefView> {
    v.map_values(|r: ObjectRef| r@)
}

fn push_ref(plan: &mut Vec<ObjectRef>, kind: ObjectKind, name: &String, namespace: Option<&String>)
    ensures
        refs_view(final(plan)@) == refs_view(old(plan)@).push(
            ObjectRefView {
                kind,
                name: name@,
                namespace: match namespace {
                    Some(n) => Some(n@),
                    None => None,
                },
            },
        ),
{
    let ns = match namespace {
        Some(n) => Some(n.clone()),
        None => None,
    };
    let ghost p0 = plan@;
    plan.push(ObjectRef { kind, name: name.clone(), namespace: ns });
    assert(refs_view(plan@) =~= refs_view(p0).push(plan@.last()@));
}

/// The objects to delete when the resource is torn down, in order: the
/// workload, the webhook configuration, the service, then the certificate
/// secret; what the status does not name was never created and is skipped.
pub fn delete_plan(status: &Option<WebhookHelperStatus>, namespace: &String) -> (r: Vec<ObjectRef>)
    ensures
        refs_view(r@) == teardown_plan(status_opt_view(*status), namespace@),
{
    let mut plan: Vec<ObjectRef> = Vec::new();
    let st = match status {
        None => {
            assert(refs_view(plan@) =~= Seq::empty());
            return plan;
        },
        Some(st) => st,
    };
    let ghost s = st@;
    let ghost ns = namespace@;
    assert(refs_view(plan@) =~= Seq::empty());
    if let Some(d) = &st.deployment {
        push_ref(&mut plan, ObjectKind::Deployment, d, Some(namespace));
    } else if let Some(p) = &st.pod {
        push_ref(&mut plan, ObjectKind::Pod, p, Some(namespace));
    }
    let ghost after_workload = refs_view(plan@);
    if let Some(m) = &st.mutating_webhook {
        push_ref(&mut plan, ObjectKind::MutatingWebhookConfiguration, m, None);
    } else if let Some(v) = &st.validating_webhook {
        push_ref(&mut plan, ObjectKind::ValidatingWebhookConfiguration, v, None);
    }
    let ghost after_webhook = refs_view(plan@);
    if let Some(sv) = &st.service {
        push_ref(&mut plan, ObjectKind::Service, sv, Some(namespace));
    }
    let ghost after_service = refs_view(plan@);
    if let Some(c) = &st.certificate {
        push_ref(&mut plan, ObjectKind::Secret, c, Some(namespace));
    }
    assert(refs_view(plan@) =~= teardown_of(s, ns));
    plan
}

} // verus!
