//! The deployment stage: builds the managed Pod or Deployment, checks its
//! readiness, and names it for teardown.
use vstd::prelude::*;
use vstd::string::StringExecFns;
use crate::crd::{DeploymentType, WebhookHelper, workload_name};
use crate::error::{Error, ErrorView};
use crate::objects::{
    Container, ContainerView, MANAGED_BY_KEY, MANAGED_BY_VALUE, MountView, ObjectMeta, PodSpec,
    PodSpecView, PodTemplateSpec, Volume, VolumeMount, VolumeView, containers_view, copy_opt,
    mark_managed, meta_labels, opt_view, with_label,
};
use crate::operation::{ObjectKind, ObjectRef, ObjectRefView, Operation};
use crate::validator::{container_check, spec_containers, validate_container_name};

verus! {

/// Name of the certificate volume and of its mount.
pub const CERTIFICATE_VOLUME: &'static str = "webhook-helper";

/// Where the certificate volume is mounted in the target container.
pub const CERTIFICATE_MOUNT_PATH: &'static str = "/webhook-helper";

/// The read-only mount of the certificate volume.
pub open spec fn certificate_mount() -> MountView {
    MountView {
        name: CERTIFICATE_VOLUME@,
        mount_path: CERTIFICATE_MOUNT_PATH@,
        read_only: Some(true),
    }
}

/// The certificate volume, sourced from secret `s`.
pub open spec fn certificate_volume(s: Seq<char>) -> VolumeView {
    VolumeView { name: CERTIFICATE_VOLUME@, secret_name: Some(s) }
}

/// The container the certificate goes into: the named one, else the first.
pub open spec fn mount_target(name: Option<Seq<char>>, p: PodSpecView) -> Option<Seq<char>> {
    match name {
        Some(n) => Some(n),
        None => if p.containers.len() > 0 {
            Some(p.containers[0].name)
        } else {
            None
        },
    }
}

/// `c` with the certificate mount added when it is named `target`.
pub open spec fn with_mount(c: ContainerView, target: Seq<char>) -> ContainerView {
    if c.name == target {
        ContainerView {
            volume_mounts: Some(
                match c.volume_mounts {
                    Some(m) => m,
                    None => Seq::empty(),
                }.push(certificate_mount()),
            ),
            ..c
        }
    } else {
        c
    }
}

/// `p` with the certificate mounted into every container named `target`, and
/// the certificate volume added when a secret is known.
pub open spec fn with_certificate(p: PodSpecView, target: Seq<char>, secret: Option<Seq<char>>) -> PodSpecView {
    PodSpecView {
        containers: p.containers.map_values(|c: ContainerView| with_mount(c, target)),
        volumes: match secret {
            Some(s) => Some(
                match p.volumes {
                    Some(v) => v,
                    None => Seq::empty(),
                }.push(certificate_volume(s)),
            ),
            None => p.volumes,
        },
    }
}

fn new_certificate_mount() -> (r: VolumeMount)
    ensures
        r@ == certificate_mount(),
{
    VolumeMount {
        name: String::from_str(CERTIFICATE_VOLUME),
        mount_path: String::from_str(CERTIFICATE_MOUNT_PATH),
        read_only: Some(true),
    }
}

/// Adds the certificate mount to `c` when it is named `target`.
fn mount_into(c: &mut Container, target: &String)
    ensures
        final(c)@ == with_mount(old(c)@, target@),
{
    let ghost before = c@;
    if c.name == *target {
        let mut mounts = match c.volume_mounts.take() {
            Some(m) => m,
            None => Vec::new(),
        };
        let ghost m0 = mounts@.map_values(|x: VolumeMount| x@);
        assert(m0 =~= match before.volume_mounts {
            Some(m) => m,
            None => Seq::empty(),
        });
        let mount = new_certificate_mount();
        mounts.push(mount);
        proof {
            assert(mounts@.map_values(|x: VolumeMount| x@) =~= m0.push(certificate_mount()));
        }
        c.volume_mounts = Some(mounts);
        assert(c@ =~= with_mount(before, target@));
    }
}

/// Mounts the certificate volume read-only into the target container of
/// `pod_spec` (the one named `container_name`, else the first), and adds the
/// volume itself, sourced from `secret`, when the secret is known.
fn mount_certificate(container_name: &Option<String>, secret: &Option<String>, pod_spec: &mut PodSpec) -> (r: Result<(), Error>)
    ensures
        match mount_target(opt_view(*container_name), old(pod_spec)@) {
            Some(t) => r is Ok && final(pod_spec)@ == with_certificate(
                old(pod_spec)@,
                t,
                opt_view(*secret),
            ),
            None => r is Err && r->Err_0@ == ErrorView::UnableToDetermineContainerName
                && final(pod_spec)@ == old(pod_spec)@,
        },
{
    let target = match container_name {
        Some(n) => n.clone(),
        None => {
            if pod_spec.containers.len() > 0 {
                pod_spec.containers[0].name.clone()
            } else {
                return Err(Error::UnableToDetermineContainerName);
            }
        },
    };
    let ghost p0 = pod_spec@;
    let ghost c0 = pod_spec.containers@;
    let mut rest: Vec<Container> = Vec::new();
    std::mem::swap(&mut rest, &mut pod_spec.containers);
    let mut done: Vec<Container> = Vec::new();
    while rest.len() > 0
        invariant
            done@.len() + rest@.len() == c0.len(),
            rest@ == c0.skip(done@.len() as int),
            forall|j: int|
                0 <= j < done@.len() ==> (#[trigger] done@[j])@ == with_mount(c0[j]@, target@),
        decreases rest@.len(),
    {
        let ghost k = done@.len() as int;
        let mut c = rest.remove(0);
        assert(c == c0[k]);
        mount_into(&mut c, &target);
        done.push(c);
        assert(rest@ =~= c0.skip(k + 1));
    }
    proof {
        assert(done@.len() == c0.len());
        assert(containers_view(done@) =~= containers_view(c0).map_values(
            |c: ContainerView| with_mount(c, target@),
        ));
    }
    pod_spec.containers = done;
    if let Some(s) = secret {
        let mut volumes = match pod_spec.volumes.take() {
            Some(v) => v,
            None => Vec::new(),
        };
        let ghost v0 = volumes@;
        assert(v0.map_values(|x: Volume| x@) =~= match p0.volumes {
            Some(v) => v,
            None => Seq::empty(),
        });
        volumes.push(Volume { name: String::from_str(CERTIFICATE_VOLUME), secret_name: Some(s.clone()) });
        proof {
            assert(volumes@.map_values(|x: Volume| x@) =~= v0.map_values(|x: Volume| x@).push(
                certificate_volume(s@),
            ));
        }
        pod_spec.volumes = Some(volumes);
    }
    assert(pod_spec@ =~= with_certificate(p0, target@, opt_view(*secret)));
    Ok(())
}

/// `new` is `old` marked as managed, with every other field kept.
pub open spec fn labeled(old: ObjectMeta, new: ObjectMeta) -> bool {
    &&& new.labels is Some
    &&& meta_labels(new) == with_label(meta_labels(old), MANAGED_BY_KEY@, MANAGED_BY_VALUE@)
    &&& new.name == old.name
    &&& new.generate_name == old.generate_name
    &&& new.uid == old.uid
    &&& new.finalizers == old.finalizers
    &&& new.deletion_timestamp == old.deletion_timestamp
}

/// `new` is `old` marked as managed and placed in namespace `ns`.
pub open spec fn placed(old: ObjectMeta, new: ObjectMeta, ns: Seq<char>) -> bool {
    labeled(old, new) && opt_view(new.namespace) == Some(ns)
}

/// The pod spec after the certificate is mounted, when there is a pod spec.
pub open spec fn pod_prepared(
    old: Option<PodSpec>,
    new: Option<PodSpec>,
    name: Option<Seq<char>>,
    secret: Option<Seq<char>>,
) -> bool {
    match old {
        None => new is None,
        Some(p) => new is Some && new->0@ == with_certificate(
            p@,
            mount_target(name, p@)->0,
            secret,
        ),
    }
}

/// Metadata with every field unset.
pub open spec fn no_meta() -> ObjectMeta {
    ObjectMeta {
        name: None,
        generate_name: None,
        namespace: None,
        uid: None,
        labels: None,
        finalizers: None,
        deletion_timestamp: None,
    }
}

/// The pod template after its pods are marked as managed and the certificate
/// is mounted.
pub open spec fn template_prepared(
    old: PodTemplateSpec,
    new: PodTemplateSpec,
    name: Option<Seq<char>>,
    secret: Option<Seq<char>>,
) -> bool {
    let m = match old.metadata {
        Some(m) => m,
        None => no_meta(),
    };
    &&& new.metadata is Some
    &&& labeled(m, new.metadata->0)
    &&& new.metadata->0.namespace == m.namespace
    &&& pod_prepared(old.spec, new.spec, name, secret)
}

pub open spec fn no_deployment_spec_text() -> Seq<char> {
    "No DeploymentSpec found in WebhookHelper"@
}

pub open spec fn invalid_workload_text() -> Seq<char> {
    "Invalid deployment spec"@
}

/// Whether a workload document can be created: a Deployment needs a spec, and
/// the target container must be identifiable in the pod spec.
pub open spec fn workload_check(name: Option<Seq<char>>, w: DeploymentType) -> Result<(), ErrorView> {
    match w {
        DeploymentType::Deployment(d) => match d.spec {
            None => Err(ErrorView::UnableToCreateObject(no_deployment_spec_text())),
            Some(s) => container_check(name, spec_containers(s.template.spec)),
        },
        DeploymentType::Pod(p) => container_check(name, spec_containers(p.spec)),
    }
}

/// `new` is the workload `old` ready to be created in namespace `ns`.
pub open spec fn workload_prepared(
    old: DeploymentType,
    new: DeploymentType,
    ns: Seq<char>,
    name: Option<Seq<char>>,
    secret: Option<Seq<char>>,
) -> bool {
    match (old, new) {
        (DeploymentType::Deployment(d), DeploymentType::Deployment(d2)) => {
            &&& placed(d.metadata, d2.metadata, ns)
            &&& d2.status == d.status
            &&& d2.spec is Some
            &&& template_prepared(d.spec->0.template, d2.spec->0.template, name, secret)
        },
        (DeploymentType::Pod(p), DeploymentType::Pod(p2)) => {
            &&& placed(p.metadata, p2.metadata, ns)
            &&& p2.status == p.status
            &&& pod_prepared(p.spec, p2.spec, name, secret)
        },
        _ => false,
    }
}

/// Whether a workload is ready: a Deployment with at least one ready replica,
/// or a Pod whose `Ready` condition is `True`.
pub open spec fn workload_ready(w: DeploymentType) -> bool {
    match w {
        DeploymentType::Deployment(d) => d.status is Some && d.status->0.ready_replicas is Some
            && d.status->0.ready_replicas->0 > 0,
        DeploymentType::Pod(p) => p.status is Some && p.status->0.conditions is Some && exists|
            i: int,
        |
            0 <= i < p.status->0.conditions->0@.len() && (
            #[trigger] p.status->0.conditions->0@[i]).type_@ == "Ready"@
                && p.status->0.conditions->0@[i].status@ == "True"@,
    }
}

/// The object that deleting workload `w` in namespace `ns` removes.
pub open spec fn workload_ref(w: DeploymentType, ns: Seq<char>) -> ObjectRefView {
    ObjectRefView {
        kind: match w {
            DeploymentType::Deployment(_) => ObjectKind::Deployment,
            DeploymentType::Pod(_) => ObjectKind::Pod,
        },
        name: workload_name(w),
        namespace: Some(ns),
    }
}

/// The deployment stage of one helper resource.
#[derive(Debug)]
pub struct DeploymentStage {
    pub operation: Operation,
    pub namespace: String,
    pub container_name: Option<String>,
    pub secret: Option<String>,
    pub deployment: Option<DeploymentType>,
}

fn has_ready_condition(p: &crate::objects::Pod) -> (r: bool)
    ensures
        r == workload_ready(DeploymentType::Pod(*p)),
{
    match &p.status {
        None => false,
        Some(st) => match &st.conditions {
            None => false,
            Some(conds) => {
                assert(p.status->0 == *st);
                assert(st.conditions->0 == *conds);
                let ready = String::from_str("Ready");
                let yes = String::from_str("True");
                let mut i: usize = 0;
                while i < conds.len()
                    invariant
                        0 <= i <= conds@.len(),
                        p.status is Some && p.status->0.conditions == Some(*conds),
                        ready@ == "Ready"@,
                        yes@ == "True"@,
                        forall|j: int|
                            0 <= j < i ==> !((#[trigger] conds@[j]).type_@ == "Ready"@
                                && conds@[j].status@ == "True"@),
                    decreases conds@.len() - i,
                {
                    if conds[i].type_ == ready && conds[i].status == yes {
                        assert(p.status->0.conditions->0@[i as int].type_@ == "Ready"@);
                        return true;
                    }
                    i = i + 1;
                }
                false
            },
        },
    }
}

impl DeploymentStage {
    /// The deployment stage for `webhook`, mounting the certificate from `secret`.
    pub fn new(operation: Operation, webhook: &WebhookHelper, secret: Option<String>) -> (r:
        DeploymentStage)
        ensures
            r.operation == operation,
            r.namespace@ == webhook.spec.namespace@,
            opt_view(r.container_name) == opt_view(webhook.spec.container_name),
            r.secret == secret,
            r.deployment is None,
    {
        DeploymentStage {
            operation,
            namespace: webhook.spec.namespace.clone(),
            container_name: copy_opt(&webhook.spec.container_name),
            secret,
            deployment: None,
        }
    }

    /// Builds the workload to create from `decoded`, the helper's workload
    /// document read as a Deployment, or else as a Pod (`None` when it reads as
    /// neither): places it in the helper's namespace, marks it and its pods as
    /// managed, checks the target container, and mounts the certificate into it.
    pub fn create_deployment(&self, decoded: Option<DeploymentType>) -> (r: Result<
        DeploymentType,
        Error,
    >)
        ensures
            match decoded {
                None => r is Err && r->Err_0@ == ErrorView::UnableToCreateObject(
                    invalid_workload_text(),
                ),
                Some(w) => match workload_check(opt_view(self.container_name), w) {
                    Err(e) => r is Err && r->Err_0@ == e,
                    Ok(()) => r is Ok && workload_prepared(
                        w,
                        r->Ok_0,
                        self.namespace@,
                        opt_view(self.container_name),
                        opt_view(self.secret),
                    ),
                },
            },
    {
        match decoded {
            None => Err(Error::UnableToCreateObject(String::from_str("Invalid deployment spec"))),
            Some(DeploymentType::Deployment(d)) => {
                let mut d = d;
                d.metadata.namespace = Some(self.namespace.clone());
                self.add_labels(&mut d.metadata);
                let mut ds = match d.spec.take() {
                    None => {
                        return Err(
                            Error::UnableToCreateObject(
                                String::from_str("No DeploymentSpec found in WebhookHelper"),
                            ),
                        );
                    },
                    Some(ds) => ds,
                };
                match validate_container_name(&self.container_name, &ds.template.spec) {
                    Ok(()) => {},
                    Err(e) => {
                        return Err(e);
                    },
                }
                let mut tm = match ds.template.metadata.take() {
                    Some(m) => m,
                    None => ObjectMeta::empty(),
                };
                self.add_labels(&mut tm);
                ds.template.metadata = Some(tm);
                if let Some(mut ps) = ds.template.spec.take() {
                    match self.add_volume_mount(&mut ps) {
                        Ok(()) => {},
                        Err(e) => {
                            return Err(e);
                        },
                    }
                    ds.template.spec = Some(ps);
                }
                d.spec = Some(ds);
                Ok(DeploymentType::Deployment(d))
            },
            Some(DeploymentType::Pod(p)) => {
                let mut p = p;
                p.metadata.namespace = Some(self.namespace.clone());
                self.add_labels(&mut p.metadata);
                match validate_container_name(&self.container_name, &p.spec) {
                    Ok(()) => {},
                    Err(e) => {
                        return Err(e);
                    },
                }
                if let Some(mut ps) = p.spec.take() {
                    match self.add_volume_mount(&mut ps) {
                        Ok(()) => {},
                        Err(e) => {
                            return Err(e);
                        },
                    }
                    p.spec = Some(ps);
                }
                Ok(DeploymentType::Pod(p))
            },
        }
    }

    /// The readiness check on `fetched`, the workload as the remote store now
    /// holds it: the workload itself when ready, else `ResourceNotReady`.
    pub fn get_deployment_status(&self, fetched: DeploymentType) -> (r: Result<DeploymentType, Error>)
        ensures
            workload_ready(fetched) ==> r is Ok && r->Ok_0 == fetched,
            !workload_ready(fetched) ==> r is Err && r->Err_0@ == ErrorView::ResourceNotReady,
    {
        let ready = match &fetched {
            DeploymentType::Deployment(d) => match &d.status {
                Some(st) => match st.ready_replicas {
                    Some(n) => n > 0,
                    None => false,
                },
                None => false,
            },
            DeploymentType::Pod(p) => has_ready_condition(p),
        };
        if ready {
            Ok(fetched)
        } else {
            Err(Error::ResourceNotReady)
        }
    }

    /// Mounts the certificate volume read-only into the target container of
    /// `pod_spec` (the one the helper names, else the first), and adds the
    /// volume itself, sourced from the stage's secret, when the secret is known.
    /// Without a name and without containers there is no target, and nothing
    /// changes.
    pub fn add_volume_mount(&self, pod_spec: &mut PodSpec) -> (r: Result<(), Error>)
        ensures
            match mount_target(opt_view(self.container_name), old(pod_spec)@) {
                Some(t) => r is Ok && final(pod_spec)@ == with_certificate(
                    old(pod_spec)@,
                    t,
                    opt_view(self.secret),
                ),
                None => r is Err && r->Err_0@ == ErrorView::UnableToDetermineContainerName
                    && final(pod_spec)@ == old(pod_spec)@,
            },
    {
        mount_certificate(&self.container_name, &self.secret, pod_spec)
    }

    /// Marks `meta` as managed by this operator, keeping its other labels.
    pub fn add_labels(&self, meta: &mut ObjectMeta)
        ensures
            labeled(*old(meta), *final(meta)),
            final(meta).namespace == old(meta).namespace,
    {
        mark_managed(meta)
    }

    /// Records `created`, the workload the store created, as this stage's.
    pub fn set_deployment(&mut self, created: DeploymentType)
        ensures
            final(self).deployment == Some(created),
            final(self).operation == old(self).operation,
            final(self).namespace == old(self).namespace,
            final(self).container_name == old(self).container_name,
            final(self).secret == old(self).secret,
    {
        self.deployment = Some(created);
    }

    /// The workload this stage holds, if any.
    pub fn get_deployment(&self) -> (r: &Option<DeploymentType>)
        ensures
            *r == self.deployment,
    {
        &self.deployment
    }

    /// The object to remove when this stage is torn down; nothing when the
    /// stage holds no workload.
    pub fn delete(&self) -> (r: Option<ObjectRef>)
        ensures
            match self.deployment {
                None => r is None,
                Some(w) => r is Some && r->0@ == workload_ref(w, self.namespace@),
            },
    {
        match &self.deployment {
            None => None,
            Some(w) => Some(
                ObjectRef {
                    kind: match w {
                        DeploymentType::Deployment(_) => ObjectKind::Deployment,
                        DeploymentType::Pod(_) => ObjectKind::Pod,
                    },
                    name: w.name(),
                    namespace: Some(self.namespace.clone()),
                },
            ),
        }
    }
}

} // verus!
