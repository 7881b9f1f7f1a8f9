//! Plain-value models of the platform objects that the operator reads and writes.
use vstd::prelude::*;

verus! {

/// Label key that marks an object as managed by this operator.
pub const MANAGED_BY_KEY: &'static str = "app.kubernetes.io/managed-by";

/// Label value that marks an object as managed by this operator.
pub const MANAGED_BY_VALUE: &'static str = "webhook-helper";

/// A label set as key/value pairs; see [`labels_unique`].
pub type Labels = Vec<(String, String)>;

/// The metadata shared by every object.
#[derive(Debug, Clone)]
pub struct ObjectMeta {
    pub name: Option<String>,
    pub generate_name: Option<String>,
    pub namespace: Option<String>,
    pub uid: Option<String>,
    pub labels: Option<Labels>,
    pub finalizers: Option<Vec<String>>,
    pub deletion_timestamp: Option<String>,
}

#[derive(Debug, Clone)]
pub struct VolumeMount {
    pub name: String,
    pub mount_path: String,
    pub read_only: Option<bool>,
}

/// A volume; `secret_name` is set when the volume is sourced from a secret.
#[derive(Debug, Clone)]
pub struct Volume {
    pub name: String,
    pub secret_name: Option<String>,
}

#[derive(Debug, Clone)]
pub struct Container {
    pub name: String,
    pub volume_mounts: Option<Vec<VolumeMount>>,
}

#[derive(Debug, Clone)]
pub struct PodSpec {
    pub containers: Vec<Container>,
    pub volumes: Option<Vec<Volume>>,
}

#[derive(Debug, Clone)]
pub struct PodCondition {
    pub type_: String,
    pub status: String,
}

#[derive(Debug, Clone)]
pub struct PodStatus {
    pub conditions: Option<Vec<PodCondition>>,
}

#[derive(Debug, Clone)]
pub struct Pod {
    pub metadata: ObjectMeta,
    pub spec: Option<PodSpec>,
    pub status: Option<PodStatus>,
}

#[derive(Debug, Clone)]
pub struct PodTemplateSpec {
    pub metadata: Option<ObjectMeta>,
    pub spec: Option<PodSpec>,
}

#[derive(Debug, Clone)]
pub struct DeploymentSpec {
    pub template: PodTemplateSpec,
}

#[derive(Debug, Clone)]
pub struct DeploymentStatus {
    pub ready_replicas: Option<i32>,
}

#[derive(Debug, Clone)]
pub struct Deployment {
    pub metadata: ObjectMeta,
    pub spec: Option<DeploymentSpec>,
    pub status: Option<DeploymentStatus>,
}

#[derive(Debug, Clone)]
pub struct ServicePort {
    pub protocol: Option<String>,
    pub port: i32,
}

#[derive(Debug, Clone)]
pub struct ServiceSpec {
    pub selector: Option<Labels>,
    pub ports: Option<Vec<ServicePort>>,
}

#[derive(Debug, Clone)]
pub struct Service {
    pub metadata: ObjectMeta,
    pub spec: Option<ServiceSpec>,
}

/// A secret holding text entries.
#[derive(Debug, Clone)]
pub struct Secret {
    pub metadata: ObjectMeta,
    pub type_: Option<String>,
    pub string_data: Option<Vec<(String, String)>>,
}

/// Where the platform sends admission requests for a webhook.
#[derive(Debug, Clone)]
pub struct ServiceReference {
    pub namespace: String,
    pub name: String,
    pub path: Option<String>,
    pub port: Option<i32>,
}

/// One webhook entry of a webhook configuration.
#[derive(Debug, Clone)]
pub struct Webhook {
    pub name: String,
    pub service: Option<ServiceReference>,
}

/// A mutating or validating admission-webhook configuration.
#[derive(Debug, Clone)]
pub struct WebhookConfiguration {
    pub metadata: ObjectMeta,
    pub webhooks: Vec<Webhook>,
}

/// The mathematical value of a [`VolumeMount`].
pub struct MountView {
    pub name: Seq<char>,
    pub mount_path: Seq<char>,
    pub read_only: Option<bool>,
}

/// The mathematical value of a [`Volume`].
pub struct VolumeView {
    pub name: Seq<char>,
    pub secret_name: Option<Seq<char>>,
}

/// The mathematical value of a [`Container`].
pub struct ContainerView {
    pub name: Seq<char>,
    pub volume_mounts: Option<Seq<MountView>>,
}

/// The mathematical value of a [`PodSpec`].
pub struct PodSpecView {
    pub containers: Seq<ContainerView>,
    pub volumes: Option<Seq<VolumeView>>,
}

impl View for VolumeMount {
    type V = MountView;

    open spec fn view(&self) -> MountView {
        MountView { name: self.name@, mount_path: self.mount_path@, read_only: self.read_only }
    }
}

impl View for Volume {
    type V = VolumeView;

    open spec fn view(&self) -> VolumeView {
        VolumeView { name: self.name@, secret_name: opt_view(self.secret_name) }
    }
}

impl View for Container {
    type V = ContainerView;

    open spec fn view(&self) -> ContainerView {
        ContainerView {
            name: self.name@,
            volume_mounts: match self.volume_mounts {
                Some(m) => Some(m@.map_values(|x: VolumeMount| x@)),
                None => None,
            },
        }
    }
}

pub open spec fn containers_view(c: Seq<Container>) -> Seq<ContainerView> {
    c.map_values(|x: Container| x@)
}

impl View for PodSpec {
    type V = PodSpecView;

    open spec fn view(&self) -> PodSpecView {
        PodSpecView {
            containers: containers_view(self.containers@),
            volumes: match self.volumes {
                Some(v) => Some(v@.map_values(|x: Volume| x@)),
                None => None,
            },
        }
    }
}

/// The view of an optional string.
pub open spec fn opt_view(o: Option<String>) -> Option<Seq<char>> {
    match o {
        Some(s) => Some(s@),
        None => None,
    }
}

/// The view of a label set.
pub open spec fn labels_view(l: Seq<(String, String)>) -> Seq<(Seq<char>, Seq<char>)> {
    l.map_values(|p: (String, String)| (p.0@, p.1@))
}

/// The label set `l` with `k` set to `v`: every entry under `k` takes the new
/// value, and the pair is appended when `k` was absent.
pub open spec fn with_label(
    l: Seq<(Seq<char>, Seq<char>)>,
    k: Seq<char>,
    v: Seq<char>,
) -> Seq<(Seq<char>, Seq<char>)> {
    if exists|i: int| 0 <= i < l.len() && (#[trigger] l[i]).0 == k {
        l.map_values(|p: (Seq<char>, Seq<char>)| if p.0 == k { (k, v) } else { p })
    } else {
        l.push((k, v))
    }
}

/// No key occurs twice in the label set.
pub open spec fn labels_unique(l: Seq<(Seq<char>, Seq<char>)>) -> bool {
    forall|i: int, j: int| 0 <= i < j < l.len() ==> (#[trigger] l[i]).0 != (#[trigger] l[j]).0
}

/// Setting a label keeps the keys unique, and `k` then maps to `v`.
pub proof fn lemma_with_label_unique(l: Seq<(Seq<char>, Seq<char>)>, k: Seq<char>, v: Seq<char>)
    requires
        labels_unique(l),
    ensures
        labels_unique(with_label(l, k, v)),
        exists|i: int|
            0 <= i < with_label(l, k, v).len() && #[trigger] with_label(l, k, v)[i] == (k, v),
{
    let r = with_label(l, k, v);
    if exists|i: int| 0 <= i < l.len() && (#[trigger] l[i]).0 == k {
        let i = choose|i: int| 0 <= i < l.len() && (#[trigger] l[i]).0 == k;
        assert(r[i] == (k, v));
        assert forall|a: int, b: int| 0 <= a < b < r.len() implies (#[trigger] r[a]).0 != (
        #[trigger] r[b]).0 by {
            assert(l[a].0 != l[b].0);
        }
    } else {
        assert(r[l.len() as int] == (k, v));
        assert forall|a: int, b: int| 0 <= a < b < r.len() implies (#[trigger] r[a]).0 != (
        #[trigger] r[b]).0 by {
            if b < l.len() {
                assert(l[a].0 != l[b].0);
            } else {
                assert(l[a] == r[a]);
            }
        }
    }
}

/// The labels of an object, or none.
pub open spec fn meta_labels(m: ObjectMeta) -> Seq<(Seq<char>, Seq<char>)> {
    match m.labels {
        Some(l) => labels_view(l@),
        None => Seq::empty(),
    }
}

/// The name the platform shows for an object: its name, else its name prefix,
/// else the empty string.
pub open spec fn name_any(m: ObjectMeta) -> Seq<char> {
    match m.name {
        Some(n) => n@,
        None => match m.generate_name {
            Some(g) => g@,
            None => Seq::empty(),
        },
    }
}

/// A copy of an optional string.
pub fn copy_opt(o: &Option<String>) -> (r: Option<String>)
    ensures
        opt_view(r) == opt_view(*o),
{
    match o {
        Some(s) => Some(s.clone()),
        None => None,
    }
}

impl ObjectMeta {
    /// Metadata with every field unset.
    pub fn empty() -> (r: ObjectMeta)
        ensures
            r.name is None,
            r.generate_name is None,
            r.namespace is None,
            r.uid is None,
            r.labels is None,
            r.finalizers is None,
            r.deletion_timestamp is None,
    {
        ObjectMeta {
            name: None,
            generate_name: None,
            namespace: None,
            uid: None,
            labels: None,
            finalizers: None,
            deletion_timestamp: None,
        }
    }

    /// The name the platform shows for the object.
    pub fn name_any(&self) -> (r: String)
        ensures
            r@ == name_any(*self),
    {
        match &self.name {
            Some(n) => n.clone(),
            None => match &self.generate_name {
                Some(g) => g.clone(),
                None => String::new(),
            },
        }
    }
}

/// Sets label `k` to `v` in `labels`.
pub fn insert_label(labels: &mut Labels, k: &str, v: &str)
    ensures
        labels_view(final(labels)@) == with_label(labels_view(old(labels)@), k@, v@),
        labels_unique(labels_view(old(labels)@)) ==> labels_unique(labels_view(final(labels)@)),
{
    let ghost l0 = labels_view(labels@);
    let key = String::from_str(k);
    let mut found = false;
    let mut i: usize = 0;
    while i < labels.len()
        invariant
            0 <= i <= labels@.len(),
            labels@.len() == l0.len(),
            key@ == k@,
            l0 == labels_view(old(labels)@),
            found == exists|j: int| 0 <= j < i && (#[trigger] l0[j]).0 == k@,
            forall|j: int|
                0 <= j < i ==> (#[trigger] labels_view(labels@)[j]) == (if l0[j].0 == k@ {
                    (k@, v@)
                } else {
                    l0[j]
                }),
            forall|j: int| i <= j < labels@.len() ==> (#[trigger] labels_view(labels@)[j]) == l0[j],
        decreases labels@.len() - i,
    {
        let ghost before = labels@;
        assert(labels_view(before)[i as int] == (before[i as int].0@, before[i as int].1@));
        if labels[i].0 == key {
            labels.set(i, (String::from_str(k), String::from_str(v)));
            found = true;
            assert(labels_view(labels@)[i as int] == (k@, v@));
        }
        assert forall|j: int| 0 <= j < labels@.len() && j != i implies labels_view(labels@)[j]
            == labels_view(before)[j] by {
            assert(labels@[j] == before[j]);
        }
        assert(forall|j: int| i < j < labels@.len() ==> labels_view(before)[j] == l0[j]);
        assert forall|j: int| 0 <= j < i + 1 implies (#[trigger] labels_view(labels@)[j]) == (if l0[j].0
            == k@ {
            (k@, v@)
        } else {
            l0[j]
        }) by {
            if j < i {
                assert(labels_view(before)[j] == labels_view(labels@)[j]);
            }
        }
        i = i + 1;
    }
    proof {
        if labels_unique(l0) {
            lemma_with_label_unique(l0, k@, v@);
        }
    }
    if !found {
        let ghost before = labels@;
        let entry = (String::from_str(k), String::from_str(v));
        labels.push(entry);
        assert(labels_view(labels@)[before.len() as int] == (k@, v@));
        assert(forall|j: int| 0 <= j < before.len() ==> labels_view(before)[j] == l0[j]);
        assert forall|j: int| 0 <= j < before.len() implies labels_view(labels@)[j]
            == labels_view(before)[j] by {
            assert(labels@[j] == before[j]);
        }
        assert(labels_view(labels@) =~= l0.push((k@, v@)));
    } else {
        assert(labels_view(labels@) =~= l0.map_values(
            |p: (Seq<char>, Seq<char>)| if p.0 == k@ { (k@, v@) } else { p },
        ));
    }
}

/// Marks `meta` as managed by this operator, keeping its other labels.
pub fn mark_managed(meta: &mut ObjectMeta)
    ensures
        final(meta).labels is Some,
        meta_labels(*final(meta)) == with_label(
            meta_labels(*old(meta)),
            MANAGED_BY_KEY@,
            MANAGED_BY_VALUE@,
        ),
        final(meta).name == old(meta).name,
        final(meta).generate_name == old(meta).generate_name,
        final(meta).namespace == old(meta).namespace,
        final(meta).uid == old(meta).uid,
        final(meta).finalizers == old(meta).finalizers,
        final(meta).deletion_timestamp == old(meta).deletion_timestamp,
        labels_unique(meta_labels(*old(meta))) ==> labels_unique(meta_labels(*final(meta))),
{
    let mut labels = match meta.labels.take() {
        Some(l) => l,
        None => Vec::new(),
    };
    proof {
        assert(labels_view(Seq::<(String, String)>::empty()) =~= Seq::empty());
    }
    insert_label(&mut labels, MANAGED_BY_KEY, MANAGED_BY_VALUE);
    meta.labels = Some(labels);
}

} // verus!
