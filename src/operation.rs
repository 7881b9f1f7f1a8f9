//! The operations a stage asks of the remote object store.
use vstd::prelude::*;
use vstd::string::StringExecFns;
use crate::error::{Error, ErrorView};
use crate::objects::opt_view;

verus! {

/// What a stage is asked to do.
#[derive(Debug, Clone)]
pub enum Operation {
    Get,
    Create,
    Update,
    Delete,
    Bootstrap,
    ApplyOwner(String),
    Unknown(String),
}

/// A single call on the remote object store.
#[derive(Debug, Clone)]
pub enum RemoteCall {
    Create,
    Delete,
    Get,
    Replace,
    /// Merge an owner reference to the resource with this unique id.
    ApplyOwner(String),
}

/// The mathematical value of a [`RemoteCall`].
pub enum RemoteCallView {
    Create,
    Delete,
    Get,
    Replace,
    ApplyOwner(Seq<char>),
}

impl View for RemoteCall {
    type V = RemoteCallView;

    open spec fn view(&self) -> RemoteCallView {
        match self {
            RemoteCall::Create => RemoteCallView::Create,
            RemoteCall::Delete => RemoteCallView::Delete,
            RemoteCall::Get => RemoteCallView::Get,
            RemoteCall::Replace => RemoteCallView::Replace,
            RemoteCall::ApplyOwner(u) => RemoteCallView::ApplyOwner(u@),
        }
    }
}

/// The call an operation stands for; bootstrap and unknown operations have none.
pub open spec fn call_of(op: Operation) -> Result<RemoteCallView, ErrorView> {
    match op {
        Operation::Get => Ok(RemoteCallView::Get),
        Operation::Create => Ok(RemoteCallView::Create),
        Operation::Update => Ok(RemoteCallView::Replace),
        Operation::Delete => Ok(RemoteCallView::Delete),
        Operation::ApplyOwner(u) => Ok(RemoteCallView::ApplyOwner(u@)),
        Operation::Unknown(op) => Err(ErrorView::UnknownOperation(op@)),
        Operation::Bootstrap => Err(ErrorView::UnknownOperation("Bootstrap"@)),
    }
}

/// The kinds of object the operator manages.
#[derive(Debug, Clone, Copy, PartialEq, Eq, Structural)]
pub enum ObjectKind {
    Secret,
    Deployment,
    Pod,
    Service,
    MutatingWebhookConfiguration,
    ValidatingWebhookConfiguration,
}

/// A managed object named by kind, name and, unless it is cluster-wide, namespace.
#[derive(Debug, Clone)]
pub struct ObjectRef {
    pub kind: ObjectKind,
    pub name: String,
    pub namespace: Option<String>,
}

/// The mathematical value of an [`ObjectRef`].
pub struct ObjectRefView {
    pub kind: ObjectKind,
    pub name: Seq<char>,
    pub namespace: Option<Seq<char>>,
}

impl View for ObjectRef {
    type V = ObjectRefView;

    open spec fn view(&self) -> ObjectRefView {
        ObjectRefView { kind: self.kind, name: self.name@, namespace: opt_view(self.namespace) }
    }
}

/// A reference from a managed object to the helper resource that owns it.
#[derive(Debug, Clone)]
pub struct OwnerReference {
    pub api_version: String,
    pub kind: String,
    pub name: String,
    pub uid: String,
    pub block_owner_deletion: bool,
}

impl Operation {
    /// The remote call that carries out this operation on one object.
    pub fn remote_call(&self) -> (r: Result<RemoteCall, Error>)
        ensures
            match r {
                Ok(c) => call_of(*self) == Ok::<RemoteCallView, ErrorView>(c@),
                Err(e) => call_of(*self) == Err::<RemoteCallView, ErrorView>(e@),
            },
    {
        match self {
            Operation::Get => Ok(RemoteCall::Get),
            Operation::Create => Ok(RemoteCall::Create),
            Operation::Update => Ok(RemoteCall::Replace),
            Operation::Delete => Ok(RemoteCall::Delete),
            Operation::ApplyOwner(u) => Ok(RemoteCall::ApplyOwner(u.clone())),
            Operation::Unknown(op) => Err(Error::UnknownOperation(op.clone())),
            Operation::Bootstrap => Err(Error::UnknownOperation(String::from_str("Bootstrap"))),
        }
    }
}

/// `r` ties a managed object to the helper resource with unique id `uid`.
pub open spec fn owner_ref_for(r: OwnerReference, uid: Seq<char>) -> bool {
    &&& r.api_version@ == "v1"@
    &&& r.kind@ == "WebhookHelper"@
    &&& r.name@ == "webhook-helper.io"@
    &&& r.uid@ == uid
    &&& !r.block_owner_deletion
}

/// The owner reference that ties a managed object to the helper resource with
/// unique id `uid`; it does not block the owner's deletion.
pub fn owner_reference(uid: String) -> (r: OwnerReference)
    ensures
        owner_ref_for(r, uid@),
{
    OwnerReference {
        api_version: String::from_str("v1"),
        kind: String::from_str("WebhookHelper"),
        name: String::from_str("webhook-helper.io"),
        uid,
        block_owner_deletion: false,
    }
}

} // verus!
