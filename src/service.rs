//! The service stage: a Service in front of the managed workload.
use vstd::prelude::*;
use vstd::string::StringExecFns;
use crate::crd::{DeploymentType, WebhookHelper, workload_name};
use crate::error::{Error, ErrorView};
use crate::objects::{
    Labels, MANAGED_BY_KEY, MANAGED_BY_VALUE, ObjectMeta, Service, ServicePort, ServiceSpec,
    labels_view, name_any, opt_view,
};
use crate::operation::{ObjectKind, ObjectRef, ObjectRefView, Operation};

verus! {

/// The selector of the service for workload `name`.
pub open spec fn service_selector(name: Seq<char>) -> Seq<(Seq<char>, Seq<char>)> {
    seq![("app"@, name), (MANAGED_BY_KEY@, MANAGED_BY_VALUE@)]
}

/// `s` is the service for workload `name` in namespace `ns` on port `port`: it
/// takes the workload's name, selects it with the managed-by label, and exposes
/// one TCP port.
pub open spec fn service_for(s: Service, name: Seq<char>, ns: Seq<char>, port: i32) -> bool {
    &&& opt_view(s.metadata.name) == Some(name)
    &&& opt_view(s.metadata.namespace) == Some(ns)
    &&& s.metadata.generate_name is None
    &&& s.metadata.uid is None
    &&& s.metadata.labels is None
    &&& s.metadata.finalizers is None
    &&& s.metadata.deletion_timestamp is None
    &&& s.spec is Some
    &&& s.spec->0.selector is Some
    &&& labels_view(s.spec->0.selector->0@) == service_selector(name)
    &&& s.spec->0.ports is Some
    &&& s.spec->0.ports->0@.len() == 1
    &&& opt_view(s.spec->0.ports->0@[0].protocol) == Some("TCP"@)
    &&& s.spec->0.ports->0@[0].port == port
}

pub open spec fn unknown_workload_text() -> Seq<char> {
    "Deployment is not known"@
}

/// The service stage of one helper resource.
#[derive(Debug)]
pub struct ServiceStage {
    pub operation: Operation,
    pub namespace: String,
    pub listening_port: i32,
    pub deployment: Option<DeploymentType>,
    pub service: Option<Service>,
}

impl ServiceStage {
    /// The service stage for `webhook`, in front of `deployment`.
    pub fn new(operation: Operation, webhook: &WebhookHelper, deployment: Option<DeploymentType>) -> (r:
        ServiceStage)
        ensures
            r.operation == operation,
            r.namespace@ == webhook.spec.namespace@,
            r.listening_port == webhook.spec.listening_port,
            r.deployment == deployment,
            r.service is None,
    {
        ServiceStage {
            operation,
            namespace: webhook.spec.namespace.clone(),
            listening_port: webhook.spec.listening_port,
            deployment,
            service: None,
        }
    }

    /// Builds the service to create in front of the stage's workload.
    pub fn create_service(&self) -> (r: Result<Service, Error>)
        ensures
            match self.deployment {
                None => r is Err && r->Err_0@ == ErrorView::UnknownOperation(
                    unknown_workload_text(),
                ),
                Some(w) => r is Ok && service_for(
                    r->Ok_0,
                    workload_name(w),
                    self.namespace@,
                    self.listening_port,
                ),
            },
    {
        let name = match &self.deployment {
            None => {
                return Err(Error::UnknownOperation(String::from_str("Deployment is not known")));
            },
            Some(w) => w.name(),
        };
        let mut selector: Labels = Vec::new();
        selector.push((String::from_str("app"), name.clone()));
        selector.push((String::from_str(MANAGED_BY_KEY), String::from_str(MANAGED_BY_VALUE)));
        assert(labels_view(selector@) =~= service_selector(name@));
        let mut ports: Vec<ServicePort> = Vec::new();
        ports.push(ServicePort { protocol: Some(String::from_str("TCP")), port: self.listening_port });
        let mut metadata = ObjectMeta::empty();
        metadata.name = Some(name);
        metadata.namespace = Some(self.namespace.clone());
        Ok(
            Service {
                metadata,
                spec: Some(ServiceSpec { selector: Some(selector), ports: Some(ports) }),
            },
        )
    }

    /// Records `created`, the service the store created, as this stage's.
    pub fn set_service(&mut self, created: Service)
        ensures
            final(self).service == Some(created),
            final(self).operation == old(self).operation,
            final(self).namespace == old(self).namespace,
            final(self).listening_port == old(self).listening_port,
            final(self).deployment == old(self).deployment,
    {
        self.service = Some(created);
    }

    /// The service this stage holds, if any.
    pub fn get_service(&self) -> (r: &Option<Service>)
        ensures
            *r == self.service,
    {
        &self.service
    }

    /// The object to remove when this stage is torn down; nothing when the
    /// stage holds no service.
    pub fn delete(&self) -> (r: Option<ObjectRef>)
        ensures
            match self.service {
                None => r is None,
                Some(s) => r is Some && r->0@ == (ObjectRefView {
                    kind: ObjectKind::Service,
                    name: name_any(s.metadata),
                    namespace: Some(self.namespace@),
                }),
            },
    {
        match &self.service {
            None => None,
            Some(s) => Some(
                ObjectRef {
                    kind: ObjectKind::Service,
                    name: s.metadata.name_any(),
                    namespace: Some(self.namespace.clone()),
                },
            ),
        }
    }
}

} // verus!
