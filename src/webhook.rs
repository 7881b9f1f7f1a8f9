//! The webhook stage: the admission-webhook configuration that points the
//! platform at the managed service.
use vstd::prelude::*;
use vstd::string::StringExecFns;
use crate::crd::{WebhookHelper, WebhookType, webhook_name};
use crate::error::{Error, ErrorView};
use crate::objects::{
    MANAGED_BY_KEY, MANAGED_BY_VALUE, ObjectMeta, Service, ServiceReference, Webhook,
    WebhookConfiguration, copy_opt, mark_managed, meta_labels, name_any, opt_view, with_label,
};
use crate::operation::{ObjectKind, ObjectRef, ObjectRefView, Operation};

verus! {

/// The helper's webhook document, read as a mutating webhook, or else as a
/// validating one.
#[derive(Debug)]
pub enum WebhookDocument {
    Mutating(Webhook),
    Validating(Webhook),
}

pub open spec fn document_entry(d: WebhookDocument) -> Webhook {
    match d {
        WebhookDocument::Mutating(w) => w,
        WebhookDocument::Validating(w) => w,
    }
}

/// The configuration behind a [`WebhookType`].
pub open spec fn configuration(w: WebhookType) -> WebhookConfiguration {
    match w {
        WebhookType::Mutating(c) => c,
        WebhookType::Validating(c) => c,
    }
}

/// `w` is the configuration built from document `d` for service `service` in
/// namespace `ns`: of the document's kind, named after its webhook, marked as
/// managed, and holding that one webhook, sent to the service on `port` and
/// `path`.
pub open spec fn webhook_for(
    w: WebhookType,
    d: WebhookDocument,
    service: Seq<char>,
    ns: Seq<char>,
    path: Option<Seq<char>>,
    port: i32,
) -> bool {
    let c = configuration(w);
    let entry = document_entry(d);
    &&& (w is Mutating <==> d is Mutating)
    &&& opt_view(c.metadata.name) == Some(entry.name@)
    &&& c.metadata.namespace is None
    &&& c.metadata.generate_name is None
    &&& c.metadata.uid is None
    &&& c.metadata.finalizers is None
    &&& c.metadata.deletion_timestamp is None
    &&& c.metadata.labels is Some
    &&& meta_labels(c.metadata) == with_label(Seq::empty(), MANAGED_BY_KEY@, MANAGED_BY_VALUE@)
    &&& c.webhooks@.len() == 1
    &&& c.webhooks@[0].name@ == entry.name@
    &&& c.webhooks@[0].service is Some
    &&& c.webhooks@[0].service->0.namespace@ == ns
    &&& c.webhooks@[0].service->0.name@ == service
    &&& opt_view(c.webhooks@[0].service->0.path) == path
    &&& c.webhooks@[0].service->0.port == Some(port)
}

pub open spec fn unknown_service_text() -> Seq<char> {
    "Service is not known"@
}

pub open spec fn invalid_webhook_text() -> Seq<char> {
    "Invalid webhook spec"@
}

/// The webhook stage of one helper resource.
#[derive(Debug)]
pub struct WebhookStage {
    pub operation: Operation,
    pub namespace: String,
    pub path: Option<String>,
    pub listening_port: i32,
    pub service: Option<Service>,
    pub webhook: Option<WebhookType>,
}

impl WebhookStage {
    /// The webhook stage for `webhook`, sending requests to `service`.
    pub fn new(operation: Operation, webhook: &WebhookHelper, service: Option<Service>) -> (r:
        WebhookStage)
        ensures
            r.operation == operation,
            r.namespace@ == webhook.spec.namespace@,
            opt_view(r.path) == opt_view(webhook.spec.path),
            r.listening_port == webhook.spec.listening_port,
            r.service == service,
            r.webhook is None,
    {
        WebhookStage {
            operation,
            namespace: webhook.spec.namespace.clone(),
            path: copy_opt(&webhook.spec.path),
            listening_port: webhook.spec.listening_port,
            service,
            webhook: None,
        }
    }

    /// Builds the configuration to create from `decoded`, the helper's webhook
    /// document (`None` when it reads as neither kind).
    pub fn create_webhook(&self, decoded: Option<WebhookDocument>) -> (r: Result<WebhookType, Error>)
        ensures
            match (self.service, decoded) {
                (None, _) => r is Err && r->Err_0@ == ErrorView::UnknownOperation(
                    unknown_service_text(),
                ),
                (Some(_), None) => r is Err && r->Err_0@ == ErrorView::UnableToCreateObject(
                    invalid_webhook_text(),
                ),
                (Some(s), Some(d)) => r is Ok && webhook_for(
                    r->Ok_0,
                    d,
                    name_any(s.metadata),
                    self.namespace@,
                    opt_view(self.path),
                    self.listening_port,
                ),
            },
    {
        let service_name = match &self.service {
            None => {
                return Err(Error::UnknownOperation(String::from_str("Service is not known")));
            },
            Some(s) => s.metadata.name_any(),
        };
        let (mutating, entry) = match decoded {
            None => {
                return Err(Error::UnableToCreateObject(String::from_str("Invalid webhook spec")));
            },
            Some(WebhookDocument::Mutating(w)) => (true, w),
            Some(WebhookDocument::Validating(w)) => (false, w),
        };
        let target = ServiceReference {
            namespace: self.namespace.clone(),
            name: service_name,
            path: copy_opt(&self.path),
            port: Some(self.listening_port),
        };
        let mut metadata = ObjectMeta::empty();
        metadata.name = Some(entry.name.clone());
        mark_managed(&mut metadata);
        let mut webhooks: Vec<Webhook> = Vec::new();
        webhooks.push(Webhook { name: entry.name, service: Some(target) });
        let config = WebhookConfiguration { metadata, webhooks };
        if mutating {
            Ok(WebhookType::Mutating(config))
        } else {
            Ok(WebhookType::Validating(config))
        }
    }

    /// Records `created`, the configuration the store created, as this stage's.
    pub fn set_webhook(&mut self, created: WebhookType)
        ensures
            final(self).webhook == Some(created),
            final(self).operation == old(self).operation,
            final(self).namespace == old(self).namespace,
            final(self).path == old(self).path,
            final(self).listening_port == old(self).listening_port,
            final(self).service == old(self).service,
    {
        self.webhook = Some(created);
    }

    /// The configuration this stage holds, if any.
    pub fn get_webhook(&self) -> (r: &Option<WebhookType>)
        ensures
            *r == self.webhook,
    {
        &self.webhook
    }

    /// The object to remove when this stage is torn down; nothing when the
    /// stage holds no configuration.
    pub fn delete(&self) -> (r: Option<ObjectRef>)
        ensures
            match self.webhook {
                None => r is None,
                Some(w) => r is Some && r->0@ == (ObjectRefView {
                    kind: if w is Mutating {
                        ObjectKind::MutatingWebhookConfiguration
                    } else {
                        ObjectKind::ValidatingWebhookConfiguration
                    },
                    name: webhook_name(w),
                    namespace: None,
                }),
            },
    {
        match &self.webhook {
            None => None,
            Some(w) => Some(
                ObjectRef {
                    kind: match w {
                        WebhookType::Mutating(_) => ObjectKind::MutatingWebhookConfiguration,
                        WebhookType::Validating(_) => ObjectKind::ValidatingWebhookConfiguration,
                    },
                    name: w.name(),
                    namespace: None,
                },
            ),
        }
    }
}

} // verus!
