//! The certificate stage: a self-signed TLS certificate, kept in a secret that
//! the workload mounts.
use vstd::prelude::*;
use vstd::string::StringExecFns;
use vstd::utf8::is_ascii_chars;
use crate::crd::WebhookHelper;
use crate::error::{Error, ErrorView};
use crate::objects::{
    MANAGED_BY_KEY, MANAGED_BY_VALUE, ObjectMeta, Secret, mark_managed, meta_labels,
    name_any, with_label,
};
use crate::operation::{ObjectKind, ObjectRef, ObjectRefView, Operation};

verus! {

#[verifier::external_type_specification]
#[verifier::external_body]
pub struct ExRcgenError(rcgen::RcgenError);

/// Relies on `rcgen::generate_simple_self_signed`, which makes a fresh local
/// key pair and a self-signed certificate for `host`, on
/// `Certificate::serialize_pem`, which encodes the certificate as PEM (its DER
/// writer asserts that a DNS name is ASCII, hence the `requires`), and on
/// `Certificate::serialize_private_key_pem`, which encodes the key pair as PEM
/// (it panics only for a remote key pair). The key is random, so nothing is
/// promised of the two PEM texts.
#[verifier::external_body]
fn self_signed_pem(host: &String) -> (r: Result<(String, String), rcgen::RcgenError>)
    requires
        is_ascii_chars(host@),
{
    let cert = rcgen::generate_simple_self_signed(vec![host.clone()])?;
    let crt = cert.serialize_pem()?;
    Ok((crt, cert.serialize_private_key_pem()))
}

/// The secret type of a TLS key pair.
pub const TLS_SECRET_TYPE: &'static str = "kubernetes.io/tls";

/// Entry of the certificate in the secret.
pub const TLS_CERTIFICATE_KEY: &'static str = "tls.crt";

/// Entry of the private key in the secret.
pub const TLS_PRIVATE_KEY_KEY: &'static str = "tls.key";

/// The name of the certificate secret of helper `helper`.
pub open spec fn secret_name_of(helper: Seq<char>) -> Seq<char> {
    helper + "-tls"@
}

/// The host name the certificate is issued for: the helper's name as a
/// service of its namespace.
pub open spec fn host_of(helper: Seq<char>, ns: Seq<char>) -> Seq<char> {
    helper + "."@ + ns + ".svc"@
}

pub open spec fn not_ascii_text() -> Seq<char> {
    "Host name is not ASCII"@
}

/// `s` is the certificate secret of helper `helper` in namespace `ns`: named
/// after the helper, marked as managed, of the TLS type, and holding the
/// certificate and then the key.
pub open spec fn secret_for(s: Secret, helper: Seq<char>, ns: Seq<char>) -> bool {
    &&& s.metadata.name is Some
    &&& s.metadata.name->0@ == secret_name_of(helper)
    &&& s.metadata.namespace is Some
    &&& s.metadata.namespace->0@ == ns
    &&& s.metadata.labels is Some
    &&& meta_labels(s.metadata) == with_label(Seq::empty(), MANAGED_BY_KEY@, MANAGED_BY_VALUE@)
    &&& s.type_ is Some
    &&& s.type_->0@ == TLS_SECRET_TYPE@
    &&& s.string_data is Some
    &&& s.string_data->0@.len() == 2
    &&& s.string_data->0@[0].0@ == TLS_CERTIFICATE_KEY@
    &&& s.string_data->0@[1].0@ == TLS_PRIVATE_KEY_KEY@
}

/// The certificate stage of one helper resource.
#[derive(Debug)]
pub struct CertificateStage {
    pub operation: Operation,
    /// The helper resource's name.
    pub name: String,
    pub namespace: String,
    pub secret: Option<Secret>,
}

impl CertificateStage {
    /// The certificate stage for `webhook`.
    pub fn new(operation: Operation, webhook: &WebhookHelper) -> (r: CertificateStage)
        ensures
            r.operation == operation,
            r.name@ == name_any(webhook.metadata),
            r.namespace@ == webhook.spec.namespace@,
            r.secret is None,
    {
        CertificateStage {
            operation,
            name: webhook.metadata.name_any(),
            namespace: webhook.spec.namespace.clone(),
            secret: None,
        }
    }

    /// The name of the secret this stage creates.
    pub fn secret_name(&self) -> (r: String)
        ensures
            r@ == secret_name_of(self.name@),
    {
        let mut r = self.name.clone();
        r.append("-tls");
        r
    }

    /// The host name the certificate is issued for.
    pub fn host_name(&self) -> (r: String)
        ensures
            r@ == host_of(self.name@, self.namespace@),
    {
        let mut r = self.name.clone();
        r.append(".");
        r.append(self.namespace.as_str());
        r.append(".svc");
        r
    }

    /// The certificate secret of this stage, holding certificate `crt` and
    /// private key `key`.
    pub fn tls_secret(&self, crt: String, key: String) -> (r: Secret)
        ensures
            secret_for(r, self.name@, self.namespace@),
            r.string_data->0@[0].1@ == crt@,
            r.string_data->0@[1].1@ == key@,
    {
        let mut data: Vec<(String, String)> = Vec::new();
        data.push((String::from_str(TLS_CERTIFICATE_KEY), crt));
        data.push((String::from_str(TLS_PRIVATE_KEY_KEY), key));
        let mut metadata = ObjectMeta::empty();
        metadata.name = Some(self.secret_name());
        metadata.namespace = Some(self.namespace.clone());
        mark_managed(&mut metadata);
        Secret { metadata, type_: Some(String::from_str(TLS_SECRET_TYPE)), string_data: Some(data) }
    }

    /// Generates a self-signed certificate for the stage's host name and builds
    /// the secret that holds it. A host name with a character outside ASCII
    /// cannot be written into a certificate and is refused; otherwise the
    /// certificate library decides, and its failure is reported.
    pub fn create_certificate(&self) -> (r: Result<Secret, Error>)
        ensures
            !is_ascii_chars(host_of(self.name@, self.namespace@)) ==> r is Err && r->Err_0@
                == ErrorView::UnableToCreateCertificate(not_ascii_text()),
            r is Ok ==> secret_for(r->Ok_0, self.name@, self.namespace@),
            r is Err ==> r->Err_0 is UnableToCreateCertificate,
    {
        let host = self.host_name();
        if !host.as_str().is_ascii() {
            return Err(Error::UnableToCreateCertificate(String::from_str("Host name is not ASCII")));
        }
        match self_signed_pem(&host) {
            Ok((crt, key)) => Ok(self.tls_secret(crt, key)),
            Err(e) => Err(Error::UnableToCreateCertificate(e.to_string())),
        }
    }

    /// Records `secret`, the secret the store created, as this stage's.
    pub fn set_secret(&mut self, secret: Secret)
        ensures
            final(self).secret == Some(secret),
            final(self).operation == old(self).operation,
            final(self).name == old(self).name,
            final(self).namespace == old(self).namespace,
    {
        self.secret = Some(secret);
    }

    /// The secret this stage holds, if any.
    pub fn get_secret(&self) -> (r: &Option<Secret>)
        ensures
            *r == self.secret,
    {
        &self.secret
    }

    /// The object to remove when this stage is torn down; nothing when the
    /// stage holds no secret.
    pub fn delete(&self) -> (r: Option<ObjectRef>)
        ensures
            match self.secret {
                None => r is None,
                Some(s) => r is Some && r->0@ == (ObjectRefView {
                    kind: ObjectKind::Secret,
                    name: name_any(s.metadata),
                    namespace: Some(self.namespace@),
                }),
            },
    {
        match &self.secret {
            None => None,
            Some(s) => Some(
                ObjectRef {
                    kind: ObjectKind::Secret,
                    name: s.metadata.name_any(),
                    namespace: Some(self.namespace.clone()),
                },
            ),
        }
    }
}

} // verus!
