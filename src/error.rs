use vstd::prelude::*;
use vstd::string::StringExecFns;

verus! {

/// Errors raised by the reconciliation and admission logic.
#[derive(Debug, Clone)]
pub enum Error {
    /// A call to the remote object store failed.
    WebhookHelperCreationFailed(String),
    /// The helper's spec is malformed or cannot be satisfied.
    UnableToCreateObject(String),
    /// A document could not be encoded or decoded.
    UnableToSerializeObject(String),
    /// The certificate signing request was not approved.
    UnableToApproveCertificate(String),
    /// The certificate material could not be generated.
    UnableToCreateCertificate(String),
    /// A persisted stage or a requested operation is not recognised.
    UnknownOperation(String),
    /// The workload has not become ready yet.
    ResourceNotReady,
    /// No container could be picked for the certificate volume.
    UnableToDetermineContainerName,
}

/// The mathematical value of an [`Error`].
pub enum ErrorView {
    WebhookHelperCreationFailed(Seq<char>),
    UnableToCreateObject(Seq<char>),
    UnableToSerializeObject(Seq<char>),
    UnableToApproveCertificate(Seq<char>),
    UnableToCreateCertificate(Seq<char>),
    UnknownOperation(Seq<char>),
    ResourceNotReady,
    UnableToDetermineContainerName,
}

impl View for Error {
    type V = ErrorView;

    open spec fn view(&self) -> ErrorView {
        match self {
            Error::WebhookHelperCreationFailed(s) => ErrorView::WebhookHelperCreationFailed(s@),
            Error::UnableToCreateObject(s) => ErrorView::UnableToCreateObject(s@),
            Error::UnableToSerializeObject(s) => ErrorView::UnableToSerializeObject(s@),
            Error::UnableToApproveCertificate(s) => ErrorView::UnableToApproveCertificate(s@),
            Error::UnableToCreateCertificate(s) => ErrorView::UnableToCreateCertificate(s@),
            Error::UnknownOperation(s) => ErrorView::UnknownOperation(s@),
            Error::ResourceNotReady => ErrorView::ResourceNotReady,
            Error::UnableToDetermineContainerName => ErrorView::UnableToDetermineContainerName,
        }
    }
}

/// The human-readable text of an error.
pub open spec fn error_text(e: ErrorView) -> Seq<char> {
    match e {
        ErrorView::WebhookHelperCreationFailed(s) => "Failed to create Webhook: "@ + s,
        ErrorView::UnableToCreateObject(s) => "UnableToCreateObject: "@ + s,
        ErrorView::UnableToSerializeObject(s) => "UnableToSerializeObject: "@ + s,
        ErrorView::UnableToApproveCertificate(s) => "UnableToApproveCertificate: "@ + s,
        ErrorView::UnableToCreateCertificate(s) => "UnableToCreateCertificate: "@ + s,
        ErrorView::UnknownOperation(s) => "UnknownOperation: "@ + s,
        ErrorView::ResourceNotReady => "ResourceNotReady"@,
        ErrorView::UnableToDetermineContainerName => "UnableToDetermineContainerName"@,
    }
}

/// The view of a `Result` whose success carries nothing.
pub open spec fn unit_result_view(r: Result<(), Error>) -> Result<(), ErrorView> {
    match r {
        Ok(()) => Ok(()),
        Err(e) => Err(e@),
    }
}

/// `prefix` followed by `s`.
pub(crate) fn prefixed(prefix: &str, s: &String) -> (r: String)
    ensures
        r@ == prefix@ + s@,
{
    let mut r = String::from_str(prefix);
    r.append(s.as_str());
    r
}

impl Error {
    /// The human-readable text of the error, as shown in admission denials and logs.
    pub fn message(&self) -> (r: String)
        ensures
            r@ == error_text(self@),
    {
        match self {
            Error::WebhookHelperCreationFailed(s) => prefixed("Failed to create Webhook: ", s),
            Error::UnableToCreateObject(s) => prefixed("UnableToCreateObject: ", s),
            Error::UnableToSerializeObject(s) => prefixed("UnableToSerializeObject: ", s),
            Error::UnableToApproveCertificate(s) => prefixed("UnableToApproveCertificate: ", s),
            Error::UnableToCreateCertificate(s) => prefixed("UnableToCreateCertificate: ", s),
            Error::UnknownOperation(s) => prefixed("UnknownOperation: ", s),
            Error::ResourceNotReady => String::from_str("ResourceNotReady"),
            Error::UnableToDetermineContainerName => String::from_str(
                "UnableToDetermineContainerName",
            ),
        }
    }
}

} // verus!
