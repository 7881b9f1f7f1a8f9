//! Verified core of the webhook-helper operator: the models of the objects it
//! manages, the container validator, the status ledger, the stage resolver, the
//! stage pipeline (certificate, workload, service, webhook configuration) and
//! the reconcile and admission decisions.

pub mod error;
pub mod objects;
pub mod validator;
pub mod crd;
pub mod status;
pub mod resolver;
pub mod operation;
pub mod certificate;
pub mod workload;
pub mod service;
pub mod webhook;
pub mod controller;
pub mod admission;
pub mod laws;
pub mod bootstrap;
