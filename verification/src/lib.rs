//! A verified model of a one-shot repository-deployment run: clone a local
//! project as a bare repository, copy it to a server, remove the local bare
//! copy, then register the new remote in a local working directory and push.
//!
//! The library decides; a thin executable shell around it acts. The shell
//! parses arguments into a [`request::DeploymentRequest`], then drives the
//! [`orchestrator`] state machine: it asks for the next [`orchestrator::Action`],
//! performs it (spawning the external tool or removing the directory), and
//! reports back whether it succeeded. Every decision — which command runs,
//! with which arguments, in which order, and when the run stops — is made
//! here and verified.

pub mod command;
pub mod orchestrator;
pub mod request;
