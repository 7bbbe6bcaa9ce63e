//! Session-scoped package provisioning and dual-runtime launch planning for an
//! editor extension that starts a language server.
//!
//! The host editor owns every privileged capability (probing `PATH`, querying
//! and installing packages, resolving its bundled JavaScript runtime, reporting
//! installation status). This library holds the decisions around those calls:
//! which runtime to use, what command line to launch, whether a package needs a
//! fresh install this session, and how an install failure is handled. The glue
//! that performs the host calls feeds their answers in as plain values.

pub mod error;
pub mod extension;
pub mod launch;
pub mod provision;
pub mod runtime;
