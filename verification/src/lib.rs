//! A small library for provisioning a short-lived SSH workload in a
//! Kubernetes cluster and exposing it locally as a SOCKS5 proxy.
//!
//! The library holds the verified core: configuration layering, the pod
//! manifest builder, workload naming, the readiness and deletion policies,
//! the shutdown coordination state machine, the proxy supervision model and
//! the tunnel relay model. The surrounding process (cluster API calls,
//! sockets, subprocess plumbing) drives these functions from outside.

pub mod config;
pub mod lifecycle;
pub mod logging;
pub mod manifest;
pub mod proxy;
pub mod shutdown;
pub mod text;
pub mod tunnel;
