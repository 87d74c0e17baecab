//! A scale-to-zero TCP ingress proxy for one backend workload: the decisions
//! it takes, stated and proved.
//!
//! The library holds the parts of the proxy that decide: the activation
//! controller's state machine, the connection toggle's level, the acceptor's
//! choice for each connection, the idle watcher's timing, the routing entry
//! it owns and the label patches that attach and detach it, the scaler's
//! readiness test and the validated configuration. The program around it
//! performs the network and control-plane work that those decisions ask for.
pub mod acceptor;
pub mod clock;
pub mod controller;
pub mod scaler;
pub mod settings;
pub mod slicer;
pub mod toggle;
