//! The interface of the Hypervisor Framework, as plain data.
//!
//! The framework's functions themselves are not declared here: this crate never calls them.
//! It describes each call as a [`BackendCall`](crate::BackendCall) and takes the framework's
//! answer as an argument.

pub mod types;
