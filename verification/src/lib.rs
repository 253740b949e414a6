//! Application layer of the model and dataset hub: request context and
//! tenancy, retry policies, and the decisions taken by each application
//! service around its repositories.

pub mod application;
pub mod bootstrap;
pub mod domain;
pub mod shared_kernel;
pub mod text;
