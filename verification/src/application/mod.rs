pub mod ports;
pub mod rbac;
pub mod retries;
pub mod services;
pub mod workflows;
