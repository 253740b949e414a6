pub mod agent;
pub mod agent_record;
pub mod artifacts;
pub mod cipher;
pub mod commands;
pub mod counts;
pub mod dataset;
pub mod deployment;
pub mod deployment_argument;
pub mod deployment_strategy;
pub mod endpoint;
pub mod errors;
pub mod events;
pub mod hpc_cluster;
pub mod identity;
pub mod model;
pub mod model_metadata;
pub mod principal;
