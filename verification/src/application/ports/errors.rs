use vstd::prelude::*;
use crate::text::new_v7_id;

verus! {

/// A failure of the infrastructure behind a repository.
#[derive(Clone, Debug)]
pub enum InfrastructureError {
    /// A temporary failure; the operation may succeed later.
    Transient { error_id: u128, reason: String, retry_after_millis: Option<u64> },
    /// An unexpected failure, identified by `error_id` in the logs.
    InternalError { error_id: u128 },
}

impl InfrastructureError {
    pub fn new_internal() -> (e: Self)
        ensures
            e matches InfrastructureError::InternalError { error_id } && (error_id >> 76u128) & 0xfu128
                == 7u128,
    {
        InfrastructureError::InternalError { error_id: new_v7_id() }
    }

    pub fn error_id(&self) -> (id: u128)
        ensures
            id == (match self {
                InfrastructureError::InternalError { error_id } => *error_id,
                InfrastructureError::Transient { error_id, .. } => *error_id,
            }),
    {
        match self {
            InfrastructureError::InternalError { error_id } => *error_id,
            InfrastructureError::Transient { error_id, .. } => *error_id,
        }
    }
}

/// A failure of a repository that several services share.
#[derive(Clone, Debug)]
pub enum CommonRepositoryError {
    /// Temporary infrastructure failure
    Transient { error_id: u128, reason: String, retry_after_millis: Option<u64> },
    /// An unexpected internal error, identified by `error_id`
    InternalError { error_id: u128 },
}

impl CommonRepositoryError {
    pub fn new_internal() -> (e: Self)
        ensures
            e matches CommonRepositoryError::InternalError { error_id } && (error_id >> 76u128) & 0xfu128
                == 7u128,
    {
        CommonRepositoryError::InternalError { error_id: Self::gen_error_id() }
    }

    /// Builds an internal error, as a transient one carries a reason that
    /// this constructor is not given.
    pub fn new_transient() -> (e: Self)
        ensures
            e matches CommonRepositoryError::InternalError { error_id } && (error_id >> 76u128) & 0xfu128
                == 7u128,
    {
        CommonRepositoryError::InternalError { error_id: Self::gen_error_id() }
    }

    pub fn error_id(&self) -> (id: u128)
        ensures
            id == (match self {
                CommonRepositoryError::InternalError { error_id } => *error_id,
                CommonRepositoryError::Transient { error_id, .. } => *error_id,
            }),
    {
        match self {
            CommonRepositoryError::InternalError { error_id } => *error_id,
            CommonRepositoryError::Transient { error_id, .. } => *error_id,
        }
    }

    fn gen_error_id() -> (id: u128)
        ensures
            (id >> 76u128) & 0xfu128 == 7u128,
    {
        new_v7_id()
    }
}

} // verus!
