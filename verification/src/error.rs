//! Faults of the host, and the return codes that report the outcome of a
//! guest call.

pub mod ribosome_error;

use crate::error::ribosome_error::RibosomeErrorCode;
use vstd::prelude::*;

verus! {

/// What can go wrong on the host's side. The variants that carry a `String`
/// carry a description for people; nothing in this library reads it.
#[derive(Debug, PartialEq, Eq)]
pub enum HolochainError {
    /// A fault with nothing but a description.
    ErrorGeneric(String),
    /// The requested operation does not exist yet.
    NotImplemented,
    /// Writing to the log failed.
    LoggingError,
    /// No DNA is loaded.
    DnaMissing,
    /// The DNA is at fault.
    Dna(String),
    /// Reading or writing failed.
    IoError(String),
    /// A value could not be turned into text or back.
    SerializationError(String),
    /// A system entry was asked to do what only application entries can.
    InvalidOperationOnSysEntry,
    /// The caller lacks the capability that the call needs.
    CapabilityCheckFailed,
    /// A validation callback refused the data.
    ValidationFailed(String),
    /// The guest reported this error code.
    Ribosome(RibosomeErrorCode),
    /// The guest call failed with a description.
    RibosomeFailed(String),
    /// The configuration is at fault.
    ConfigError(String),
    /// The operation took too long.
    Timeout,
}

impl Clone for HolochainError {
    fn clone(&self) -> (copy: HolochainError)
        ensures
            copy == *self,
    {
        match self {
            HolochainError::ErrorGeneric(text) => HolochainError::ErrorGeneric(text.clone()),
            HolochainError::NotImplemented => HolochainError::NotImplemented,
            HolochainError::LoggingError => HolochainError::LoggingError,
            HolochainError::DnaMissing => HolochainError::DnaMissing,
            HolochainError::Dna(text) => HolochainError::Dna(text.clone()),
            HolochainError::IoError(text) => HolochainError::IoError(text.clone()),
            HolochainError::SerializationError(text) => HolochainError::SerializationError(
                text.clone(),
            ),
            HolochainError::InvalidOperationOnSysEntry => {
                HolochainError::InvalidOperationOnSysEntry
            },
            HolochainError::CapabilityCheckFailed => HolochainError::CapabilityCheckFailed,
            HolochainError::ValidationFailed(text) => HolochainError::ValidationFailed(
                text.clone(),
            ),
            HolochainError::Ribosome(code) => HolochainError::Ribosome(*code),
            HolochainError::RibosomeFailed(text) => HolochainError::RibosomeFailed(text.clone()),
            HolochainError::ConfigError(text) => HolochainError::ConfigError(text.clone()),
            HolochainError::Timeout => HolochainError::Timeout,
        }
    }
}

impl HolochainError {
    /// Holds of the generic fault whose description is `description`, and
    /// of no other value.
    pub open spec fn is_generic(self, description: Seq<char>) -> bool {
        self matches HolochainError::ErrorGeneric(text) && text@ == description
    }
}

} // verus!
