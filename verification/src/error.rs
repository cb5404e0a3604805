//! What can go wrong while a settings file is located, read or written.

use vstd::prelude::*;
use vstd::string::*;

verus! {

/// The host's reason where `outcome` reports a failure.
pub open spec fn failure(outcome: Result<(), String>) -> Option<Seq<char>> {
    match outcome {
        Ok(_) => None,
        Err(reason) => Some(reason@),
    }
}

/// Why a settings location could not be resolved.
#[derive(Debug, Clone, PartialEq, Eq)]
pub enum ConfigError {
    /// The host names no per-user configuration directory.
    ConfigDirUnavailable,
    /// The default directory could not be created; the text is the host's reason.
    IOFailure(String),
}

/// The mathematical value of a `ConfigError`.
pub enum ConfigFault {
    ConfigDirUnavailable,
    IOFailure(Seq<char>),
}

impl View for ConfigError {
    type V = ConfigFault;

    open spec fn view(&self) -> ConfigFault {
        match self {
            ConfigError::ConfigDirUnavailable => ConfigFault::ConfigDirUnavailable,
            ConfigError::IOFailure(reason) => ConfigFault::IOFailure(reason@),
        }
    }
}

/// Why a load, a save or an override of the settings location failed.
#[derive(Debug, Clone, PartialEq, Eq)]
pub enum StoreError {
    /// The host names no per-user configuration directory.
    ConfigDirUnavailable,
    /// A file or directory could not be created, read or written.
    IOFailure(String),
    /// The settings file exists but does not hold a settings document.
    DecodeFailure(String),
}

/// The mathematical value of a `StoreError`.
pub enum StoreFault {
    ConfigDirUnavailable,
    IOFailure(Seq<char>),
    DecodeFailure(Seq<char>),
}

impl View for StoreError {
    type V = StoreFault;

    open spec fn view(&self) -> StoreFault {
        match self {
            StoreError::ConfigDirUnavailable => StoreFault::ConfigDirUnavailable,
            StoreError::IOFailure(reason) => StoreFault::IOFailure(reason@),
            StoreError::DecodeFailure(reason) => StoreFault::DecodeFailure(reason@),
        }
    }
}

/// The store's name for a resolver fault: the same kind with the same reason.
pub open spec fn store_fault(fault: ConfigFault) -> StoreFault {
    match fault {
        ConfigFault::ConfigDirUnavailable => StoreFault::ConfigDirUnavailable,
        ConfigFault::IOFailure(reason) => StoreFault::IOFailure(reason),
    }
}

/// The text shown for a store fault: a fixed sentence where the host has no
/// configuration directory, else the reason as the host gave it.
pub open spec fn fault_message(fault: StoreFault) -> Seq<char> {
    match fault {
        StoreFault::ConfigDirUnavailable => "No config dir"@,
        StoreFault::IOFailure(reason) => reason,
        StoreFault::DecodeFailure(reason) => reason,
    }
}

impl ConfigError {
    /// The text shown to the user for this error.
    pub fn message(&self) -> (text: String)
        ensures
            text@ == fault_message(store_fault(self@)),
    {
        match self {
            ConfigError::ConfigDirUnavailable => String::from_str("No config dir"),
            ConfigError::IOFailure(reason) => reason.clone(),
        }
    }
}

impl StoreError {
    /// Carries a resolver error over into the store's error type.
    pub fn from_config(error: ConfigError) -> (carried: StoreError)
        ensures
            carried@ == store_fault(error@),
    {
        match error {
            ConfigError::ConfigDirUnavailable => StoreError::ConfigDirUnavailable,
            ConfigError::IOFailure(reason) => StoreError::IOFailure(reason),
        }
    }

    /// The text shown to the user for this error.
    pub fn message(&self) -> (text: String)
        ensures
            text@ == fault_message(self@),
    {
        match self {
            StoreError::ConfigDirUnavailable => String::from_str("No config dir"),
            StoreError::IOFailure(reason) => reason.clone(),
            StoreError::DecodeFailure(reason) => reason.clone(),
        }
    }
}

} // verus!
