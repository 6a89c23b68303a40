use vstd::prelude::*;

verus! {

/// The I/O error of std, carried through unchanged.
#[verifier::external_type_specification]
#[verifier::external_body]
pub struct ExIoError(std::io::Error);

/// The error that `log` returns when a logger is already installed.
#[verifier::external_type_specification]
#[verifier::external_body]
pub struct ExSetLoggerError(log::SetLoggerError);

pub type MandalaResult<T> = Result<T, MandalaError>;

/// Errors of the client and server front ends.
#[derive(Debug)]
pub enum MandalaError {
    Io(std::io::Error),
    SetLoggger(log::SetLoggerError),
    ConfigError(ConfigError),
    Other,
}

/// Errors found while building a configuration.
#[derive(Debug, Clone, Copy, PartialEq, Eq, Structural)]
pub enum ConfigError {
    MissingServerAddr,
}

pub type GpuResult<T> = Result<T, GpuError>;

/// The failures of bringing up, using and tearing down a rendering context.
#[derive(Debug, Clone, Copy, PartialEq, Eq, Structural)]
pub enum GpuError {
    /// The windowing layer refused to create the window.
    PlatformWindowError,
    /// The window's native display or window handle is not valid yet.
    HandleUnavailable,
    /// The native instance could not be created.
    InstanceCreationError,
    /// The diagnostics messenger could not be registered.
    MessengerCreationError,
    /// The presentation surface could not be created.
    SurfaceCreationError,
    /// The instance exposes no physical device.
    NoDevicesFoundError,
    /// The context has been torn down.
    ContextDestroyed,
}

impl From<std::io::Error> for MandalaError {
    fn from(value: std::io::Error) -> (r: MandalaError)
        ensures
            r == MandalaError::Io(value),
    {
        MandalaError::Io(value)
    }
}

impl vstd::std_specs::convert::FromSpecImpl<std::io::Error> for MandalaError {
    open spec fn obeys_from_spec() -> bool {
        true
    }

    open spec fn from_spec(v: std::io::Error) -> MandalaError {
        MandalaError::Io(v)
    }
}

impl From<log::SetLoggerError> for MandalaError {
    fn from(value: log::SetLoggerError) -> (r: MandalaError)
        ensures
            r == MandalaError::SetLoggger(value),
    {
        MandalaError::SetLoggger(value)
    }
}

impl vstd::std_specs::convert::FromSpecImpl<log::SetLoggerError> for MandalaError {
    open spec fn obeys_from_spec() -> bool {
        true
    }

    open spec fn from_spec(v: log::SetLoggerError) -> MandalaError {
        MandalaError::SetLoggger(v)
    }
}

impl From<ConfigError> for MandalaError {
    fn from(value: ConfigError) -> (r: MandalaError)
        ensures
            r == MandalaError::ConfigError(value),
    {
        MandalaError::ConfigError(value)
    }
}

impl vstd::std_specs::convert::FromSpecImpl<ConfigError> for MandalaError {
    open spec fn obeys_from_spec() -> bool {
        true
    }

    open spec fn from_spec(v: ConfigError) -> MandalaError {
        MandalaError::ConfigError(v)
    }
}

} // verus!
