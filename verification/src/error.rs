use vstd::prelude::*;

verus! {

/// The error taxonomy of the whole system. Variants carry no payload here:
/// the unverified edge wraps the underlying cause and maps it to the variant
/// that names its source.
#[derive(Clone, Copy, Debug, PartialEq, Eq, Structural)]
pub enum Error {
    /// A required environment variable is missing at startup.
    EnvVar,
    /// The configuration file is missing or malformed.
    Config,
    /// A remote platform call (create, delete, move, fetch, send) failed.
    Serenity,
    /// A storage read or write failed; a failed transaction leaves no trace.
    Sqlx,
    /// Applying storage migrations failed at startup.
    Migration,
    /// Setting up or starting the report scheduler failed at startup.
    Scheduler,
    /// Installing the global log subscriber failed at startup.
    SetGlobalDefault,
}

impl Error {
    /// A short stable description of the error source.
    pub fn describe(&self) -> (s: &'static str)
        ensures
            match *self {
                Error::EnvVar => s@ == "missing environment variable"@,
                Error::Config => s@ == "failed to load the config"@,
                Error::Serenity => s@ == "remote platform call failed"@,
                Error::Sqlx => s@ == "database error"@,
                Error::Migration => s@ == "migration failed"@,
                Error::Scheduler => s@ == "scheduler error"@,
                Error::SetGlobalDefault => s@ == "failed to set global default tracing subscriber"@,
            },
    {
        match self {
            Error::EnvVar => "missing environment variable",
            Error::Config => "failed to load the config",
            Error::Serenity => "remote platform call failed",
            Error::Sqlx => "database error",
            Error::Migration => "migration failed",
            Error::Scheduler => "scheduler error",
            Error::SetGlobalDefault => "failed to set global default tracing subscriber",
        }
    }
}

} // verus!
