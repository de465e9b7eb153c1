use vstd::prelude::*;

verus! {

/// Every failure of this service is fatal: it is reported once and the
/// process ends with a non-zero status. Causes reported by the operating
/// system are carried as their text.
#[derive(Clone, Debug, PartialEq, Eq)]
pub enum Error {
    /// The termination signal handler could not be installed.
    HandlerError { cause: String },
    /// The secret file given explicitly could not be read.
    ReadFromFile { path: String, cause: String },
    /// Reading the secret from standard input failed.
    StdinError { cause: String },
    /// Writing the prompt to standard output failed.
    StdoutError { cause: String },
    /// Standard input ended before a line was entered.
    StdinAborted,
    /// The listener could not be bound to the configured address.
    BindError { addr: String, cause: String },
}

/// The human-readable report of an error.
pub open spec fn message_of(e: Error) -> Seq<char> {
    match e {
        Error::HandlerError { cause } => "Could not set SIGTERM handler: "@ + cause@,
        Error::ReadFromFile { path, cause } => "Could not read secret from file "@ + path@
            + ": "@ + cause@,
        Error::StdinError { cause } => "Stdin error: "@ + cause@,
        Error::StdoutError { cause } => "Stdout error: "@ + cause@,
        Error::StdinAborted => "Stdin aborted"@,
        Error::BindError { addr, cause } => "Could not listen on "@ + addr@ + ": "@ + cause@,
    }
}

/// The exit status of a process that stops on an error.
pub const FAILURE_STATUS: i32 = 1;

impl Error {
    /// The report printed on the error stream before the process exits.
    pub fn message(&self) -> (r: String)
        ensures
            r@ == message_of(*self),
    {
        match self {
            Error::HandlerError { cause } => {
                String::from_str("Could not set SIGTERM handler: ").concat(cause.as_str())
            },
            Error::ReadFromFile { path, cause } => {
                String::from_str("Could not read secret from file ").concat(path.as_str()).concat(
                    ": ",
                ).concat(cause.as_str())
            },
            Error::StdinError { cause } => String::from_str("Stdin error: ").concat(
                cause.as_str(),
            ),
            Error::StdoutError { cause } => String::from_str("Stdout error: ").concat(
                cause.as_str(),
            ),
            Error::StdinAborted => String::from_str("Stdin aborted"),
            Error::BindError { addr, cause } => {
                String::from_str("Could not listen on ").concat(addr.as_str()).concat(": ").concat(
                    cause.as_str(),
                )
            },
        }
    }

    /// The exit status that goes with any error.
    pub fn exit_status(&self) -> (r: i32)
        ensures
            r == FAILURE_STATUS,
            r != 0,
    {
        FAILURE_STATUS
    }
}

} // verus!
