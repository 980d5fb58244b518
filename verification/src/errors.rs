//! Why an entry point refuses.

use vstd::prelude::*;
use vstd::string::StringExecFns;

verus! {

/// The classes of failure.
#[derive(Clone, Copy, PartialEq, Eq, Debug, Structural)]
pub enum ErrorKind {
    /// The caller is not who the entry point is for.
    Authorization,
    /// The vault or the caller's account is in no state for the request.
    Precondition,
    /// The results handed to a resumed step are not what the step was wired for.
    Protocol,
    /// The remote service reported failure.
    Remote,
    /// The books would no longer add up.
    Numeric,
}

/// Every way in which an entry point fails. A failing entry point changes
/// nothing and asks for no call.
#[derive(Clone, Copy, PartialEq, Eq, Debug, Structural)]
pub enum VaultError {
    /// The caller is neither the owner, nor on the allow-list, nor the vault itself,
    /// as the entry point demands.
    NotAllowed,
    /// The depositor has nothing available to put in.
    NoBalance,
    /// More shares are asked for than the depositor holds.
    InsufficientShares,
    /// The vault is paused.
    Paused,
    /// A resumed step found another number of results than one.
    TooManyResults,
    /// The result of the previous call does not decode to the expected shape.
    MalformedResult,
    /// The previous call failed.
    RemoteCallFailed,
    /// The pool reports fewer shares than the ledger has given out.
    LedgerUnderflow,
    /// A credit would give out more shares than the pool has reported.
    LedgerOverflow,
}

impl VaultError {
    /// The class that the error belongs to.
    pub fn kind(&self) -> (kind: ErrorKind)
        ensures
            kind == self.spec_kind(),
    {
        match self {
            VaultError::NotAllowed => ErrorKind::Authorization,
            VaultError::NoBalance => ErrorKind::Precondition,
            VaultError::InsufficientShares => ErrorKind::Precondition,
            VaultError::Paused => ErrorKind::Precondition,
            VaultError::TooManyResults => ErrorKind::Protocol,
            VaultError::MalformedResult => ErrorKind::Protocol,
            VaultError::RemoteCallFailed => ErrorKind::Remote,
            VaultError::LedgerUnderflow => ErrorKind::Numeric,
            VaultError::LedgerOverflow => ErrorKind::Numeric,
        }
    }

    /// The class of each error.
    pub open spec fn spec_kind(&self) -> ErrorKind {
        match *self {
            VaultError::NotAllowed => ErrorKind::Authorization,
            VaultError::NoBalance | VaultError::InsufficientShares | VaultError::Paused =>
                ErrorKind::Precondition,
            VaultError::TooManyResults | VaultError::MalformedResult => ErrorKind::Protocol,
            VaultError::RemoteCallFailed => ErrorKind::Remote,
            VaultError::LedgerUnderflow | VaultError::LedgerOverflow => ErrorKind::Numeric,
        }
    }

    /// The text with which a host reports the error.
    pub open spec fn spec_message(&self) -> Seq<char> {
        match *self {
            VaultError::NotAllowed => "ERR_NOT_ALLOWED"@,
            VaultError::NoBalance => "ERROR 1: User doesnt have balance."@,
            VaultError::InsufficientShares => "ERR_INSUFFICIENT_SHARES"@,
            VaultError::Paused => "E51: contract paused"@,
            VaultError::TooManyResults => "ERR_TOO_MANY_RESULTS"@,
            VaultError::MalformedResult => "ERR_WRONG_VAL_RECEIVED"@,
            VaultError::RemoteCallFailed => "ERR_CALL_FAILED"@,
            VaultError::LedgerUnderflow => "ERR_LEDGER_UNDERFLOW"@,
            VaultError::LedgerOverflow => "ERR_LEDGER_OVERFLOW"@,
        }
    }

    /// The text with which a host reports the error.
    pub fn message(&self) -> (text: String)
        ensures
            text@ == self.spec_message(),
    {
        match self {
            VaultError::NotAllowed => String::from_str("ERR_NOT_ALLOWED"),
            VaultError::NoBalance => String::from_str("ERROR 1: User doesnt have balance."),
            VaultError::InsufficientShares => String::from_str("ERR_INSUFFICIENT_SHARES"),
            VaultError::Paused => String::from_str("E51: contract paused"),
            VaultError::TooManyResults => String::from_str("ERR_TOO_MANY_RESULTS"),
            VaultError::MalformedResult => String::from_str("ERR_WRONG_VAL_RECEIVED"),
            VaultError::RemoteCallFailed => String::from_str("ERR_CALL_FAILED"),
            VaultError::LedgerUnderflow => String::from_str("ERR_LEDGER_UNDERFLOW"),
            VaultError::LedgerOverflow => String::from_str("ERR_LEDGER_OVERFLOW"),
        }
    }
}

} // verus!
