//! Status values of the engine and the errors of this crate.

use vstd::prelude::*;

verus! {

/// What the engine answers to a call that changes or rebuilds something.
#[derive(Clone, Copy, Debug, PartialEq, Eq, Structural)]
pub enum Status {
    Success,
    OutOfMemory,
    ReadOnlyDatabase,
    XapianException,
    FileError,
    FileNotEmail,
    DuplicateMessageId,
    NullPointer,
    TagTooLong,
    UnbalancedFreezeThaw,
    UnbalancedAtomic,
    UnsupportedOperation,
    UpgradeRequired,
    PathError,
}

/// Why an operation on a message failed.
#[derive(Clone, Copy, Debug, PartialEq, Eq, Structural)]
pub enum Error {
    /// The engine answered with a status other than `Success`.
    NotmuchError(Status),
    /// The engine signalled failure without a status.
    UnspecifiedError,
    /// Text that the engine handed out is not UTF-8.
    DecodeError,
}

impl Status {
    /// Whether this status reports success.
    pub open spec fn spec_is_ok(self) -> bool {
        self == Status::Success
    }

    /// The result that this status stands for: `Success` is `Ok`, and every
    /// other status is the error that carries it.
    pub open spec fn result(self) -> Result<(), Error> {
        if self == Status::Success {
            Ok(())
        } else {
            Err(Error::NotmuchError(self))
        }
    }

    /// Whether this status reports success.
    #[verifier::when_used_as_spec(spec_is_ok)]
    pub fn is_ok(self) -> (ok: bool)
        ensures
            ok == (self == Status::Success),
    {
        match self {
            Status::Success => true,
            _ => false,
        }
    }

    /// Turns the status into a result.
    pub fn as_result(self) -> (r: Result<(), Error>)
        ensures
            r == self.result(),
            r is Ok <==> self == Status::Success,
            r is Err ==> r == Err::<(), Error>(Error::NotmuchError(self)),
    {
        if self.is_ok() {
            Ok(())
        } else {
            Err(Error::NotmuchError(self))
        }
    }
}

impl Error {
    /// An error made from a status never carries `Success`.
    pub open spec fn well_formed(self) -> bool {
        self matches Error::NotmuchError(status) ==> status != Status::Success
    }
}

/// Every failing status has an error of its own: two statuses that give the
/// same result are the same status, and the error of a failing status is
/// well formed and hands the status back.
pub proof fn lemma_status_result_one_to_one(a: Status, b: Status)
    ensures
        a.result() == b.result() ==> a == b,
        a.result() matches Err(e) ==> e.well_formed() && e == Error::NotmuchError(a),
        a.result() is Ok <==> a == Status::Success,
{
}

} // verus!
