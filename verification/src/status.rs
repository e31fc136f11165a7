//! Status codes of host calls and the error they decode to.

use vstd::prelude::*;

verus! {

/// The one failure a host call can report.
#[derive(Clone, Copy, Debug, PartialEq, Eq)]
pub enum NFTMartErr {
    Fail,
}

/// A breach of the protocol by the host. No contract can continue after one:
/// the caller of this library stops the execution.
#[derive(Clone, Copy, Debug, PartialEq, Eq)]
pub enum Abort {
    /// The status code is neither 0 nor 1.
    UnknownStatus(u32),
    /// The output bytes are not an encoding of the value the operation returns.
    MalformedOutput,
}

/// How a host call ends: with a value, with the failure the host declared, or
/// with a breach of the protocol. The breach is kept apart from the failure so
/// that it cannot be mistaken for an error a caller may handle.
pub type Outcome<T> = Result<Result<T, NFTMartErr>, Abort>;

/// The outcome of a call that succeeded and has nothing to return.
pub open spec fn success() -> Outcome<()> {
    Ok(Ok(()))
}

/// What a status code means: 0 is success, 1 is `Fail`, every other code is a
/// breach of the protocol.
pub open spec fn status_outcome(status_code: u32) -> Outcome<()> {
    if status_code == 0 {
        Ok(Ok(()))
    } else if status_code == 1 {
        Ok(Err(NFTMartErr::Fail))
    } else {
        Err(Abort::UnknownStatus(status_code))
    }
}

impl NFTMartErr {
    /// Decodes one of the two status codes the protocol defines.
    pub fn from_status_code(status_code: u32) -> (r: Result<(), NFTMartErr>)
        requires
            status_code <= 1,
        ensures
            r == (if status_code == 0 {
                Ok::<(), NFTMartErr>(())
            } else {
                Err(NFTMartErr::Fail)
            }),
            status_outcome(status_code) == Ok::<Result<(), NFTMartErr>, Abort>(r),
    {
        if status_code == 0 {
            Ok(())
        } else {
            Err(NFTMartErr::Fail)
        }
    }
}

/// Decodes any status code. An unknown code becomes neither success nor
/// `Fail`, but an `Abort` that carries the code.
pub fn decode_status(status_code: u32) -> (r: Outcome<()>)
    ensures
        r == status_outcome(status_code),
        r == success() <==> status_code == 0,
        r == Ok::<Result<(), NFTMartErr>, Abort>(Err(NFTMartErr::Fail)) <==> status_code == 1,
        r is Err <==> status_code > 1,
{
    if status_code <= 1 {
        Ok(NFTMartErr::from_status_code(status_code))
    } else {
        Err(Abort::UnknownStatus(status_code))
    }
}

} // verus!
