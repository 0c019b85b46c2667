use vstd::prelude::*;

verus! {

/// The answers a view or a factory gives to its host.
///
/// The numbers behind them differ between platforms, so they are attached where the answer
/// crosses the COM boundary.
#[derive(Clone, Copy, Debug, PartialEq, Eq, Structural)]
pub enum TResult {
    /// `kResultOk`
    ResultOk,
    /// `kResultFalse`
    ResultFalse,
    /// `kInvalidArgument`
    InvalidArgument,
    /// `kNotImplemented`
    NotImplemented,
}

/// `ResultOk` if `accepted`, `ResultFalse` otherwise.
pub open spec fn ok_or_false(accepted: bool) -> TResult {
    if accepted {
        TResult::ResultOk
    } else {
        TResult::ResultFalse
    }
}

impl TResult {
    /// The answer to a request that was either accepted or turned down.
    pub fn from_accepted(accepted: bool) -> (answer: TResult)
        ensures
            answer == ok_or_false(accepted),
            accepted ==> answer == TResult::ResultOk,
            !accepted ==> answer == TResult::ResultFalse,
    {
        if accepted {
            TResult::ResultOk
        } else {
            TResult::ResultFalse
        }
    }
}

/// What was accepted is answered `ResultOk`, and nothing else is.
pub proof fn lemma_only_accepted_is_ok(accepted: bool)
    ensures
        ok_or_false(accepted) == TResult::ResultOk <==> accepted,
        ok_or_false(accepted) == TResult::ResultFalse <==> !accepted,
{
}

} // verus!
