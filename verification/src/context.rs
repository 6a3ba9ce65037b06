//! Adding context to a failure on its way up.

use crate::error_message::ErrorMessage;
use vstd::prelude::*;

verus! {

/// Values that either carry a success or stand for a failure that can be
/// wrapped in an [`ErrorMessage`].
pub trait WithContext<T, E>: Sized {
    /// The value handed through untouched, where there is one.
    spec fn success(self) -> Option<T>;

    /// The chain of the failure that gets wrapped; empty where the failure is
    /// the mere absence of a value.
    spec fn failure(self) -> Seq<Seq<char>>;

    /// Whether the failure that gets wrapped ends in a foreign error.
    spec fn failure_ends_foreign(self) -> bool;

    /// A success passes through; a failure becomes an error whose chain is
    /// `reason` followed by the chain of the failure.
    fn with_err_context(self, reason: &str) -> (r: Result<T, ErrorMessage>)
        ensures
            self.success() matches Some(value) ==> r == Ok::<T, ErrorMessage>(value),
            self.success() is None ==> r is Err && r->Err_0@ == seq![reason@] + self.failure()
                && r->Err_0.ends_foreign() == self.failure_ends_foreign(),
    ;

    /// As [`WithContext::with_err_context`], but the message is built by
    /// `reason`, which is called on the failure path only.
    fn with_dyn_err_context<F: FnOnce() -> String>(self, reason: F) -> (r: Result<T, ErrorMessage>)
        requires
            self.success() is None ==> reason.requires(()),
        ensures
            self.success() matches Some(value) ==> r == Ok::<T, ErrorMessage>(value),
            self.success() is None ==> r is Err && r->Err_0@.len() == 1 + self.failure().len()
                && r->Err_0@.drop_first() == self.failure() && r->Err_0.ends_foreign()
                == self.failure_ends_foreign() && exists|message: String|
                reason.ensures((), message) && #[trigger] message@ == r->Err_0@[0],
    ;
}

} // verus!
