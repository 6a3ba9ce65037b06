//! Errors from an unexpected boolean.

use crate::error_message::ErrorMessage;
use vstd::prelude::*;

verus! {

/// Turning a boolean that has the wrong value into an error.
pub trait BooleanErrors: Sized {
    /// The boolean that is tested.
    spec fn holds(self) -> bool;

    /// `Ok(true)` for `true`; for `false` an error with `context` as its only
    /// message.
    fn error_if_false(self, context: &str) -> (r: Result<bool, ErrorMessage>)
        ensures
            self.holds() ==> r == Ok::<bool, ErrorMessage>(true),
            !self.holds() ==> r is Err && r->Err_0@ == seq![context@] && !r->Err_0.ends_foreign(),
    ;

    /// `Ok(false)` for `false`; for `true` an error with `context` as its only
    /// message.
    fn error_if_true(self, context: &str) -> (r: Result<bool, ErrorMessage>)
        ensures
            !self.holds() ==> r == Ok::<bool, ErrorMessage>(false),
            self.holds() ==> r is Err && r->Err_0@ == seq![context@] && !r->Err_0.ends_foreign(),
    ;

    /// As [`BooleanErrors::error_if_false`], with the message built by
    /// `context` on the failure path only.
    fn error_dyn_if_false<F: FnOnce() -> String>(self, context: F) -> (r: Result<
        bool,
        ErrorMessage,
    >)
        requires
            !self.holds() ==> context.requires(()),
        ensures
            self.holds() ==> r == Ok::<bool, ErrorMessage>(true),
            !self.holds() ==> r is Err && r->Err_0@.len() == 1 && !r->Err_0.ends_foreign() && exists|message: String|
                context.ensures((), message) && #[trigger] message@ == r->Err_0@[0],
    ;

    /// As [`BooleanErrors::error_if_true`], with the message built by
    /// `context` on the failure path only.
    fn error_dyn_if_true<F: FnOnce() -> String>(self, context: F) -> (r: Result<
        bool,
        ErrorMessage,
    >)
        requires
            self.holds() ==> context.requires(()),
        ensures
            !self.holds() ==> r == Ok::<bool, ErrorMessage>(false),
            self.holds() ==> r is Err && r->Err_0@.len() == 1 && !r->Err_0.ends_foreign() && exists|message: String|
                context.ensures((), message) && #[trigger] message@ == r->Err_0@[0],
    ;
}

impl BooleanErrors for bool {
    open spec fn holds(self) -> bool {
        self
    }

    fn error_if_false(self, context: &str) -> (r: Result<bool, ErrorMessage>) {
        if self {
            Ok(self)
        } else {
            let message = context.to_owned();
            Err(ErrorMessage::new(message))
        }
    }

    fn error_if_true(self, context: &str) -> (r: Result<bool, ErrorMessage>) {
        if self {
            let message = context.to_owned();
            Err(ErrorMessage::new(message))
        } else {
            Ok(self)
        }
    }

    fn error_dyn_if_false<F: FnOnce() -> String>(self, context: F) -> (r: Result<
        bool,
        ErrorMessage,
    >) {
        if self {
            Ok(self)
        } else {
            let message = context();
            Err(ErrorMessage::new(message))
        }
    }

    fn error_dyn_if_true<F: FnOnce() -> String>(self, context: F) -> (r: Result<
        bool,
        ErrorMessage,
    >) {
        if self {
            let message = context();
            Err(ErrorMessage::new(message))
        } else {
            Ok(self)
        }
    }
}

} // verus!
