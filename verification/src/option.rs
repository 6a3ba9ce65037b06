//! Context for an absent value.

use crate::context::WithContext;
use crate::error_message::ErrorMessage;
use vstd::prelude::*;

verus! {

impl<T> WithContext<T, ()> for Option<T> {
    open spec fn success(self) -> Option<T> {
        self
    }

    open spec fn failure(self) -> Seq<Seq<char>> {
        Seq::empty()
    }

    open spec fn failure_ends_foreign(self) -> bool {
        false
    }

    fn with_err_context(self, reason: &str) -> (r: Result<T, ErrorMessage>) {
        match self {
            Some(value) => Ok(value),
            None => {
                let e = ErrorMessage::new(reason.to_owned());
                assert(e@ =~= seq![reason@] + Seq::<Seq<char>>::empty());
                Err(e)
            },
        }
    }

    fn with_dyn_err_context<F: FnOnce() -> String>(self, reason: F) -> (r: Result<
        T,
        ErrorMessage,
    >) {
        match self {
            Some(value) => Ok(value),
            None => {
                let message = reason();
                let e = ErrorMessage::new(message);
                assert(e@.drop_first() =~= Seq::<Seq<char>>::empty());
                Err(e)
            },
        }
    }
}

} // verus!
