//! Context for a failed `Result`.

use crate::context::WithContext;
use crate::error_message::ErrorMessage;
use vstd::prelude::*;

verus! {

impl<T> WithContext<T, ErrorMessage> for Result<T, ErrorMessage> {
    open spec fn success(self) -> Option<T> {
        match self {
            Ok(value) => Some(value),
            Err(_) => None,
        }
    }

    open spec fn failure(self) -> Seq<Seq<char>> {
        match self {
            Ok(_) => Seq::empty(),
            Err(cause) => cause@,
        }
    }

    open spec fn failure_ends_foreign(self) -> bool {
        match self {
            Ok(_) => false,
            Err(cause) => cause.ends_foreign(),
        }
    }

    fn with_err_context(self, reason: &str) -> (r: Result<T, ErrorMessage>) {
        match self {
            Ok(value) => Ok(value),
            Err(cause) => Err(ErrorMessage::with_context(reason.to_owned(), cause)),
        }
    }

    fn with_dyn_err_context<F: FnOnce() -> String>(self, reason: F) -> (r: Result<
        T,
        ErrorMessage,
    >) {
        match self {
            Ok(value) => Ok(value),
            Err(cause) => {
                let message = reason();
                let wrapped = ErrorMessage::with_context(message, cause);
                assert(wrapped@.drop_first() =~= cause@);
                Err(wrapped)
            },
        }
    }
}

} // verus!
