//! The names most callers want in scope.

pub use crate::boolean::BooleanErrors;
pub use crate::context::WithContext;
pub use crate::error_message::ErrorMessage;
