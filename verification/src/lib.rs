//! Contextual errors, the decisions behind running external commands, and
//! the rules of a handful of small utilities built on both.
//!
//! An [`ErrorMessage`] is a message with an optional owned cause; wrapping a
//! failure adds one message in front of the chain, and the chain prints as
//!
//! ```text
//! Failed to start the program
//!   caused by: Failed to load configuration
//!   caused by: File not found
//! ```
//!
//! Every function here is a function of plain values: whoever spawns a
//! process, reads its pipes, a file or the clock hands the results in and
//! acts on what comes back. [`process`] turns a finished process into a
//! result, and [`live`] is the state machine behind a run whose output is
//! filtered and echoed while it arrives. The other modules hold what the
//! utilities decide: which audio device or power profile is next, how the
//! monitors are set up, what is shown of a rebuild, and so on.

pub mod audio;
pub mod boolean;
pub mod context;
pub mod day_countdown;
pub mod error_message;
pub mod jetbrains_setup;
pub mod json;
pub mod layout;
pub mod live;
pub mod nixos_rebuild;
pub mod option;
pub mod output_filter;
pub mod outputs;
pub mod paint;
pub mod power_profiles;
pub mod prelude;
pub mod process;
pub mod regex_copier;
pub mod releaser;
pub mod result;
pub mod swaymsg;
pub mod text;
pub mod vpn;

pub use crate::boolean::BooleanErrors;
pub use crate::context::WithContext;
pub use crate::error_message::ErrorMessage;
