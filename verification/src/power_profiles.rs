//! Power profiles: which one follows which, and how each is shown.

use crate::error_message::ErrorMessage;
use crate::text::enclose;
use crate::text::join;
use crate::text::same_text;
use vstd::prelude::*;

verus! {

/// The message for a power setting that is not known.
pub open spec fn unknown_setting_message(status: Seq<char>) -> Seq<char> {
    "Got unknown power setting: "@ + status
}

/// The profile that a toggle switches to: from saving to balanced, from
/// balanced to performance, and from there to saving again.
pub open spec fn profile_after(status: Seq<char>) -> Option<Seq<char>> {
    if status == "power-saver"@ {
        Some("balanced"@)
    } else if status == "balanced"@ {
        Some("performance"@)
    } else if status == "performance"@ {
        Some("power-saver"@)
    } else {
        None
    }
}

/// The line that shows a profile in the status bar.
pub open spec fn profile_line(status: Seq<char>) -> Option<Seq<char>> {
    if status == "performance"@ {
        Some("{\"state\": \"Good\", \"text\": \"\u{f0ee}\"}"@)
    } else if status == "balanced"@ {
        Some("{\"state\": \"Info\", \"text\": \"\u{f0c2}\"}"@)
    } else if status == "power-saver"@ {
        Some("{\"state\": \"Idle\", \"text\": \"\u{f0ed}\"}"@)
    } else {
        None
    }
}

/// The profile that a toggle switches to from `current_status`; a failure
/// where that is no known profile.
pub fn next_profile(current_status: &str) -> (r: Result<&'static str, ErrorMessage>)
    ensures
        match profile_after(current_status@) {
            Some(next) => r is Ok && r->Ok_0@ == next,
            None => r is Err && r->Err_0@ == seq![unknown_setting_message(current_status@)]
                && !r->Err_0.ends_foreign(),
        },
{
    if same_text(current_status, "power-saver") {
        Ok("balanced")
    } else if same_text(current_status, "balanced") {
        Ok("performance")
    } else if same_text(current_status, "performance") {
        Ok("power-saver")
    } else {
        ErrorMessage::err(join("Got unknown power setting: ", current_status))
    }
}

/// The line that `current_status` is printed as; a failure where that is no
/// known profile.
pub fn print_profile(current_status: &str) -> (r: Result<&'static str, ErrorMessage>)
    ensures
        match profile_line(current_status@) {
            Some(line) => r is Ok && r->Ok_0@ == line,
            None => r is Err && r->Err_0@ == seq![unknown_setting_message(current_status@)]
                && !r->Err_0.ends_foreign(),
        },
{
    if same_text(current_status, "performance") {
        Ok(power_high())
    } else if same_text(current_status, "balanced") {
        Ok(power_normal())
    } else if same_text(current_status, "power-saver") {
        Ok(power_low())
    } else {
        ErrorMessage::err(join("Got unknown power setting: ", current_status))
    }
}

/// The line for the profile with the most power.
pub fn power_high() -> (line: &'static str)
    ensures
        line@ == "{\"state\": \"Good\", \"text\": \"\u{f0ee}\"}"@,
{
    "{\"state\": \"Good\", \"text\": \"\u{f0ee}\"}"
}

/// The line for the balanced profile.
pub fn power_normal() -> (line: &'static str)
    ensures
        line@ == "{\"state\": \"Info\", \"text\": \"\u{f0c2}\"}"@,
{
    "{\"state\": \"Info\", \"text\": \"\u{f0c2}\"}"
}

/// The line for the profile that saves power.
pub fn power_low() -> (line: &'static str)
    ensures
        line@ == "{\"state\": \"Idle\", \"text\": \"\u{f0ed}\"}"@,
{
    "{\"state\": \"Idle\", \"text\": \"\u{f0ed}\"}"
}

/// What is to be done for the argument that the program was called with.
#[derive(Debug)]
pub enum ProfileCommand {
    /// Print the current profile.
    Show,
    /// Switch to the next profile and print it.
    Toggle,
    /// Switch to this profile.
    SwitchTo(&'static str),
}

/// The message for an argument that is not known.
pub open spec fn unknown_argument_message(arg: Seq<char>) -> Seq<char> {
    "Unknown argument '"@ + arg + "'"@
}

/// What is to be done for `arg`: without an argument the profile is shown,
/// `toggle` switches on, and the name of a profile sets it.
pub fn profile_command(arg: Option<&str>) -> (r: Result<ProfileCommand, ErrorMessage>)
    ensures
        match arg {
            None => r matches Ok(ProfileCommand::Show),
            Some(arg) => if arg@ == "toggle"@ {
                r matches Ok(ProfileCommand::Toggle)
            } else if arg@ == "power-saver"@ || arg@ == "balanced"@ || arg@ == "performance"@ {
                r matches Ok(ProfileCommand::SwitchTo(profile)) && profile@ == arg@
            } else {
                r is Err && r->Err_0@ == seq![unknown_argument_message(arg@)]
                    && !r->Err_0.ends_foreign()
            },
        },
{
    match arg {
        None => Ok(ProfileCommand::Show),
        Some(arg) => {
            if same_text(arg, "toggle") {
                Ok(ProfileCommand::Toggle)
            } else if same_text(arg, "power-saver") {
                Ok(ProfileCommand::SwitchTo("power-saver"))
            } else if same_text(arg, "balanced") {
                Ok(ProfileCommand::SwitchTo("balanced"))
            } else if same_text(arg, "performance") {
                Ok(ProfileCommand::SwitchTo("performance"))
            } else {
                ErrorMessage::err(enclose("Unknown argument '", arg, "'"))
            }
        },
    }
}

} // verus!
