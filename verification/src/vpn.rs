//! The state of the VPN: which profile to use, how the state is shown, and
//! what a ping says.

use crate::error_message::ErrorMessage;
use crate::process::ExitStatus;
use crate::text::contains;
use crate::text::contains_text;
use crate::text::enclose;
use crate::text::join;
use crate::text::same_text;
use crate::text::split_once;
use crate::text::split_once_of;
use vstd::prelude::*;
use vstd::string::*;

verus! {

/// The name of the service that runs the profile `profile_name`.
pub fn service_name(profile_name: &str) -> (name: String)
    ensures
        name@ == "wireguard-"@ + profile_name@ + ".service"@,
{
    enclose("wireguard-", profile_name, ".service")
}

/// The local profile is used at home, where the local server can be reached.
pub fn use_local_profile(is_in_home_ip_range: bool, megadrive_reachable: bool) -> (local: bool)
    ensures
        local == (is_in_home_ip_range && megadrive_reachable),
{
    is_in_home_ip_range && megadrive_reachable
}

/// The state that the status bar shows: good while the VPN answers, a warning
/// while a service runs without an answer, critical otherwise.
pub open spec fn state_text(service_local: bool, service_global: bool, answered: bool) -> Seq<
    char,
> {
    if answered {
        "Good"@
    } else if service_global || service_local {
        "Warning"@
    } else {
        "Critical"@
    }
}

/// The sign for which services run.
pub open spec fn services_text(service_local: bool, service_global: bool) -> Seq<char> {
    if service_local && service_global {
        "\u{f0ac} \u{f015} "@
    } else if service_local {
        "\u{f015} "@
    } else if service_global {
        "\u{f0ac} "@
    } else {
        "\u{f00d} "@
    }
}

/// The line that shows the state of the VPN in the status bar.
pub open spec fn status_text(
    megadrive_reachable: bool,
    home_ip_range: bool,
    service_local: bool,
    service_global: bool,
    ping_time: Option<Seq<char>>,
) -> Seq<char> {
    "{\"state\": \""@ + state_text(service_local, service_global, ping_time is Some)
        + "\", \"text\": \""@ + (if megadrive_reachable {
        "\u{f1eb} "@
    } else {
        "\u{f059} "@
    }) + (if home_ip_range {
        "\u{f015} "@
    } else {
        "\u{f57d}"@
    }) + "|"@ + services_text(service_local, service_global) + "\u{f07e} "@ + (match ping_time {
        Some(time) => time + " ms"@,
        None => "\u{f1e6} "@,
    }) + "\"}"@
}

/// The line that is printed as the state of the VPN.
pub fn print_status(
    megadrive_reachable: bool,
    home_ip_range: bool,
    service_local: bool,
    service_global: bool,
    ping_time: Option<String>,
) -> (line: String)
    ensures
        line@ == status_text(
            megadrive_reachable,
            home_ip_range,
            service_local,
            service_global,
            match ping_time {
                Some(time) => Some(time@),
                None => None,
            },
        ),
{
    let mut line = "{\"state\": \"".to_owned();
    if ping_time.is_some() {
        line.append("Good");
    } else if service_global || service_local {
        line.append("Warning");
    } else {
        line.append("Critical");
    }
    line.append("\", \"text\": \"");
    if megadrive_reachable {
        line.append("\u{f1eb} ");
    } else {
        line.append("\u{f059} ");
    }
    if home_ip_range {
        line.append("\u{f015} ");
    } else {
        line.append("\u{f57d}");
    }
    line.append("|");
    if service_local && service_global {
        line.append("\u{f0ac} \u{f015} ");
    } else if service_local {
        line.append("\u{f015} ");
    } else if service_global {
        line.append("\u{f0ac} ");
    } else {
        line.append("\u{f00d} ");
    }
    line.append("\u{f07e} ");
    match ping_time {
        Some(time) => {
            line.append(time.as_str());
            line.append(" ms");
        },
        None => {
            line.append("\u{f1e6} ");
        },
    }
    line.append("\"}");
    line
}

/// The message for a successful ping whose output does not hold `time=`.
pub open spec fn no_time_message(output: Seq<char>) -> Seq<char> {
    "Expected output of successful ping command to contain string 'time='. Instead got:\n"@
        + output
}

/// The message for a successful ping whose time is not followed by a space.
pub open spec fn no_unit_message(output: Seq<char>) -> Seq<char> {
    "Expected output of successful ping command to contain 'time=<TIME> ms'. Instead got:\n"@
        + output
}

/// What a ping says: nothing where it failed; where it succeeded the time,
/// which stands between the first `time=` and the next space.
pub open spec fn ping_outcome(status: ExitStatus, output: Seq<char>) -> Result<
    Option<Seq<char>>,
    Seq<Seq<char>>,
> {
    if !status.is_success() {
        Ok(None)
    } else {
        match split_once_of(output, "time="@) {
            None => Err(seq![no_time_message(output)]),
            Some((_, time_with_suffix)) => match split_once_of(time_with_suffix, " "@) {
                None => Err(seq![no_unit_message(output)]),
                Some((time, _)) => Ok(Some(time)),
            },
        }
    }
}

/// Reads the time out of what a ping printed.
pub fn ping(status: ExitStatus, output: &str) -> (r: Result<Option<String>, ErrorMessage>)
    ensures
        match ping_outcome(status, output@) {
            Ok(time) => r is Ok && time == match r->Ok_0 {
                Some(text) => Some(text@),
                None => None,
            },
            Err(chain) => r is Err && r->Err_0@ == chain
                && !r->Err_0.ends_foreign(),
        },
{
    if status.success() {
        match split_once(output, "time=") {
            None => ErrorMessage::err(
                join(
                    "Expected output of successful ping command to contain string 'time='. Instead got:\n",
                    output,
                ),
            ),
            Some((_, time_with_suffix)) => match split_once(time_with_suffix.as_str(), " ") {
                None => ErrorMessage::err(
                    join(
                        "Expected output of successful ping command to contain 'time=<TIME> ms'. Instead got:\n",
                        output,
                    ),
                ),
                Some((time, _)) => Ok(Some(time)),
            },
        }
    } else {
        Ok(None)
    }
}

/// Whether an address of the home network shows in the list of addresses.
pub fn is_in_home_ip_range(addresses: &str) -> (at_home: bool)
    ensures
        at_home == contains_text(addresses@, "192.168.1."@),
{
    contains(addresses, "192.168.1.")
}

/// Whether `interface` shows in the list of active interfaces.
pub fn is_vpn_interface_active(interfaces: &str, interface: &str) -> (active: bool)
    ensures
        active == contains_text(interfaces@, interface@),
{
    contains(interfaces, interface)
}

/// What is to be done for the argument that the program was called with.
#[derive(Clone, Copy, Debug, PartialEq, Eq, Structural)]
pub enum VpnCommand {
    /// Print the state.
    Status,
    /// Stop both services.
    Stop,
    /// Start the service of the local profile, or else of the global one.
    Restart { local: bool },
    /// Stop both services, then start the one of the local profile, or else
    /// of the global one.
    Switch { local: bool },
}

/// What `arg` asks for where it is known: a toggle stops a VPN that answers
/// and starts one that does not.
pub open spec fn command_for(arg: Option<Seq<char>>, answered: bool, use_local: bool) -> Option<
    VpnCommand,
> {
    match arg {
        None => Some(VpnCommand::Status),
        Some(arg) => if arg == "status"@ {
            Some(VpnCommand::Status)
        } else if arg == "toggle"@ {
            if answered {
                Some(VpnCommand::Stop)
            } else {
                Some(VpnCommand::Restart { local: use_local })
            }
        } else if arg == "start"@ {
            Some(VpnCommand::Restart { local: use_local })
        } else if arg == "stop"@ {
            Some(VpnCommand::Stop)
        } else if arg == "global"@ {
            Some(VpnCommand::Switch { local: false })
        } else if arg == "local"@ {
            Some(VpnCommand::Switch { local: true })
        } else {
            None
        },
    }
}

/// What is to be done for `arg`; a failure where it is not known.
pub fn vpn_command(arg: Option<&str>, answered: bool, use_local: bool) -> (r: Result<
    VpnCommand,
    ErrorMessage,
>)
    ensures
        match command_for(
            match arg {
                Some(arg) => Some(arg@),
                None => None,
            },
            answered,
            use_local,
        ) {
            Some(command) => r == Ok::<VpnCommand, ErrorMessage>(command),
            None => r is Err && arg is Some && r->Err_0@ == seq![
                "Unknown argument '"@ + arg->0@ + "'"@,
            ] && !r->Err_0.ends_foreign(),
        },
{
    match arg {
        None => Ok(VpnCommand::Status),
        Some(arg) => {
            if same_text(arg, "status") {
                Ok(VpnCommand::Status)
            } else if same_text(arg, "toggle") {
                if answered {
                    Ok(VpnCommand::Stop)
                } else {
                    Ok(VpnCommand::Restart { local: use_local })
                }
            } else if same_text(arg, "start") {
                Ok(VpnCommand::Restart { local: use_local })
            } else if same_text(arg, "stop") {
                Ok(VpnCommand::Stop)
            } else if same_text(arg, "global") {
                Ok(VpnCommand::Switch { local: false })
            } else if same_text(arg, "local") {
                Ok(VpnCommand::Switch { local: true })
            } else {
                ErrorMessage::err(enclose("Unknown argument '", arg, "'"))
            }
        },
    }
}

} // verus!
