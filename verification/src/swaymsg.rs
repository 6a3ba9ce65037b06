//! What the compositor is asked and told.

use crate::error_message::ErrorMessage;
use crate::json::booleans_in;
use crate::json::error_text;
use crate::json::read_booleans;
use crate::outputs::Mode;
use crate::process::ExitStatus;
use crate::text::concatenated;
use crate::text::lines;
use crate::text::lines_of;
use crate::text::replace;
use crate::text::replace_first;
use crate::text::replaced_all;
use crate::text::replaced_first;
use crate::text::starts_with;
use crate::text::starts_with_text;
use vstd::prelude::*;
use vstd::string::*;

verus! {

/// An output as the compositor describes it.
#[derive(Clone, Debug)]
pub struct SwayOutput {
    pub name: String,
    pub make: String,
    pub model: String,
    pub serial: String,
    pub modes: Vec<Mode>,
}

/// A [`SwayOutput`] with its texts and modes as sequences.
pub struct SwayOutputModel {
    pub name: Seq<char>,
    pub make: Seq<char>,
    pub model: Seq<char>,
    pub serial: Seq<char>,
    pub modes: Seq<Mode>,
}

impl View for SwayOutput {
    type V = SwayOutputModel;

    open spec fn view(&self) -> SwayOutputModel {
        SwayOutputModel {
            name: self.name@,
            make: self.make@,
            model: self.model@,
            serial: self.serial@,
            modes: self.modes@,
        }
    }
}

/// What one result of the compositor holds under `success`.
#[derive(Clone, Copy, Debug, PartialEq, Eq, Structural)]
pub enum SuccessFlag {
    /// Nothing: the result is no object, or has no such member.
    Missing,
    /// Something that is no boolean.
    NotBool,
    /// This boolean.
    Flag(bool),
}

/// What the compositor's answer to a setup turned out to be.
#[derive(Debug)]
pub enum SetupAnswer {
    /// No JSON; with the debug rendering of the parser's error.
    NotJson(String),
    /// JSON, but no array.
    NotArray,
    /// An array with these results.
    Results(Vec<SuccessFlag>),
}

/// A [`SetupAnswer`] with its texts as sequences.
pub enum SetupAnswerModel {
    NotJson(Seq<char>),
    NotArray,
    Results(Seq<SuccessFlag>),
}

impl View for SetupAnswer {
    type V = SetupAnswerModel;

    open spec fn view(&self) -> SetupAnswerModel {
        match *self {
            SetupAnswer::NotJson(text) => SetupAnswerModel::NotJson(text@),
            SetupAnswer::NotArray => SetupAnswerModel::NotArray,
            SetupAnswer::Results(flags) => SetupAnswerModel::Results(flags@),
        }
    }
}

/// What a result holds under `success`, from what was read of it.
pub open spec fn success_flag(found: Option<Option<bool>>) -> SuccessFlag {
    match found {
        None => SuccessFlag::Missing,
        Some(None) => SuccessFlag::NotBool,
        Some(Some(flag)) => SuccessFlag::Flag(flag),
    }
}

/// The failure that a list of results ends in: that of the first result that
/// does not hold `true` under `success`; none where all do.
pub open spec fn results_failure(flags: Seq<SuccessFlag>) -> Option<Seq<char>>
    decreases flags.len(),
{
    if flags.len() == 0 {
        None
    } else {
        match flags[0] {
            SuccessFlag::Missing => Some("Expected success"@),
            SuccessFlag::NotBool => Some("Expected bool"@),
            SuccessFlag::Flag(false) => Some("Expected success to be true"@),
            SuccessFlag::Flag(true) => results_failure(flags.drop_first()),
        }
    }
}

/// The chain of the failure that applying a setup ends in, if it fails: the
/// command must have succeeded, and its answer must be a JSON array of
/// results that all hold `true` under `success`.
pub open spec fn setup_failure(status: ExitStatus, answer: SetupAnswerModel) -> Option<
    Seq<Seq<char>>,
> {
    if !status.is_success() {
        Some(seq!["Running the swaymsg command to apply the configuration failed"@])
    } else {
        match answer {
            SetupAnswerModel::NotJson(cause) => Some(seq!["Expected json"@, cause]),
            SetupAnswerModel::NotArray => Some(seq!["Expected array"@]),
            SetupAnswerModel::Results(flags) => match results_failure(flags) {
                Some(message) => Some(seq![message]),
                None => None,
            },
        }
    }
}

/// Whether `answer` is what `command_output` holds: the flags of its
/// results where it is a JSON array, and otherwise what it is instead.
pub open spec fn is_answer_of(command_output: Seq<char>, answer: SetupAnswerModel) -> bool {
    match booleans_in(command_output, "success"@) {
        None => answer is NotJson,
        Some(None) => answer == SetupAnswerModel::NotArray,
        Some(Some(found)) => answer == SetupAnswerModel::Results(
            found.map_values(|one: Option<Option<bool>>| success_flag(one)),
        ),
    }
}

/// Reads the compositor's answer to a setup.
pub fn read_answer(command_output: &str) -> (answer: SetupAnswer)
    ensures
        is_answer_of(command_output@, answer@),
{
    match read_booleans(command_output, "success") {
        Err(error) => SetupAnswer::NotJson(error_text(&error)),
        Ok(None) => SetupAnswer::NotArray,
        Ok(Some(found)) => {
            let mut flags: Vec<SuccessFlag> = Vec::new();
            let mut i: usize = 0;
            while i < found.len()
                invariant
                    i <= found.len(),
                    flags@ == found@.take(i as int).map_values(
                        |one: Option<Option<bool>>| success_flag(one),
                    ),
                decreases found.len() - i,
            {
                let flag = match found[i] {
                    None => SuccessFlag::Missing,
                    Some(None) => SuccessFlag::NotBool,
                    Some(Some(flag)) => SuccessFlag::Flag(flag),
                };
                flags.push(flag);
                i += 1;
                assert(flags@ =~= found@.take(i as int).map_values(
                    |one: Option<Option<bool>>| success_flag(one),
                ));
            }
            assert(found@.take(i as int) =~= found@);
            SetupAnswer::Results(flags)
        },
    }
}

/// Decides whether a setup was applied, from how the command ended and what
/// it answered.
pub fn setup_verdict(status: ExitStatus, answer: SetupAnswer) -> (r: Result<(), ErrorMessage>)
    ensures
        match setup_failure(status, answer@) {
            Some(chain) => r is Err && r->Err_0@ == chain && r->Err_0.ends_foreign() == (
            chain.len() == 2),
            None => r is Ok,
        },
{
    if !status.success() {
        return ErrorMessage::err(
            "Running the swaymsg command to apply the configuration failed".to_owned(),
        );
    }
    let ghost model = answer@;
    match answer {
        SetupAnswer::NotJson(cause) => {
            let error = ErrorMessage::with_context(
                "Expected json".to_owned(),
                ErrorMessage::foreign(cause),
            );
            assert(error@ =~= seq!["Expected json"@, cause@]);
            Err(error)
        },
        SetupAnswer::NotArray => ErrorMessage::err("Expected array".to_owned()),
        SetupAnswer::Results(flags) => {
            let mut i: usize = 0;
            assert(flags@.skip(0) =~= flags@);
            while i < flags.len()
                invariant
                    i <= flags.len(),
                    status.is_success(),
                    answer@ == model,
                    model == SetupAnswerModel::Results(flags@),
                    results_failure(flags@) == results_failure(flags@.skip(i as int)),
                decreases flags.len() - i,
            {
                assert(flags@.skip(i as int).drop_first() =~= flags@.skip(i + 1));
                assert(flags@.skip(i as int)[0] == flags@[i as int]);
                match flags[i] {
                    SuccessFlag::Missing => {
                        return ErrorMessage::err("Expected success".to_owned());
                    },
                    SuccessFlag::NotBool => {
                        return ErrorMessage::err("Expected bool".to_owned());
                    },
                    SuccessFlag::Flag(false) => {
                        return ErrorMessage::err("Expected success to be true".to_owned());
                    },
                    SuccessFlag::Flag(true) => {},
                }
                i += 1;
            }
            Ok(())
        },
    }
}

/// Decides whether a setup was applied, from how the command ended and the
/// text that it printed.
pub fn check_applied(status: ExitStatus, command_output: &str) -> (r: Result<(), ErrorMessage>)
    ensures
        exists|answer: SetupAnswerModel|
            is_answer_of(command_output@, answer) && match setup_failure(status, answer) {
                Some(chain) => r is Err && r->Err_0@ == chain && r->Err_0.ends_foreign() == (
                chain.len() == 2),
                None => r is Ok,
            },
{
    let answer = read_answer(command_output);
    setup_verdict(status, answer)
}

/// The lines of a setup that are no comments: those that do not begin with `#`.
pub open spec fn command_lines(lines: Seq<Seq<char>>) -> Seq<Seq<char>> {
    lines.filter(|line: Seq<char>| !starts_with_text(line, "#"@))
}

/// The commands of a setup in one line, before a leading separator is cut
/// off: the lines that are no comments one behind the other, without braces
/// and line feeds, and with a comma and a space before each `output`.
pub open spec fn joined_commands(setup: Seq<char>) -> Seq<char> {
    replaced_all(
        replaced_all(
            replaced_all(
                replaced_all(concatenated(command_lines(lines_of(setup))), "{"@, ""@),
                "}"@,
                ""@,
            ),
            "\n"@,
            ""@,
        ),
        "output"@,
        ", output"@,
    )
}

/// The one line that `setup` is sent as: the joined commands without the
/// separator at their beginning.
pub open spec fn command_of(setup: Seq<char>) -> Seq<char> {
    let joined = joined_commands(setup);
    if starts_with_text(joined, ", "@) {
        replaced_first(joined, ", "@, ""@)
    } else {
        joined
    }
}

/// The one line that a setup is sent as.
pub fn setup_command(setup: &str) -> (command: String)
    ensures
        command@ == command_of(setup@),
{
    let all = lines(setup);
    let mut joined = String::new();
    let mut i: usize = 0;
    assert(all.deep_view().take(0) =~= Seq::<Seq<char>>::empty());
    proof {
        reveal(Seq::filter);
    }
    while i < all.len()
        invariant
            i <= all.len(),
            all.deep_view() == lines_of(setup@),
            joined@ == concatenated(command_lines(all.deep_view().take(i as int))),
        decreases all.len() - i,
    {
        let line = all[i].as_str();
        proof {
            let before = all.deep_view().take(i as int);
            let upto = all.deep_view().take(i + 1);
            assert(upto.drop_last() =~= before);
            assert(upto.last() == line@);
            reveal(Seq::filter);
            let keep = |line: Seq<char>| !starts_with_text(line, "#"@);
            assert(upto.filter(keep) == if keep(line@) {
                before.filter(keep).push(line@)
            } else {
                before.filter(keep)
            });
            if keep(line@) {
                assert(before.filter(keep).push(line@).drop_last() =~= before.filter(keep));
            }
        }
        if !starts_with(line, "#") {
            joined.append(line);
        }
        i += 1;
    }
    assert(all.deep_view().take(i as int) =~= all.deep_view());
    let no_open = replace(joined.as_str(), "{", "");
    let no_close = replace(no_open.as_str(), "}", "");
    let one_line = replace(no_close.as_str(), "\n", "");
    let separated = replace(one_line.as_str(), "output", ", output");
    if starts_with(separated.as_str(), ", ") {
        replace_first(separated.as_str(), ", ", "")
    } else {
        separated
    }
}

} // verus!
