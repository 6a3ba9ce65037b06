//! Rebuilding the system: what is run, what is shown of a command's output
//! while it runs, and what is shown of it when it has failed.

use crate::error_message::ErrorMessage;
use crate::paint::bright_red;
use crate::paint::cyan;
use crate::paint::is_painted;
use crate::paint::purple;
use crate::process::ExitStatus;
use crate::text::contains;
use crate::text::contains_text;
use crate::text::join;
use crate::text::lines;
use crate::text::lines_of;
use crate::text::starts_with;
use crate::text::starts_with_text;
use crate::text::trim;
use crate::text::trim_end;
use crate::text::trimmed;
use crate::text::trimmed_end;
use crate::text::words;
use crate::text::words_of;
use vstd::prelude::*;
use vstd::string::*;

verus! {

/// The number of lines that are shown behind a line that holds an error.
pub const NIX_REBUILD_ERROR_CONTEXT: usize = 1;

/// The name of the file that the output of a rebuild is logged to.
pub const NIX_LOG_FILENAME: &'static str = "nixos-rebuild.log";

/// How a line of output is echoed while the command runs.
#[derive(Clone, Copy, Debug, PartialEq, Eq, Structural)]
pub enum Echo {
    /// On a line of its own, in bright red.
    Failure,
    /// On a line of its own, in purple.
    Progress,
    /// On a line of its own, in cyan.
    Detail,
    /// As a single dot.
    Dot,
}

/// How a line of a rebuild is echoed: errors stand out, the steps of the
/// build show as progress, and everything else is a detail when debugging
/// and a dot otherwise.
pub open spec fn rebuild_echo(line: Seq<char>, debug: bool) -> Echo {
    if contains_text(line, "error:"@) {
        Echo::Failure
    } else if contains_text(line, "activating the configuration..."@) || (starts_with_text(
        line,
        "building "@,
    ) && !starts_with_text(line, "building '"@)) || starts_with_text(line, "building..."@)
        || contains_text(line, " paths will be fetched ("@) {
        Echo::Progress
    } else if debug {
        Echo::Detail
    } else {
        Echo::Dot
    }
}

/// How a line of the garbage collection is echoed: what is deleted is a
/// detail when debugging and a dot otherwise; everything else shows as
/// progress.
pub open spec fn garbage_echo(line: Seq<char>, debug: bool) -> Echo {
    if starts_with_text(line, "deleting '"@) || starts_with_text(line, "removing stale link "@) {
        if debug {
            Echo::Detail
        } else {
            Echo::Dot
        }
    } else {
        Echo::Progress
    }
}

/// The code of the colour that goes with a way of echoing, where it has one.
pub open spec fn echo_code(echo: Echo) -> Seq<char> {
    match echo {
        Echo::Failure => "91"@,
        Echo::Progress => "35"@,
        Echo::Detail => "36"@,
        Echo::Dot => ""@,
    }
}

/// Whether `rendered` is `line` echoed as `echo`: a dot, or a line feed and
/// then the line without the whitespace at its end, in the colour of `echo`.
pub open spec fn is_echo_of(line: Seq<char>, echo: Echo, rendered: Seq<char>) -> bool {
    match echo {
        Echo::Dot => rendered == "."@,
        _ => exists|painted: Seq<char>|
            #![trigger is_painted(trimmed_end(line), echo_code(echo), painted)]
            is_painted(trimmed_end(line), echo_code(echo), painted) && rendered == "\n"@
                + painted,
    }
}

/// Decides how a line of a rebuild is echoed.
pub fn classify_rebuild_line(line: &str, debug: bool) -> (echo: Echo)
    ensures
        echo == rebuild_echo(line@, debug),
{
    if contains(line, "error:") {
        Echo::Failure
    } else if contains(line, "activating the configuration...") || (starts_with(line, "building ")
        && !starts_with(line, "building '")) || starts_with(line, "building...") || contains(
        line,
        " paths will be fetched (",
    ) {
        Echo::Progress
    } else if debug {
        Echo::Detail
    } else {
        Echo::Dot
    }
}

/// Decides how a line of the garbage collection is echoed.
pub fn classify_garbage_line(line: &str, debug: bool) -> (echo: Echo)
    ensures
        echo == garbage_echo(line@, debug),
{
    if starts_with(line, "deleting '") || starts_with(line, "removing stale link ") {
        if debug {
            Echo::Detail
        } else {
            Echo::Dot
        }
    } else {
        Echo::Progress
    }
}

/// Writes `line` as it is echoed.
pub fn render_echo(line: &str, echo: Echo) -> (rendered: String)
    ensures
        is_echo_of(line@, echo, rendered@),
{
    match echo {
        Echo::Dot => ".".to_owned(),
        Echo::Failure => {
            let painted = bright_red(trim_end(line));
            assert(is_painted(trimmed_end(line@), echo_code(echo), painted@));
            join("\n", painted.as_str())
        },
        Echo::Progress => {
            let painted = purple(trim_end(line));
            assert(is_painted(trimmed_end(line@), echo_code(echo), painted@));
            join("\n", painted.as_str())
        },
        Echo::Detail => {
            let painted = cyan(trim_end(line));
            assert(is_painted(trimmed_end(line@), echo_code(echo), painted@));
            join("\n", painted.as_str())
        },
    }
}

/// What is echoed of a line of a rebuild; every line is echoed in some form.
pub fn rebuild_filter(line: &str, debug: bool) -> (rendered: Option<String>)
    ensures
        rendered matches Some(text) && is_echo_of(line@, rebuild_echo(line@, debug), text@),
{
    Some(render_echo(line, classify_rebuild_line(line, debug)))
}

/// What is echoed of a line of the garbage collection; every line is echoed
/// in some form.
pub fn garbage_filter(line: &str, debug: bool) -> (rendered: Option<String>)
    ensures
        rendered matches Some(text) && is_echo_of(line@, garbage_echo(line@, debug), text@),
{
    Some(render_echo(line, classify_garbage_line(line, debug)))
}

/// The arguments that `sudo` is called with for a rebuild: a dry run only
/// builds, and otherwise the system is switched at the next boot or at once.
pub fn rebuild_arguments(dry_run: bool, on_boot: bool) -> (args: Vec<&'static str>)
    ensures
        args@.len() == 4,
        args@[0]@ == "nixos-rebuild"@,
        args@[1]@ == if dry_run {
            "dry-build"@
        } else if on_boot {
            "boot"@
        } else {
            "switch"@
        },
        args@[2]@ == "--upgrade-all"@,
        args@[3]@ == "--show-trace"@,
{
    let action = if dry_run {
        "dry-build"
    } else if on_boot {
        "boot"
    } else {
        "switch"
    };
    let mut args: Vec<&'static str> = Vec::new();
    args.push("nixos-rebuild");
    args.push(action);
    args.push("--upgrade-all");
    args.push("--show-trace");
    args
}

/// The arguments that `sudo` is called with for the garbage collection.
pub fn garbage_arguments(dry_run: bool) -> (args: Vec<&'static str>)
    ensures
        args@.len() == if dry_run {
            4int
        } else {
            3int
        },
        args@[0]@ == "nix-collect-garbage"@,
        args@[1]@ == "--delete-older-than"@,
        args@[2]@ == "30d"@,
        dry_run ==> args@[3]@ == "--dry-run"@,
{
    let mut args: Vec<&'static str> = Vec::new();
    args.push("nix-collect-garbage");
    args.push("--delete-older-than");
    args.push("30d");
    if dry_run {
        args.push("--dry-run");
    }
    args
}

/// A line of an excerpt: whether it holds the marker, and its text.
#[derive(Debug)]
pub struct ExcerptLine {
    pub marked: bool,
    pub text: String,
}

/// Whether line `at` follows a line with the marker closely enough to be
/// shown: at most `context` lines behind it.
pub open spec fn in_window(lines: Seq<Seq<char>>, marker: Seq<char>, context: int, at: int) -> bool {
    exists|from: int|
        0 <= from < at && at - from <= context && #[trigger] contains_text(lines[from], marker)
}

/// Whether line `at` is part of the excerpt: it holds the marker, or follows
/// closely on a line that does.
pub open spec fn in_excerpt(lines: Seq<Seq<char>>, marker: Seq<char>, context: int, at: int) -> bool {
    contains_text(lines[at], marker) || in_window(lines, marker, context, at)
}

/// The excerpt of the first `count` lines: each line that holds the marker,
/// and the `context` lines behind each, in their order, each with whether it
/// holds the marker.
pub open spec fn excerpt_of(lines: Seq<Seq<char>>, marker: Seq<char>, context: int, count: int) -> Seq<
    (bool, Seq<char>),
>
    decreases count,
{
    if count <= 0 {
        Seq::empty()
    } else {
        let earlier = excerpt_of(lines, marker, context, count - 1);
        if in_excerpt(lines, marker, context, count - 1) {
            earlier.push((contains_text(lines[count - 1], marker), lines[count - 1]))
        } else {
            earlier
        }
    }
}

/// The excerpt as a sequence of pairs.
pub open spec fn excerpt_view(excerpt: Seq<ExcerptLine>) -> Seq<(bool, Seq<char>)> {
    Seq::new(excerpt.len(), |i: int| (excerpt[i].marked, excerpt[i].text@))
}

/// Picks out of `output` what is shown of a failure: each line that holds
/// `marker`, and the `context` lines that follow it.
pub fn excerpt(output: &str, marker: &str, context: usize) -> (shown: Vec<ExcerptLine>)
    ensures
        excerpt_view(shown@) == excerpt_of(
            lines_of(output@),
            marker@,
            context as int,
            lines_of(output@).len() as int,
        ),
{
    let all = lines(output);
    let mut shown: Vec<ExcerptLine> = Vec::new();
    let mut print_context: usize = 0;
    let mut i: usize = 0;
    let ghost text = all.deep_view();
    let ghost mut last: int = -1;
    assert(excerpt_view(shown@) =~= Seq::<(bool, Seq<char>)>::empty());
    while i < all.len()
        invariant
            i <= all.len(),
            text == all.deep_view(),
            text == lines_of(output@),
            -1 <= last < i,
            last >= 0 ==> contains_text(text[last], marker@),
            forall|j: int| last < j < i ==> !contains_text(#[trigger] text[j], marker@),
            print_context <= context,
            last < 0 ==> print_context == 0,
            last >= 0 ==> print_context as int == if context as int - (i - 1 - last) > 0 {
                context as int - (i - 1 - last)
            } else {
                0
            },
            excerpt_view(shown@) == excerpt_of(text, marker@, context as int, i as int),
        decreases all.len() - i,
    {
        let line = all[i].as_str();
        assert(line@ == text[i as int]);
        let ghost earlier = excerpt_view(shown@);
        let marked = contains(line, marker);
        proof {
            if !marked {
                if print_context > 0 {
                    assert(in_window(text, marker@, context as int, i as int)) by {
                        assert(contains_text(text[last], marker@));
                    }
                } else {
                    assert(!in_window(text, marker@, context as int, i as int)) by {
                        if in_window(text, marker@, context as int, i as int) {
                            let from = choose|from: int|
                                0 <= from < i && i - from <= context && #[trigger] contains_text(
                                    text[from],
                                    marker@,
                                );
                            assert(from <= last);
                        }
                    }
                }
            }
        }
        if marked {
            shown.push(ExcerptLine { marked: true, text: line.to_owned() });
            print_context = context;
            proof {
                last = i as int;
            }
            assert(excerpt_view(shown@) =~= earlier.push((true, line@)));
        } else if print_context > 0 {
            print_context -= 1;
            shown.push(ExcerptLine { marked: false, text: line.to_owned() });
            assert(excerpt_view(shown@) =~= earlier.push((false, line@)));
        } else {
            assert(excerpt_view(shown@) =~= earlier);
        }
        i += 1;
    }
    shown
}

/// What is shown of a rebuild that failed: each line that holds `error:` and
/// the line behind it.
pub fn rebuild_excerpt(output: &str) -> (shown: Vec<ExcerptLine>)
    ensures
        excerpt_view(shown@) == excerpt_of(
            lines_of(output@),
            "error:"@,
            NIX_REBUILD_ERROR_CONTEXT as int,
            lines_of(output@).len() as int,
        ),
{
    excerpt(output, "error:", NIX_REBUILD_ERROR_CONTEXT)
}

/// The result of a command from how it ended: a failure with `message` where
/// it did not succeed.
pub fn command_result(status: ExitStatus, message: &str) -> (r: Result<(), ErrorMessage>)
    ensures
        status.is_success() ==> r is Ok,
        !status.is_success() ==> r is Err && r->Err_0@ == seq![message@]
            && !r->Err_0.ends_foreign(),
{
    if status.success() {
        Ok(())
    } else {
        ErrorMessage::err(message.to_owned())
    }
}

/// The result of a rebuild.
pub fn rebuild_result(status: ExitStatus) -> (r: Result<(), ErrorMessage>)
    ensures
        status.is_success() ==> r is Ok,
        !status.is_success() ==> r is Err && r->Err_0@ == seq!["Rebuilding failed."@]
            && !r->Err_0.ends_foreign(),
{
    command_result(status, "Rebuilding failed.")
}

/// The result of the garbage collection.
pub fn garbage_result(status: ExitStatus) -> (r: Result<(), ErrorMessage>)
    ensures
        status.is_success() ==> r is Ok,
        !status.is_success() ==> r is Err && r->Err_0@ == seq!["nix-collect-garbage failed."@]
            && !r->Err_0.ends_foreign(),
{
    command_result(status, "nix-collect-garbage failed.")
}

/// The result of formatting the configuration.
pub fn format_result(status: ExitStatus) -> (r: Result<(), ErrorMessage>)
    ensures
        status.is_success() ==> r is Ok,
        !status.is_success() ==> r is Err && r->Err_0@ == seq!["Formatting nix config failed!"@]
            && !r->Err_0.ends_foreign(),
{
    command_result(status, "Formatting nix config failed!")
}

/// Whether a line of the formatter's output stands out: it reports a failure
/// or names a place.
pub open spec fn stands_out(line: Seq<char>) -> bool {
    contains_text(line, "Failed!"@) || contains_text(line, " at "@)
}

/// The lines of the formatter's output, each with whether it stands out.
pub fn format_failure_lines(output: &str) -> (shown: Vec<ExcerptLine>)
    ensures
        shown@.len() == lines_of(output@).len(),
        forall|i: int|
            0 <= i < shown@.len() ==> (#[trigger] shown@[i]).text@ == lines_of(output@)[i]
                && shown@[i].marked == stands_out(lines_of(output@)[i]),
{
    let all = lines(output);
    let mut shown: Vec<ExcerptLine> = Vec::new();
    let mut i: usize = 0;
    while i < all.len()
        invariant
            i <= all.len(),
            all.deep_view() == lines_of(output@),
            shown@.len() == i,
            forall|j: int|
                0 <= j < i ==> (#[trigger] shown@[j]).text@ == lines_of(output@)[j]
                    && shown@[j].marked == stands_out(lines_of(output@)[j]),
        decreases all.len() - i,
    {
        let line = all[i].as_str();
        assert(line@ == all.deep_view()[i as int]);
        let marked = contains(line, "Failed!") || contains(line, " at ");
        shown.push(ExcerptLine { marked, text: line.to_owned() });
        i += 1;
    }
    shown
}

/// Whether a diff shows changes: it holds more than whitespace.
pub fn has_changes(diff: &str) -> (changed: bool)
    ensures
        changed == (trimmed(diff@).len() > 0),
{
    !trim(diff).is_empty()
}

/// Whether the run goes on although nothing has changed: only where the user
/// answered with nothing but whitespace.
pub fn confirm_unchanged(user_input: &str) -> (r: Result<(), ErrorMessage>)
    ensures
        trimmed(user_input@).len() == 0 ==> r is Ok,
        trimmed(user_input@).len() > 0 ==> r is Err && r->Err_0@ == seq![
            "User aborted program."@,
        ] && !r->Err_0.ends_foreign(),
{
    if trim(user_input).is_empty() {
        Ok(())
    } else {
        ErrorMessage::err("User aborted program.".to_owned())
    }
}

/// Whether the editor is taken to have exited: the list of its processes is
/// empty, or the list could not be had.
pub fn editor_has_exited(process_list: Option<&str>) -> (exited: bool)
    ensures
        exited == match process_list {
            Some(list) => trimmed(list@).len() == 0,
            None => true,
        },
{
    match process_list {
        Some(list) => trim(list).is_empty(),
        None => true,
    }
}

/// The position of the first line that holds `current`, or the number of
/// lines where none does.
pub open spec fn current_at(lines: Seq<Seq<char>>) -> int
    decreases lines.len(),
{
    if lines.len() == 0 {
        0
    } else if contains_text(lines[0], "current"@) {
        0
    } else {
        1 + current_at(lines.drop_first())
    }
}

/// The first line of a list of generations that holds `current`.
pub open spec fn current_generation_of(listing: Seq<char>) -> Option<Seq<char>> {
    let lines = lines_of(listing);
    if 0 <= current_at(lines) < lines.len() {
        Some(lines[current_at(lines)])
    } else {
        None
    }
}

/// The position found by `current_at` is the first at which a line holds
/// `current`.
pub proof fn lemma_current_at(lines: Seq<Seq<char>>, at: int)
    requires
        0 <= at <= lines.len(),
        at < lines.len() ==> contains_text(lines[at], "current"@),
        forall|i: int| 0 <= i < at ==> !contains_text(#[trigger] lines[i], "current"@),
    ensures
        current_at(lines) == at,
    decreases lines.len(),
{
    if lines.len() > 0 && at > 0 {
        assert(!contains_text(lines[0], "current"@));
        let rest = lines.drop_first();
        assert forall|i: int| 0 <= i < at - 1 implies !contains_text(
            #[trigger] rest[i],
            "current"@,
        ) by {
            assert(rest[i] == lines[i + 1]);
        }
        lemma_current_at(rest, at - 1);
    }
}

/// Finds the current generation in a list of generations.
pub fn current_generation(listing: &str) -> (r: Result<String, ErrorMessage>)
    ensures
        match current_generation_of(listing@) {
            Some(line) => r is Ok && r->Ok_0@ == line,
            None => r is Err && r->Err_0@ == seq!["No current generation found"@]
                && !r->Err_0.ends_foreign(),
        },
{
    let all = lines(listing);
    let mut i: usize = 0;
    while i < all.len() && !contains(all[i].as_str(), "current")
        invariant
            i <= all.len(),
            forall|j: int| 0 <= j < i ==> !contains_text(#[trigger] all.deep_view()[j], "current"@),
        decreases all.len() - i,
    {
        assert(all.deep_view()[i as int] == all@[i as int]@);
        i += 1;
    }
    proof {
        if i < all.len() {
            assert(all.deep_view()[i as int] == all@[i as int]@);
        }
        lemma_current_at(all.deep_view(), i as int);
    }
    if i < all.len() {
        Ok(all[i].clone())
    } else {
        ErrorMessage::err("No current generation found".to_owned())
    }
}

/// What is shown of a generation: where its line has six words or more, its
/// number, date, Nix version and kernel version, which are the first, third,
/// fifth and sixth word; otherwise the line as it is.
pub open spec fn generation_text(line: Seq<char>) -> Seq<char> {
    let fields = words_of(line);
    if fields.len() >= 6 {
        fields[0] + " ("@ + fields[2] + ") Nix: "@ + fields[4] + " Kernel: "@ + fields[5]
    } else {
        line
    }
}

/// Writes what is shown of the generation in `current_generation`.
pub fn generation_summary(current_generation: &str) -> (summary: String)
    ensures
        summary@ == generation_text(current_generation@),
{
    let fields = words(current_generation);
    if fields.len() >= 6 {
        let ghost all = fields.deep_view();
        assert(fields@[0]@ == all[0] && fields@[2]@ == all[2] && fields@[4]@ == all[4]
            && fields@[5]@ == all[5]);
        let mut summary = fields[0].clone();
        summary.append(" (");
        summary.append(fields[2].as_str());
        summary.append(") Nix: ");
        summary.append(fields[4].as_str());
        summary.append(" Kernel: ");
        summary.append(fields[5].as_str());
        summary
    } else {
        current_generation.to_owned()
    }
}

} // verus!
