//! Copying files whose names match a pattern: which file a name stands for.

use crate::error_message::ErrorMessage;
use crate::text::contains;
use crate::text::contains_text;
use crate::text::replace_first;
use crate::text::replaced_first;
use vstd::prelude::*;
use vstd::string::*;

verus! {

/// `regex::Error`, why a text is no pattern.
#[verifier::external_type_specification]
#[verifier::external_body]
pub struct ExRegexError(regex::Error);

/// What the pattern written as `source` captures in `text`: nothing where
/// `source` is no pattern; nothing inside where the pattern does not match;
/// otherwise, for the first match, the text of the whole match and of each
/// group in the order of their opening brackets, a group that took no part
/// in the match being absent.
pub uninterp spec fn captured(source: Seq<char>, text: Seq<char>) -> Option<
    Option<Seq<Option<Seq<char>>>>,
>;

/// Compiles `source` with `regex::Regex::new` and searches `text` with
/// `regex::Regex::captures`, with the groups handed out as strings
/// (`regex::Captures::iter`, `regex::Match::as_str`); the error where the
/// text is no pattern or too large a one. The same pattern and text always
/// give the same result.
#[verifier::external_body]
pub(crate) fn captures(source: &str, text: &str) -> (r: Result<
    Option<Vec<Option<String>>>,
    regex::Error,
>)
    ensures
        captured(source@, text@) == match r {
            Ok(Some(groups)) => Some(Some(groups_view(groups@))),
            Ok(None) => Some(None),
            Err(_) => None,
        },
{
    let pattern = regex::Regex::new(source)?;
    Ok(
        pattern.captures(text).map(
            |found| found.iter().map(|group| group.map(|m| m.as_str().to_owned())).collect(),
        ),
    )
}

/// The `Debug` rendering of a `regex::Error`.
#[verifier::external_body]
pub(crate) fn pattern_error_text(error: &regex::Error) -> (text: String) {
    format!("{:?}", error)
}

/// Groups as sequences.
pub open spec fn groups_view(groups: Seq<Option<String>>) -> Seq<Option<Seq<char>>> {
    Seq::new(
        groups.len(),
        |i: int|
            match groups[i] {
                Some(text) => Some(text@),
                None => None,
            },
    )
}

/// The last of the first `count` groups that took part in the match.
pub open spec fn last_group(groups: Seq<Option<Seq<char>>>, count: int) -> Option<Seq<char>>
    decreases count,
{
    if count <= 0 {
        None
    } else if groups[count - 1] is Some {
        groups[count - 1]
    } else {
        last_group(groups, count - 1)
    }
}

/// The format with its first `{}` filled in: with the last group that took
/// part in the match.
pub open spec fn filled(format: Seq<char>, groups: Seq<Option<Seq<char>>>) -> Seq<char> {
    match last_group(groups, groups.len() as int) {
        Some(text) => replaced_first(format, "{}"@, text),
        None => format,
    }
}

/// The message for a format that still has a `{}` after it was filled in.
pub open spec fn unfilled_message(file_name: Seq<char>, partly: Seq<char>) -> Seq<char> {
    "Target Formatstring still contains {}!\n                    File: "@ + file_name
        + "\n                    Partially filled in formatstring: "@ + partly
        + "\n                    "@
}

/// The path that the format stands for with the groups of a match filled in;
/// a failure where a `{}` is left in it.
pub fn fill_format(target_formatstring: &str, groups: &Vec<Option<String>>, file_name: &str) -> (r:
    Result<String, ErrorMessage>)
    ensures
        ({
            let path = filled(target_formatstring@, groups_view(groups@));
            if contains_text(path, "{}"@) {
                r is Err && r->Err_0@ == seq![unfilled_message(file_name@, path)]
                    && !r->Err_0.ends_foreign()
            } else {
                r is Ok && r->Ok_0@ == path
            }
        }),
{
    let mut target_formatted_string = target_formatstring.to_owned();
    let mut i: usize = 0;
    let ghost all = groups_view(groups@);
    while i < groups.len()
        invariant
            i <= groups.len(),
            all == groups_view(groups@),
            target_formatted_string@ == match last_group(all, i as int) {
                Some(text) => replaced_first(target_formatstring@, "{}"@, text),
                None => target_formatstring@,
            },
        decreases groups.len() - i,
    {
        match &groups[i] {
            Some(capture) => {
                assert(all[i as int] == Some(capture@));
                target_formatted_string = replace_first(target_formatstring, "{}", capture.as_str());
            },
            None => {
                assert(all[i as int] is None);
            },
        }
        i += 1;
    }
    if contains(target_formatted_string.as_str(), "{}") {
        let mut message = "Target Formatstring still contains {}!\n                    File: ".to_owned();
        message.append(file_name);
        message.append("\n                    Partially filled in formatstring: ");
        message.append(target_formatted_string.as_str());
        message.append("\n                    ");
        ErrorMessage::err(message)
    } else {
        Ok(target_formatted_string)
    }
}

/// Whether `source` is a pattern.
pub open spec fn is_pattern(source: Seq<char>) -> bool {
    captured(source, Seq::empty()) is Some
}

/// What `source_path` and `check_pattern` report of a text that is no
/// pattern: a failure that says so and holds the compiler's error as its
/// cause.
pub open spec fn is_pattern_failure(chain: Seq<Seq<char>>) -> bool {
    chain.len() == 2 && chain[0] == "src_file_regex invalid"@
}

fn pattern_failure(error: &regex::Error) -> (failure: ErrorMessage)
    ensures
        is_pattern_failure(failure@),
        failure.ends_foreign(),
{
    ErrorMessage::with_context(
        "src_file_regex invalid".to_owned(),
        ErrorMessage::foreign(pattern_error_text(error)),
    )
}

/// Checks that `src_file_regex` is a pattern for the names of the files.
pub fn check_pattern(src_file_regex: &str) -> (r: Result<(), ErrorMessage>)
    ensures
        is_pattern(src_file_regex@) ==> r is Ok,
        !is_pattern(src_file_regex@) ==> r is Err && is_pattern_failure(r->Err_0@) && r->Err_0.ends_foreign(),
{
    proof {
        reveal_strlit("");
        assert(""@ =~= Seq::<char>::empty());
    }
    match captures(src_file_regex, "") {
        Ok(_) => Ok(()),
        Err(error) => Err(pattern_failure(&error)),
    }
}

/// The text of the whole match, which is the first of the groups.
pub open spec fn whole_match(groups: Seq<Option<Seq<char>>>) -> Option<Seq<char>> {
    if groups.len() > 0 {
        groups[0]
    } else {
        None
    }
}

/// The part of `file_name` that the pattern matches: none where it matches
/// none.
pub fn matched_text(src_file_regex: &str, file_name: &str) -> (r: Result<
    Option<String>,
    ErrorMessage,
>)
    ensures
        match captured(src_file_regex@, file_name@) {
            None => r is Err && is_pattern_failure(r->Err_0@) && r->Err_0.ends_foreign(),
            Some(None) => r matches Ok(None),
            Some(Some(groups)) => r is Ok && whole_match(groups) == match r->Ok_0 {
                Some(text) => Some(text@),
                None => None,
            },
        },
{
    match captures(src_file_regex, file_name) {
        Err(error) => Err(pattern_failure(&error)),
        Ok(None) => Ok(None),
        Ok(Some(groups)) => {
            let mut groups = groups;
            if groups.len() > 0 {
                assert(groups_view(groups@)[0] == match groups@[0] {
                    Some(text) => Some(text@),
                    None => None,
                });
                Ok(groups.swap_remove(0))
            } else {
                Ok(None)
            }
        },
    }
}

/// The path that is copied for the file `file_name`: none where the name
/// does not match the pattern, and otherwise the format with the groups of
/// the match filled in.
pub fn source_path(src_file_regex: &str, target_formatstring: &str, file_name: &str) -> (r:
    Result<Option<String>, ErrorMessage>)
    ensures
        match captured(src_file_regex@, file_name@) {
            None => r is Err && is_pattern_failure(r->Err_0@) && r->Err_0.ends_foreign(),
            Some(None) => r matches Ok(None),
            Some(Some(groups)) => {
                let path = filled(target_formatstring@, groups);
                if contains_text(path, "{}"@) {
                    r is Err && r->Err_0@ == seq![unfilled_message(file_name@, path)]
                        && !r->Err_0.ends_foreign()
                } else {
                    r matches Ok(Some(found)) && found@ == path
                }
            },
        },
{
    match captures(src_file_regex, file_name) {
        Err(error) => Err(pattern_failure(&error)),
        Ok(None) => Ok(None),
        Ok(Some(groups)) => match fill_format(target_formatstring, &groups, file_name) {
            Ok(path) => Ok(Some(path)),
            Err(error) => Err(error),
        },
    }
}

} // verus!
