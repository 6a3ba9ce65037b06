//! Audio sinks and sources: the names in a listing, and which one is next.

use crate::error_message::ErrorMessage;
use crate::text::ascending;
use crate::text::contains;
use crate::text::contains_text;
use crate::text::lines;
use crate::text::lines_of;
use crate::text::same_text;
use crate::text::sort;
use crate::text::split;
use crate::text::split_on;
use crate::text::trim;
use crate::text::trimmed;
use vstd::prelude::*;
use vstd::string::*;

verus! {

/// The name in a line of a listing: what stands between the first and the
/// second tabulator; nothing where the line has no tabulator.
pub open spec fn name_in(line: Seq<char>) -> Option<Seq<char>> {
    let fields = split_on(line, '\t');
    if fields.len() >= 2 {
        Some(fields[1])
    } else {
        None
    }
}

/// Whether a line of a listing counts: with `skip_monitors`, the lines that
/// hold `.monitor` do not.
pub open spec fn listed(line: Seq<char>, skip_monitors: bool) -> bool {
    !(skip_monitors && contains_text(line, ".monitor"@))
}

/// The names in the first `count` lines, in the order of the lines.
pub open spec fn names_in(lines: Seq<Seq<char>>, skip_monitors: bool, count: int) -> Seq<
    Seq<char>,
>
    decreases count,
{
    if count <= 0 {
        Seq::empty()
    } else {
        let earlier = names_in(lines, skip_monitors, count - 1);
        let line = lines[count - 1];
        if listed(line, skip_monitors) && name_in(line) is Some {
            earlier.push(name_in(line)->0)
        } else {
            earlier
        }
    }
}

/// The names in a listing, in the order of its lines.
pub fn listed_names(listing: &str, skip_monitors: bool) -> (names: Vec<String>)
    ensures
        names.deep_view() == names_in(lines_of(listing@), skip_monitors, lines_of(listing@).len() as int),
{
    let all = lines(listing);
    let mut names: Vec<String> = Vec::new();
    let mut i: usize = 0;
    assert(names.deep_view() =~= Seq::<Seq<char>>::empty());
    while i < all.len()
        invariant
            i <= all.len(),
            all.deep_view() == lines_of(listing@),
            names.deep_view() == names_in(all.deep_view(), skip_monitors, i as int),
        decreases all.len() - i,
    {
        let line = all[i].as_str();
        assert(line@ == all.deep_view()[i as int]);
        let ghost earlier = names.deep_view();
        if !(skip_monitors && contains(line, ".monitor")) {
            let mut fields = split(line, '\t');
            if fields.len() >= 2 {
                assert(fields@[1]@ == fields.deep_view()[1]);
                let name = fields.swap_remove(1);
                names.push(name);
                assert(names.deep_view() =~= earlier.push(name@));
            }
        }
        i += 1;
    }
    names
}

/// The names of the sinks in a listing, in ascending order.
pub fn list_all_sinks(listing: &str) -> (all_sinks: Vec<String>)
    ensures
        ascending(all_sinks.deep_view()),
        all_sinks.deep_view().to_multiset() == names_in(
            lines_of(listing@),
            false,
            lines_of(listing@).len() as int,
        ).to_multiset(),
{
    sort(listed_names(listing, false))
}

/// The names of the sources in a listing, without the monitors of sinks, in
/// ascending order.
pub fn list_all_sources(listing: &str) -> (all_sources: Vec<String>)
    ensures
        ascending(all_sources.deep_view()),
        all_sources.deep_view().to_multiset() == names_in(
            lines_of(listing@),
            true,
            lines_of(listing@).len() as int,
        ).to_multiset(),
{
    sort(listed_names(listing, true))
}

/// The name of the default device as it was printed: without the whitespace
/// around it.
pub fn default_device(output: &str) -> (name: String)
    ensures
        name@ == trimmed(output@),
{
    trim(output).to_owned()
}

/// The position of the first of `all` that equals `current`, or the length of
/// `all` where none does.
pub open spec fn position_of(all: Seq<Seq<char>>, current: Seq<char>) -> int
    decreases all.len(),
{
    if all.len() == 0 {
        0
    } else if all[0] == current {
        0
    } else {
        1 + position_of(all.drop_first(), current)
    }
}

/// The device that follows `current`: the one behind its first occurrence in
/// `all`, and the first of `all` where it is the last or does not occur.
/// Nothing where `all` is empty.
pub open spec fn next_device(all: Seq<Seq<char>>, current: Seq<char>) -> Option<Seq<char>> {
    if all.len() == 0 {
        None
    } else if position_of(all, current) + 1 < all.len() {
        Some(all[position_of(all, current) + 1])
    } else {
        Some(all[0])
    }
}

/// The position of `current` lies between 0 and the length, and nothing
/// before it equals `current`.
pub proof fn lemma_position_of(all: Seq<Seq<char>>, current: Seq<char>)
    ensures
        0 <= position_of(all, current) <= all.len(),
        position_of(all, current) < all.len() ==> all[position_of(all, current)] == current,
        forall|i: int| 0 <= i < position_of(all, current) ==> all[i] != current,
    decreases all.len(),
{
    if all.len() > 0 && all[0] != current {
        lemma_position_of(all.drop_first(), current);
        let rest = position_of(all.drop_first(), current);
        assert forall|i: int| 0 <= i < rest + 1 implies all[i] != current by {
            if i > 0 {
                assert(all.drop_first()[i - 1] == all[i]);
            }
        }
    }
}

/// The position of `current` is the first index at which it stands.
pub proof fn lemma_position_is_first(all: Seq<Seq<char>>, current: Seq<char>, at: int)
    requires
        0 <= at <= all.len(),
        at < all.len() ==> all[at] == current,
        forall|i: int| 0 <= i < at ==> all[i] != current,
    ensures
        position_of(all, current) == at,
{
    lemma_position_of(all, current);
}

fn next_of(all: &[String], current: &str, none_found: &str) -> (r: Result<String, ErrorMessage>)
    ensures
        match next_device(all.deep_view(), current@) {
            Some(next) => r is Ok && r->Ok_0@ == next,
            None => r is Err && r->Err_0@ == seq![none_found@]
                && !r->Err_0.ends_foreign(),
        },
{
    if all.len() == 0 {
        return ErrorMessage::err(none_found.to_owned());
    }
    let mut i: usize = 0;
    while i < all.len() && !same_text(all[i].as_str(), current)
        invariant
            i <= all.len(),
            forall|j: int| 0 <= j < i ==> all.deep_view()[j] != current@,
        decreases all.len() - i,
    {
        assert(all.deep_view()[i as int] == all@[i as int]@);
        i += 1;
    }
    proof {
        if i < all.len() {
            assert(all.deep_view()[i as int] == all@[i as int]@);
        }
        lemma_position_is_first(all.deep_view(), current@, i as int);
    }
    if i < all.len() && i + 1 < all.len() {
        Ok(all[i + 1].clone())
    } else {
        Ok(all[0].clone())
    }
}

/// The sink that follows `current_sink` in `all_sinks`; a failure where there
/// are no sinks.
pub fn find_next_sink(all_sinks: Vec<String>, current_sink: String) -> (r: Result<
    String,
    ErrorMessage,
>)
    ensures
        match next_device(all_sinks.deep_view(), current_sink@) {
            Some(next) => r is Ok && r->Ok_0@ == next,
            None => r is Err && r->Err_0@ == seq!["No sinks found!"@]
                && !r->Err_0.ends_foreign(),
        },
{
    next_of(all_sinks.as_slice(), current_sink.as_str(), "No sinks found!")
}

/// The source that follows `current_source` in `all_sources`; a failure where
/// there are no sources.
pub fn find_next_source(all_sources: &[String], current_source: &str) -> (r: Result<
    String,
    ErrorMessage,
>)
    ensures
        match next_device(all_sources.deep_view(), current_source@) {
            Some(next) => r is Ok && r->Ok_0@ == next,
            None => r is Err && r->Err_0@ == seq!["No sources found!"@]
                && !r->Err_0.ends_foreign(),
        },
{
    next_of(all_sources, current_source, "No sources found!")
}

} // verus!
