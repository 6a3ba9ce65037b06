//! Searching, cutting and building text.
//!
//! Text is modelled as a sequence of characters. Each function says over
//! such sequences what it returns, and does its work on the characters of
//! its arguments.

use vstd::prelude::*;
use vstd::string::*;

verus! {

/// Whether `pattern` stands in `text` at position `at`.
pub open spec fn occurs_at(text: Seq<char>, pattern: Seq<char>, at: int) -> bool {
    0 <= at && at + pattern.len() <= text.len() && text.subrange(at, at + pattern.len())
        == pattern
}

/// Whether `pattern` stands somewhere in `text`.
pub open spec fn contains_text(text: Seq<char>, pattern: Seq<char>) -> bool {
    exists|at: int| occurs_at(text, pattern, at)
}

/// Whether `at` is the first position at which `pattern` stands in `text`.
pub open spec fn first_occurrence(text: Seq<char>, pattern: Seq<char>, at: int) -> bool {
    occurs_at(text, pattern, at) && forall|earlier: int|
        0 <= earlier < at ==> !occurs_at(text, pattern, earlier)
}

/// Whether `text` begins with `prefix`.
pub open spec fn starts_with_text(text: Seq<char>, prefix: Seq<char>) -> bool {
    occurs_at(text, prefix, 0)
}

/// Whether `text` ends with `suffix`.
pub open spec fn ends_with_text(text: Seq<char>, suffix: Seq<char>) -> bool {
    occurs_at(text, suffix, text.len() - suffix.len())
}

/// The characters with the Unicode property `White_Space`.
pub open spec fn is_whitespace(c: char) -> bool {
    let code = c as int;
    ||| 0x09 <= code <= 0x0d
    ||| code == 0x20
    ||| code == 0x85
    ||| code == 0xa0
    ||| code == 0x1680
    ||| 0x2000 <= code <= 0x200a
    ||| code == 0x2028
    ||| code == 0x2029
    ||| code == 0x202f
    ||| code == 0x205f
    ||| code == 0x3000
}

/// `text` without the whitespace at its beginning.
pub open spec fn trimmed_start(text: Seq<char>) -> Seq<char>
    decreases text.len(),
{
    if text.len() > 0 && is_whitespace(text[0]) {
        trimmed_start(text.drop_first())
    } else {
        text
    }
}

/// `text` without the whitespace at its end.
pub open spec fn trimmed_end(text: Seq<char>) -> Seq<char>
    decreases text.len(),
{
    if text.len() > 0 && is_whitespace(text.last()) {
        trimmed_end(text.drop_last())
    } else {
        text
    }
}

/// `text` without the whitespace at its beginning and at its end.
pub open spec fn trimmed(text: Seq<char>) -> Seq<char> {
    trimmed_end(trimmed_start(text))
}

/// The length of the word that `text` begins with: the number of characters
/// before the first whitespace.
pub open spec fn word_end(text: Seq<char>) -> int
    decreases text.len(),
{
    if text.len() == 0 || is_whitespace(text[0]) {
        0
    } else {
        1 + word_end(text.drop_first())
    }
}

/// The words of `text`: the longest pieces without whitespace, in order.
pub open spec fn words_of(text: Seq<char>) -> Seq<Seq<char>>
    decreases text.len(),
{
    if text.len() == 0 {
        Seq::empty()
    } else if is_whitespace(text[0]) {
        words_of(text.drop_first())
    } else {
        let end = word_end(text);
        if 0 < end <= text.len() {
            seq![text.take(end)] + words_of(text.skip(end))
        } else {
            Seq::empty()
        }
    }
}

/// The position of the first `c` in `text`, or the length of `text` where
/// there is none.
pub open spec fn first_index_of(text: Seq<char>, c: char) -> int
    decreases text.len(),
{
    if text.len() == 0 {
        0
    } else if text[0] == c {
        0
    } else {
        1 + first_index_of(text.drop_first(), c)
    }
}

/// The pieces of `text` between the occurrences of `separator`: one more
/// piece than there are separators.
pub open spec fn split_on(text: Seq<char>, separator: char) -> Seq<Seq<char>>
    decreases text.len(),
{
    let at = first_index_of(text, separator);
    if 0 <= at < text.len() {
        seq![text.take(at)] + split_on(text.skip(at + 1), separator)
    } else {
        seq![text]
    }
}

/// A line without the carriage return that stood before its line feed.
pub open spec fn without_carriage_return(line: Seq<char>) -> Seq<char> {
    if line.len() > 0 && line.last() == '\r' {
        line.drop_last()
    } else {
        line
    }
}

/// The lines of `text`: it is cut behind each line feed, the line feed and a
/// carriage return directly before it are left out, and what follows the last
/// line feed is a line only where it is not empty.
pub open spec fn lines_of(text: Seq<char>) -> Seq<Seq<char>>
    decreases text.len(),
{
    if text.len() == 0 {
        Seq::empty()
    } else {
        let at = first_index_of(text, '\n');
        if 0 <= at < text.len() {
            seq![without_carriage_return(text.take(at))] + lines_of(text.skip(at + 1))
        } else {
            seq![text]
        }
    }
}

/// The first position at which `pattern` stands in `text`, where it occurs.
pub open spec fn first_at(text: Seq<char>, pattern: Seq<char>) -> int {
    choose|at: int| first_occurrence(text, pattern, at)
}

/// `text` cut at the first occurrence of `pattern` into what stands before it
/// and what stands behind it; nothing where `pattern` does not occur.
pub open spec fn split_once_of(text: Seq<char>, pattern: Seq<char>) -> Option<
    (Seq<char>, Seq<char>),
> {
    if contains_text(text, pattern) {
        let at = first_at(text, pattern);
        Some((text.take(at), text.skip(at + pattern.len())))
    } else {
        None
    }
}

/// `text` with the first occurrence of `pattern` replaced by `with`, where
/// there is one.
pub open spec fn replaced_first(text: Seq<char>, pattern: Seq<char>, with: Seq<char>) -> Seq<
    char,
> {
    match split_once_of(text, pattern) {
        Some((before, after)) => before + with + after,
        None => text,
    }
}

/// `text` with `with` before each of its characters and behind the last.
pub open spec fn interleaved(text: Seq<char>, with: Seq<char>) -> Seq<char>
    decreases text.len(),
{
    if text.len() == 0 {
        with
    } else {
        with + seq![text[0]] + interleaved(text.drop_first(), with)
    }
}

/// `text` with every occurrence of `pattern` replaced by `with`, the
/// occurrences taken from the left without overlap. The empty pattern occurs
/// before each character and behind the last.
pub open spec fn replaced_all(text: Seq<char>, pattern: Seq<char>, with: Seq<char>) -> Seq<char>
    decreases text.len(),
{
    if pattern.len() == 0 {
        interleaved(text, with)
    } else if text.len() < pattern.len() {
        text
    } else if text.take(pattern.len() as int) == pattern {
        with + replaced_all(text.skip(pattern.len() as int), pattern, with)
    } else {
        seq![text[0]] + replaced_all(text.drop_first(), pattern, with)
    }
}

/// The texts of `pieces` one behind the other.
pub open spec fn concatenated(pieces: Seq<Seq<char>>) -> Seq<char>
    decreases pieces.len(),
{
    if pieces.len() == 0 {
        Seq::empty()
    } else {
        concatenated(pieces.drop_last()) + pieces.last()
    }
}

/// Whether `a` comes before `b` or equals it where texts are compared
/// character by character, by their codes, a prefix before what it is a
/// prefix of.
pub open spec fn text_le(a: Seq<char>, b: Seq<char>) -> bool
    decreases a.len(),
{
    if a.len() == 0 {
        true
    } else if b.len() == 0 {
        false
    } else if a[0] != b[0] {
        (a[0] as int) < (b[0] as int)
    } else {
        text_le(a.drop_first(), b.drop_first())
    }
}

/// Whether each of `texts` comes before the next or equals it.
pub open spec fn ascending(texts: Seq<Seq<char>>) -> bool {
    forall|i: int, j: int| 0 <= i <= j < texts.len() ==> text_le(texts[i], texts[j])
}

/// The decimal digits of `n`, without leading zeros.
pub open spec fn decimal(n: nat) -> Seq<char>
    decreases n,
{
    let digit = seq!['0', '1', '2', '3', '4', '5', '6', '7', '8', '9'][(n % 10) as int];
    if n < 10 {
        seq![digit]
    } else {
        decimal(n / 10).push(digit)
    }
}

/// `std::string::String::push`: the string afterwards is the string before
/// with `c` as one more character at its end.
#[verifier::external_body]
pub(crate) fn push_char(text: &mut String, c: char)
    ensures
        final(text)@ == old(text)@.push(c),
{
    text.push(c)
}

/// The characters of `text`.
pub fn chars_of(text: &str) -> (all: Vec<char>)
    ensures
        all@ == text@,
{
    let mut all: Vec<char> = Vec::new();
    for c in it: text.chars()
        invariant
            all@ == it.seq().take(it.index() as int),
            it.seq() == text@,
    {
        all.push(c);
    }
    all
}

/// The characters of `chars` from `from` up to `to`, as a string.
pub fn text_between(chars: &Vec<char>, from: usize, to: usize) -> (text: String)
    requires
        from <= to <= chars@.len(),
    ensures
        text@ == chars@.subrange(from as int, to as int),
{
    let mut text = String::new();
    let mut i = from;
    while i < to
        invariant
            from <= i <= to <= chars@.len(),
            text@ == chars@.subrange(from as int, i as int),
        decreases to - i,
    {
        push_char(&mut text, chars[i]);
        i += 1;
        assert(text@ =~= chars@.subrange(from as int, i as int));
    }
    text
}

/// Whether `pattern` stands in `text` at position `at`.
pub fn matches_at(text: &Vec<char>, pattern: &Vec<char>, at: usize) -> (found: bool)
    ensures
        found == occurs_at(text@, pattern@, at as int),
{
    if pattern.len() > text.len() || at > text.len() - pattern.len() {
        return false;
    }
    let mut i: usize = 0;
    while i < pattern.len()
        invariant
            i <= pattern.len(),
            at + pattern.len() <= text.len(),
            text@.subrange(at as int, at + i) == pattern@.take(i as int),
        decreases pattern.len() - i,
    {
        if text[at + i] != pattern[i] {
            assert(text@.subrange(at as int, at + pattern.len())[i as int] != pattern@[i as int]);
            return false;
        }
        i += 1;
        assert(text@.subrange(at as int, at + i) =~= text@.subrange(at as int, at + i - 1).push(
            text@[at + i - 1],
        ));
        assert(pattern@.take(i as int) =~= pattern@.take(i - 1).push(pattern@[i - 1]));
    }
    assert(pattern@.take(i as int) =~= pattern@);
    true
}

/// The first position at which a pattern stands is the only one that
/// nothing stands before.
pub proof fn lemma_first_at(text: Seq<char>, pattern: Seq<char>, at: int)
    requires
        first_occurrence(text, pattern, at),
    ensures
        contains_text(text, pattern),
        first_at(text, pattern) == at,
{
    let chosen = first_at(text, pattern);
    assert(first_occurrence(text, pattern, chosen));
    if chosen < at {
        assert(!occurs_at(text, pattern, chosen));
    }
    if at < chosen {
        assert(!occurs_at(text, pattern, at));
    }
}

/// The first position at which `pattern` stands in `text`, if there is one.
pub fn find(text: &Vec<char>, pattern: &Vec<char>) -> (found: Option<usize>)
    ensures
        match found {
            Some(at) => first_occurrence(text@, pattern@, at as int),
            None => !contains_text(text@, pattern@),
        },
{
    if pattern.len() > text.len() {
        return None;
    }
    let last = text.len() - pattern.len();
    let mut at: usize = 0;
    while at <= last
        invariant
            last == text.len() - pattern.len(),
            forall|earlier: int| 0 <= earlier < at ==> !occurs_at(text@, pattern@, earlier),
        decreases last + 1 - at,
    {
        if matches_at(text, pattern, at) {
            return Some(at);
        }
        if at == last {
            return None;
        }
        at += 1;
    }
    None
}

/// Whether `a` and `b` hold the same characters.
pub fn same_text(a: &str, b: &str) -> (same: bool)
    ensures
        same == (a@ == b@),
{
    let left = chars_of(a);
    let right = chars_of(b);
    let same = left.len() == right.len() && matches_at(&left, &right, 0);
    proof {
        if left.len() == right.len() {
            assert(left@.subrange(0, right@.len() as int) =~= left@);
        }
    }
    same
}

/// Whether `pattern` stands somewhere in `text`.
pub fn contains(text: &str, pattern: &str) -> (found: bool)
    ensures
        found == contains_text(text@, pattern@),
{
    find(&chars_of(text), &chars_of(pattern)).is_some()
}

/// Whether `text` begins with `prefix`.
pub fn starts_with(text: &str, prefix: &str) -> (found: bool)
    ensures
        found == starts_with_text(text@, prefix@),
{
    matches_at(&chars_of(text), &chars_of(prefix), 0)
}

/// Whether `text` ends with `suffix`.
pub fn ends_with(text: &str, suffix: &str) -> (found: bool)
    ensures
        found == ends_with_text(text@, suffix@),
{
    let all = chars_of(text);
    let end = chars_of(suffix);
    if end.len() > all.len() {
        false
    } else {
        matches_at(&all, &end, all.len() - end.len())
    }
}

/// Whether `c` is whitespace.
pub fn whitespace(c: char) -> (white: bool)
    ensures
        white == is_whitespace(c),
{
    let code = c as u32;
    (0x09 <= code && code <= 0x0d) || code == 0x20 || code == 0x85 || code == 0xa0 || code
        == 0x1680 || (0x2000 <= code && code <= 0x200a) || code == 0x2028 || code == 0x2029
        || code == 0x202f || code == 0x205f || code == 0x3000
}

/// Text that begins with `count` characters of whitespace and then goes on
/// with another character, or ends, is trimmed at its beginning by skipping
/// them.
pub proof fn lemma_trimmed_start(text: Seq<char>, count: int)
    requires
        0 <= count <= text.len(),
        forall|i: int| 0 <= i < count ==> is_whitespace(#[trigger] text[i]),
        count < text.len() ==> !is_whitespace(text[count]),
    ensures
        trimmed_start(text) == text.skip(count),
    decreases count,
{
    if count == 0 {
        assert(text.skip(0) =~= text);
    } else {
        let rest = text.drop_first();
        assert forall|i: int| 0 <= i < count - 1 implies is_whitespace(#[trigger] rest[i]) by {
            assert(rest[i] == text[i + 1]);
        }
        lemma_trimmed_start(rest, count - 1);
        assert(rest.skip(count - 1) =~= text.skip(count));
    }
}

/// Text that ends with whitespace from position `keep` on, with another
/// character before it or none, is trimmed at its end by keeping what
/// stands before `keep`.
pub proof fn lemma_trimmed_end(text: Seq<char>, keep: int)
    requires
        0 <= keep <= text.len(),
        forall|i: int| keep <= i < text.len() ==> is_whitespace(#[trigger] text[i]),
        keep > 0 ==> !is_whitespace(text[keep - 1]),
    ensures
        trimmed_end(text) == text.take(keep),
    decreases text.len() - keep,
{
    if keep == text.len() {
        assert(text.take(keep) =~= text);
    } else {
        let rest = text.drop_last();
        assert forall|i: int| keep <= i < rest.len() implies is_whitespace(#[trigger] rest[i]) by {
            assert(rest[i] == text[i]);
        }
        lemma_trimmed_end(rest, keep);
        assert(rest.take(keep) =~= text.take(keep));
    }
}

/// The number of characters of whitespace that `chars` has from `from` on
/// before another character or the end.
fn whitespace_from(chars: &Vec<char>, from: usize) -> (count: usize)
    requires
        from <= chars@.len(),
    ensures
        from + count <= chars@.len(),
        forall|i: int| from <= i < from + count ==> is_whitespace(#[trigger] chars@[i]),
        from + count < chars@.len() ==> !is_whitespace(chars@[from + count]),
{
    let mut i = from;
    while i < chars.len() && whitespace(chars[i])
        invariant
            from <= i <= chars@.len(),
            forall|j: int| from <= j < i ==> is_whitespace(#[trigger] chars@[j]),
        decreases chars@.len() - i,
    {
        i += 1;
    }
    i - from
}

/// The position behind the last character of `chars` before `to` that is no
/// whitespace, but not before `from`.
fn whitespace_until(chars: &Vec<char>, from: usize, to: usize) -> (keep: usize)
    requires
        from <= to <= chars@.len(),
    ensures
        from <= keep <= to,
        forall|i: int| keep <= i < to ==> is_whitespace(#[trigger] chars@[i]),
        keep > from ==> !is_whitespace(chars@[keep - 1]),
{
    let mut keep = to;
    while keep > from && whitespace(chars[keep - 1])
        invariant
            from <= keep <= to <= chars@.len(),
            forall|j: int| keep <= j < to ==> is_whitespace(#[trigger] chars@[j]),
        decreases keep,
    {
        keep -= 1;
    }
    keep
}

/// `text` without the whitespace at its beginning and at its end.
pub fn trim(text: &str) -> (rest: &str)
    ensures
        rest@ == trimmed(text@),
{
    let chars = chars_of(text);
    let from = whitespace_from(&chars, 0);
    let to = whitespace_until(&chars, from, chars.len());
    proof {
        lemma_trimmed_start(text@, from as int);
        let tail = text@.skip(from as int);
        assert forall|i: int| to - from <= i < tail.len() implies is_whitespace(
            #[trigger] tail[i],
        ) by {
            assert(tail[i] == text@[from + i]);
        }
        if to > from {
            assert(tail[to - from - 1] == text@[to - 1]);
        }
        lemma_trimmed_end(tail, to - from);
        assert(tail.take(to - from) =~= text@.subrange(from as int, to as int));
    }
    text.substring_char(from, to)
}

/// `text` without the whitespace at its end.
pub fn trim_end(text: &str) -> (rest: &str)
    ensures
        rest@ == trimmed_end(text@),
{
    let chars = chars_of(text);
    let to = whitespace_until(&chars, 0, chars.len());
    proof {
        lemma_trimmed_end(text@, to as int);
        assert(text@.take(to as int) =~= text@.subrange(0, to as int));
    }
    text.substring_char(0, to)
}

/// The first `c` in a text stands where no `c` stands before; without a `c`
/// the position is the length.
pub proof fn lemma_first_index_of(text: Seq<char>, c: char, at: int)
    requires
        0 <= at <= text.len(),
        forall|i: int| 0 <= i < at ==> #[trigger] text[i] != c,
        at < text.len() ==> text[at] == c,
    ensures
        first_index_of(text, c) == at,
    decreases at,
{
    if at > 0 {
        let rest = text.drop_first();
        assert forall|i: int| 0 <= i < at - 1 implies #[trigger] rest[i] != c by {
            assert(rest[i] == text[i + 1]);
        }
        assert(at - 1 < rest.len() ==> rest[at - 1] == c);
        lemma_first_index_of(rest, c, at - 1);
    } else if text.len() == 0 {
    }
}

/// Each of `pieces` as a sequence, with `piece` behind them.
proof fn lemma_push_piece(before: Seq<String>, piece: String, after: Seq<String>)
    requires
        after == before.push(piece),
    ensures
        Seq::new(after.len(), |i: int| after[i].deep_view()) == Seq::new(
            before.len(),
            |i: int| before[i].deep_view(),
        ).push(piece@),
{
    assert(Seq::new(after.len(), |i: int| after[i].deep_view()) =~= Seq::new(
        before.len(),
        |i: int| before[i].deep_view(),
    ).push(piece@));
}

/// The pieces of `text` between the occurrences of `separator`, each as a
/// string of its own.
pub fn split(text: &str, separator: char) -> (pieces: Vec<String>)
    ensures
        pieces.deep_view() == split_on(text@, separator),
{
    let chars = chars_of(text);
    let mut pieces: Vec<String> = Vec::new();
    let mut start: usize = 0;
    let mut i: usize = 0;
    assert(text@.skip(0) =~= text@);
    assert(pieces.deep_view() =~= Seq::<Seq<char>>::empty());
    while i < chars.len()
        invariant
            start <= i <= chars@.len(),
            chars@ == text@,
            split_on(text@, separator) == pieces.deep_view() + split_on(
                text@.skip(start as int),
                separator,
            ),
            forall|j: int| start <= j < i ==> #[trigger] text@[j] != separator,
        decreases chars@.len() - i,
    {
        if chars[i] == separator {
            let ghost tail = text@.skip(start as int);
            let ghost before = pieces@;
            let ghost done = pieces.deep_view();
            proof {
                assert forall|j: int| 0 <= j < i - start implies #[trigger] tail[j] != separator by {
                    assert(tail[j] == text@[start + j]);
                }
                lemma_first_index_of(tail, separator, i - start);
                assert(tail.take(i - start) =~= text@.subrange(start as int, i as int));
                assert(tail.skip(i - start + 1) =~= text@.skip(i + 1));
            }
            let piece = text_between(&chars, start, i);
            pieces.push(piece);
            proof {
                lemma_push_piece(before, piece, pieces@);
                assert(pieces.deep_view() =~= done.push(piece@));
                assert(done + (seq![piece@] + split_on(text@.skip(i + 1), separator))
                    =~= done.push(piece@) + split_on(text@.skip(i + 1), separator));
            }
            start = i + 1;
        }
        i += 1;
    }
    let ghost tail = text@.skip(start as int);
    let ghost before = pieces@;
    let ghost done = pieces.deep_view();
    proof {
        assert forall|j: int| 0 <= j < tail.len() implies #[trigger] tail[j] != separator by {
            assert(tail[j] == text@[start + j]);
        }
        lemma_first_index_of(tail, separator, tail.len() as int);
        assert(tail =~= text@.subrange(start as int, chars@.len() as int));
    }
    let piece = text_between(&chars, start, chars.len());
    pieces.push(piece);
    proof {
        lemma_push_piece(before, piece, pieces@);
        assert(pieces.deep_view() =~= done.push(piece@));
        assert(done + seq![piece@] =~= done.push(piece@));
    }
    pieces
}

/// The lines of `text`, each as a string of its own. Lines end in a line
/// feed or in a carriage return and a line feed; neither is part of the
/// line, and a last line need not end in one.
pub fn lines(text: &str) -> (all: Vec<String>)
    ensures
        all.deep_view() == lines_of(text@),
{
    let chars = chars_of(text);
    let mut all: Vec<String> = Vec::new();
    let mut start: usize = 0;
    let mut i: usize = 0;
    assert(text@.skip(0) =~= text@);
    assert(all.deep_view() =~= Seq::<Seq<char>>::empty());
    while i < chars.len()
        invariant
            start <= i <= chars@.len(),
            chars@ == text@,
            lines_of(text@) == all.deep_view() + lines_of(text@.skip(start as int)),
            forall|j: int| start <= j < i ==> #[trigger] text@[j] != '\n',
        decreases chars@.len() - i,
    {
        if chars[i] == '\n' {
            let ghost tail = text@.skip(start as int);
            let ghost before = all@;
            let ghost done = all.deep_view();
            proof {
                assert forall|j: int| 0 <= j < i - start implies #[trigger] tail[j] != '\n' by {
                    assert(tail[j] == text@[start + j]);
                }
                lemma_first_index_of(tail, '\n', i - start);
                assert(tail.take(i - start) =~= text@.subrange(start as int, i as int));
                assert(tail.skip(i - start + 1) =~= text@.skip(i + 1));
            }
            let end = if i > start && chars[i - 1] == '\r' {
                i - 1
            } else {
                i
            };
            let line = text_between(&chars, start, end);
            proof {
                let raw = text@.subrange(start as int, i as int);
                assert(line@ =~= without_carriage_return(raw));
            }
            all.push(line);
            proof {
                lemma_push_piece(before, line, all@);
                assert(all.deep_view() =~= done.push(line@));
                assert(done + (seq![line@] + lines_of(text@.skip(i + 1))) =~= done.push(line@)
                    + lines_of(text@.skip(i + 1)));
            }
            start = i + 1;
        }
        i += 1;
    }
    if start < chars.len() {
        let ghost tail = text@.skip(start as int);
        let ghost before = all@;
        let ghost done = all.deep_view();
        proof {
            assert forall|j: int| 0 <= j < tail.len() implies #[trigger] tail[j] != '\n' by {
                assert(tail[j] == text@[start + j]);
            }
            lemma_first_index_of(tail, '\n', tail.len() as int);
            assert(tail =~= text@.subrange(start as int, chars@.len() as int));
        }
        let line = text_between(&chars, start, chars.len());
        all.push(line);
        proof {
            lemma_push_piece(before, line, all@);
            assert(all.deep_view() =~= done.push(line@));
            assert(done + seq![line@] =~= done.push(line@));
        }
    } else {
        assert(all.deep_view() + Seq::<Seq<char>>::empty() =~= all.deep_view());
    }
    all
}

/// A word ends where the first whitespace stands, or where the text ends.
pub proof fn lemma_word_end(text: Seq<char>, end: int)
    requires
        0 <= end <= text.len(),
        forall|i: int| 0 <= i < end ==> !is_whitespace(#[trigger] text[i]),
        end < text.len() ==> is_whitespace(text[end]),
    ensures
        word_end(text) == end,
    decreases end,
{
    if end > 0 {
        let rest = text.drop_first();
        assert forall|i: int| 0 <= i < end - 1 implies !is_whitespace(#[trigger] rest[i]) by {
            assert(rest[i] == text[i + 1]);
        }
        assert(end - 1 < rest.len() ==> rest[end - 1] == text[end]);
        lemma_word_end(rest, end - 1);
    }
}

/// The words of `text`: the pieces that whitespace stands between, none of
/// them empty, each as a string of its own.
pub fn words(text: &str) -> (all: Vec<String>)
    ensures
        all.deep_view() == words_of(text@),
{
    let chars = chars_of(text);
    let mut all: Vec<String> = Vec::new();
    let mut i: usize = 0;
    assert(text@.skip(0) =~= text@);
    assert(all.deep_view() =~= Seq::<Seq<char>>::empty());
    while i < chars.len()
        invariant
            i <= chars@.len(),
            chars@ == text@,
            words_of(text@) == all.deep_view() + words_of(text@.skip(i as int)),
        decreases chars@.len() - i,
    {
        let ghost tail = text@.skip(i as int);
        assert(tail[0] == text@[i as int]);
        if whitespace(chars[i]) {
            assert(tail.drop_first() =~= text@.skip(i + 1));
            i += 1;
        } else {
            let start = i;
            let mut end = i + 1;
            while end < chars.len() && !whitespace(chars[end])
                invariant
                    start < end <= chars@.len(),
                    chars@ == text@,
                    forall|j: int| start <= j < end ==> !is_whitespace(#[trigger] text@[j]),
                decreases chars@.len() - end,
            {
                end += 1;
            }
            let ghost before = all@;
            let ghost done = all.deep_view();
            proof {
                assert forall|j: int| 0 <= j < end - start implies !is_whitespace(
                    #[trigger] tail[j],
                ) by {
                    assert(tail[j] == text@[start + j]);
                }
                if end < chars@.len() {
                    assert(tail[end - start] == text@[end as int]);
                }
                lemma_word_end(tail, end - start);
                assert(tail.take(end - start) =~= text@.subrange(start as int, end as int));
                assert(tail.skip(end - start) =~= text@.skip(end as int));
            }
            let word = text_between(&chars, start, end);
            all.push(word);
            proof {
                lemma_push_piece(before, word, all@);
                assert(all.deep_view() =~= done.push(word@));
                assert(done + (seq![word@] + words_of(text@.skip(end as int))) =~= done.push(
                    word@,
                ) + words_of(text@.skip(end as int)));
            }
            i = end;
        }
    }
    assert(all.deep_view() + Seq::<Seq<char>>::empty() =~= all.deep_view());
    all
}

/// What stands before the first occurrence of `pattern` in `text` and what
/// stands behind it, or nothing where `pattern` does not occur.
pub fn split_once(text: &str, pattern: &str) -> (parts: Option<(String, String)>)
    ensures
        split_once_of(text@, pattern@) == match parts {
            Some((before, after)) => Some((before@, after@)),
            None => None,
        },
{
    let chars = chars_of(text);
    let wanted = chars_of(pattern);
    match find(&chars, &wanted) {
        Some(at) => {
            proof {
                lemma_first_at(text@, pattern@, at as int);
            }
            assert(occurs_at(chars@, wanted@, at as int));
            let end = chars.len();
            let before = text_between(&chars, 0, at);
            let after = text_between(&chars, at + wanted.len(), end);
            assert(before@ =~= text@.take(at as int));
            assert(after@ =~= text@.skip(at + pattern@.len()));
            Some((before, after))
        },
        None => None,
    }
}

/// `text` with the first occurrence of `pattern` replaced by `with`.
pub fn replace_first(text: &str, pattern: &str, with: &str) -> (result: String)
    ensures
        result@ == replaced_first(text@, pattern@, with@),
{
    match split_once(text, pattern) {
        Some((before, after)) => {
            let mut result = before;
            result.append(with);
            result.append(after.as_str());
            result
        },
        None => text.to_owned(),
    }
}

/// `text` with `with` before each of its characters and behind the last.
fn interleave(chars: &Vec<char>, with: &str) -> (result: String)
    ensures
        result@ == interleaved(chars@, with@),
{
    let mut result = String::new();
    let mut i: usize = 0;
    assert(chars@.skip(0) =~= chars@);
    while i < chars.len()
        invariant
            i <= chars@.len(),
            interleaved(chars@, with@) == result@ + interleaved(chars@.skip(i as int), with@),
        decreases chars@.len() - i,
    {
        proof {
            let tail = chars@.skip(i as int);
            assert(tail[0] == chars@[i as int]);
            assert(tail.drop_first() =~= chars@.skip(i + 1));
        }
        result.append(with);
        push_char(&mut result, chars[i]);
        i += 1;
    }
    result.append(with);
    result
}

/// `text` with every occurrence of `pattern` replaced by `with`, the
/// occurrences taken from the left without overlap.
pub fn replace(text: &str, pattern: &str, with: &str) -> (result: String)
    ensures
        result@ == replaced_all(text@, pattern@, with@),
{
    let chars = chars_of(text);
    let wanted = chars_of(pattern);
    if wanted.len() == 0 {
        return interleave(&chars, with);
    }
    let mut result = String::new();
    let mut i: usize = 0;
    assert(text@.skip(0) =~= text@);
    while i < chars.len()
        invariant
            i <= chars@.len(),
            chars@ == text@,
            wanted@ == pattern@,
            pattern@.len() > 0,
            replaced_all(text@, pattern@, with@) == result@ + replaced_all(
                text@.skip(i as int),
                pattern@,
                with@,
            ),
        decreases chars@.len() - i,
    {
        let ghost tail = text@.skip(i as int);
        if matches_at(&chars, &wanted, i) {
            proof {
                assert(tail.take(pattern@.len() as int) =~= text@.subrange(
                    i as int,
                    i + pattern@.len(),
                ));
                assert(tail.skip(pattern@.len() as int) =~= text@.skip(i + pattern@.len()));
            }
            result.append(with);
            i += wanted.len();
        } else {
            proof {
                if tail.len() >= pattern@.len() {
                    assert(tail.take(pattern@.len() as int) =~= text@.subrange(
                        i as int,
                        i + pattern@.len(),
                    ));
                    assert(tail.drop_first() =~= text@.skip(i + 1));
                    assert(tail[0] == text@[i as int]);
                } else {
                    assert(tail =~= seq![text@[i as int]] + text@.skip(i + 1));
                }
            }
            push_char(&mut result, chars[i]);
            i += 1;
        }
    }
    assert(result@ + text@.skip(i as int) =~= result@);
    result
}

/// The digit for a number below ten.
fn digit(n: u128) -> (c: char)
    requires
        n < 10,
    ensures
        c == seq!['0', '1', '2', '3', '4', '5', '6', '7', '8', '9'][n as int],
{
    if n == 0 {
        '0'
    } else if n == 1 {
        '1'
    } else if n == 2 {
        '2'
    } else if n == 3 {
        '3'
    } else if n == 4 {
        '4'
    } else if n == 5 {
        '5'
    } else if n == 6 {
        '6'
    } else if n == 7 {
        '7'
    } else if n == 8 {
        '8'
    } else {
        '9'
    }
}

/// Writes the decimal digits of `n` behind `text`.
fn push_decimal(text: &mut String, n: u128)
    ensures
        final(text)@ == old(text)@ + decimal(n as nat),
    decreases n,
{
    if n >= 10 {
        push_decimal(text, n / 10);
    }
    push_char(text, digit(n % 10));
    assert(text@ =~= old(text)@ + decimal(n as nat));
}

/// The decimal digits of `n`, without leading zeros.
pub fn wide_decimal_text(n: u128) -> (digits: String)
    ensures
        digits@ == decimal(n as nat),
{
    let mut digits = String::new();
    push_decimal(&mut digits, n);
    assert(digits@ =~= decimal(n as nat));
    digits
}

/// The decimal digits of `n`, without leading zeros.
pub fn decimal_text(n: u64) -> (digits: String)
    ensures
        digits@ == decimal(n as nat),
{
    wide_decimal_text(n as u128)
}

/// Of two texts one comes before the other or equals it.
pub proof fn lemma_text_le_total(a: Seq<char>, b: Seq<char>)
    ensures
        text_le(a, b) || text_le(b, a),
    decreases a.len(),
{
    if a.len() > 0 && b.len() > 0 && a[0] == b[0] {
        lemma_text_le_total(a.drop_first(), b.drop_first());
    }
}

/// What comes before a text that comes before a third comes before the
/// third.
pub proof fn lemma_text_le_transitive(a: Seq<char>, b: Seq<char>, c: Seq<char>)
    requires
        text_le(a, b),
        text_le(b, c),
    ensures
        text_le(a, c),
    decreases a.len(),
{
    if a.len() > 0 && b.len() > 0 && c.len() > 0 && a[0] == b[0] && b[0] == c[0] {
        lemma_text_le_transitive(a.drop_first(), b.drop_first(), c.drop_first());
    }
}

/// Whether the code of `a` is the smaller one.
fn code_before(a: char, b: char) -> (before: bool)
    ensures
        before == ((a as int) < (b as int)),
{
    (a as u32) < (b as u32)
}

/// Whether `a` comes before `b` or equals it.
pub fn before_or_equal(a: &str, b: &str) -> (le: bool)
    ensures
        le == text_le(a@, b@),
{
    let left = chars_of(a);
    let right = chars_of(b);
    let mut i: usize = 0;
    assert(a@.skip(0) =~= a@ && b@.skip(0) =~= b@);
    while i < left.len() && i < right.len() && left[i] == right[i]
        invariant
            i <= left@.len(),
            i <= right@.len(),
            left@ == a@,
            right@ == b@,
            text_le(a@, b@) == text_le(a@.skip(i as int), b@.skip(i as int)),
        decreases left@.len() - i,
    {
        assert(a@.skip(i as int).drop_first() =~= a@.skip(i + 1));
        assert(b@.skip(i as int).drop_first() =~= b@.skip(i + 1));
        i += 1;
    }
    if i == left.len() {
        true
    } else if i == right.len() {
        false
    } else {
        code_before(left[i], right[i])
    }
}

/// With `text` put in at `at`, a sequence holds what it held and `text`.
proof fn lemma_insert_to_multiset(texts: Seq<Seq<char>>, at: int, text: Seq<char>)
    requires
        0 <= at <= texts.len(),
    ensures
        texts.insert(at, text).to_multiset() == texts.to_multiset().insert(text),
{
    broadcast use vstd::seq_lib::group_to_multiset_ensures;

    let grown = texts.insert(at, text);
    assert(grown[at] == text);
    assert(grown.remove(at) =~= texts);
    assert(grown.to_multiset().count(text) > 0) by {
        assert(grown.contains(text));
    }
    assert(grown.to_multiset() =~= texts.to_multiset().insert(text));
}

/// The same texts in ascending order.
pub fn sort(texts: Vec<String>) -> (sorted: Vec<String>)
    ensures
        sorted.deep_view().to_multiset() == texts.deep_view().to_multiset(),
        ascending(sorted.deep_view()),
{
    let mut rest = texts;
    let mut sorted: Vec<String> = Vec::new();
    assert(sorted.deep_view() =~= Seq::<Seq<char>>::empty());
    assert(sorted.deep_view().to_multiset().add(rest.deep_view().to_multiset())
        =~= texts.deep_view().to_multiset()) by {
        broadcast use vstd::seq_lib::group_to_multiset_ensures;

    }
    while rest.len() > 0
        invariant
            ascending(sorted.deep_view()),
            sorted.deep_view().to_multiset().add(rest.deep_view().to_multiset())
                == texts.deep_view().to_multiset(),
        decreases rest.len(),
    {
        let ghost waiting = rest.deep_view();
        let ghost placed = sorted.deep_view();
        let text = rest.pop().unwrap();
        proof {
            broadcast use vstd::seq_lib::group_to_multiset_ensures;

            assert(waiting =~= rest.deep_view().push(text@));
        }
        let mut at: usize = 0;
        while at < sorted.len() && before_or_equal(sorted[at].as_str(), text.as_str())
            invariant
                at <= sorted.len(),
                placed == sorted.deep_view(),
                forall|i: int| 0 <= i < at ==> text_le(#[trigger] placed[i], text@),
            decreases sorted.len() - at,
        {
            assert(placed[at as int] == sorted@[at as int]@);
            at += 1;
        }
        proof {
            if at < sorted.len() {
                assert(placed[at as int] == sorted@[at as int]@);
                lemma_text_le_total(placed[at as int], text@);
            }
        }
        sorted.insert(at, text);
        proof {
            let grown = sorted.deep_view();
            assert(grown =~= placed.insert(at as int, text@));
            lemma_insert_to_multiset(placed, at as int, text@);
            assert forall|i: int, j: int| 0 <= i <= j < grown.len() implies text_le(
                grown[i],
                grown[j],
            ) by {
                if i == j {
                    lemma_text_le_total(grown[i], grown[i]);
                } else if j == at {
                    assert(grown[i] == placed[i]);
                } else if i == at {
                    assert(grown[j] == placed[j - 1]);
                    assert(text_le(placed[at as int], placed[j - 1]));
                    lemma_text_le_transitive(text@, placed[at as int], placed[j - 1]);
                } else if i < at && at < j {
                    assert(grown[i] == placed[i] && grown[j] == placed[j - 1]);
                } else if j < at {
                    assert(grown[i] == placed[i] && grown[j] == placed[j]);
                } else {
                    assert(grown[i] == placed[i - 1] && grown[j] == placed[j - 1]);
                }
            }
            assert(grown.to_multiset().add(rest.deep_view().to_multiset())
                =~= texts.deep_view().to_multiset());
        }
    }
    assert(rest.deep_view() =~= Seq::<Seq<char>>::empty());
    assert(sorted.deep_view().to_multiset() =~= texts.deep_view().to_multiset()) by {
        broadcast use vstd::seq_lib::group_to_multiset_ensures;

    }
    sorted
}

/// The text `before`, then `after`, in one string.
pub fn join(before: &str, after: &str) -> (text: String)
    ensures
        text@ == before@ + after@,
{
    let mut text = before.to_owned();
    text.append(after);
    text
}

/// The text `before`, `middle`, `after` in one string.
pub fn enclose(before: &str, middle: &str, after: &str) -> (text: String)
    ensures
        text@ == before@ + middle@ + after@,
{
    let mut text = before.to_owned();
    text.append(middle);
    text.append(after);
    text
}

} // verus!
