use vstd::prelude::*;
use vstd::string::StrSliceExecFns;

verus! {

broadcast use vstd::string::group_string_axioms;

/// Whether `c` is white space: a character with the Unicode property
/// `White_Space`.
pub open spec fn is_whitespace(c: char) -> bool {
    let code = c as u32;
    ||| 0x09 <= code <= 0x0D
    ||| code == 0x20
    ||| code == 0x85
    ||| code == 0xA0
    ||| code == 0x1680
    ||| 0x2000 <= code <= 0x200A
    ||| code == 0x2028
    ||| code == 0x2029
    ||| code == 0x202F
    ||| code == 0x205F
    ||| code == 0x3000
}

/// `text` without the white space it begins with.
pub open spec fn trim_start(text: Seq<char>) -> Seq<char>
    decreases text.len(),
{
    if text.len() > 0 && is_whitespace(text.first()) {
        trim_start(text.drop_first())
    } else {
        text
    }
}

/// `text` without the white space it ends with.
pub open spec fn trim_end(text: Seq<char>) -> Seq<char>
    decreases text.len(),
{
    if text.len() > 0 && is_whitespace(text.last()) {
        trim_end(text.drop_last())
    } else {
        text
    }
}

/// `text` without the white space at either end.
pub open spec fn trimmed(text: Seq<char>) -> Seq<char> {
    trim_end(trim_start(text))
}

/// Whether a separator, a comma followed by a space, begins at `at`.
pub open spec fn separator_at(text: Seq<char>, at: int) -> bool {
    0 <= at && at + 1 < text.len() && text[at] == ',' && text[at + 1] == ' '
}

/// Where the first separator of `text` begins; the length of `text` if it
/// holds none.
pub open spec fn first_separator(text: Seq<char>) -> int
    decreases text.len(),
{
    if text.len() < 2 {
        text.len() as int
    } else if text[0] == ',' && text[1] == ' ' {
        0
    } else {
        1 + first_separator(text.drop_first())
    }
}

/// The pieces of `text` between its separators, from left to right. A text
/// without a separator is one piece, also when it is empty.
pub open spec fn split_names(text: Seq<char>) -> Seq<Seq<char>>
    decreases text.len(),
{
    let at = first_separator(text);
    if 0 <= at && at + 2 <= text.len() {
        seq![text.take(at)] + split_names(text.skip(at + 2))
    } else {
        seq![text]
    }
}

/// The names that a line of input stands for: the line is trimmed, and what
/// is left is cut at every comma that a space follows.
pub open spec fn names_in(line: Seq<char>) -> Seq<Seq<char>> {
    split_names(trimmed(line))
}

/// The first separator is where a separator begins that no other precedes,
/// and the end of the text if there is none.
pub proof fn lemma_first_separator(text: Seq<char>, at: int)
    requires
        0 <= at <= text.len(),
        forall|j: int| 0 <= j < at ==> !separator_at(text, j),
        at == text.len() || separator_at(text, at),
    ensures
        first_separator(text) == at,
    decreases text.len(),
{
    if text.len() < 2 {
    } else if text[0] == ',' && text[1] == ' ' {
        assert(separator_at(text, 0));
    } else {
        assert(!separator_at(text, 0));
        let rest = text.drop_first();
        assert forall|j: int| 0 <= j < at - 1 implies !separator_at(rest, j) by {
            assert(!separator_at(text, j + 1));
        }
        lemma_first_separator(rest, at - 1);
    }
}

/// What [`first_separator`] gives lies within the text, a separator begins
/// there unless it is the end, and none begins before it.
pub proof fn lemma_first_separator_found(text: Seq<char>)
    ensures
        0 <= first_separator(text) <= text.len(),
        first_separator(text) < text.len() ==> separator_at(text, first_separator(text)),
        forall|j: int| 0 <= j < first_separator(text) ==> !separator_at(text, j),
    decreases text.len(),
{
    if text.len() < 2 {
    } else if text[0] == ',' && text[1] == ' ' {
    } else {
        let rest = text.drop_first();
        lemma_first_separator_found(rest);
        assert forall|j: int| 0 <= j < first_separator(text) implies !separator_at(text, j) by {
            if j > 0 {
                assert(!separator_at(rest, j - 1));
            }
        }
    }
}

/// The pieces put back together, with a separator between one piece and the
/// next.
pub open spec fn joined(pieces: Seq<Seq<char>>) -> Seq<char>
    decreases pieces.len(),
{
    if pieces.len() == 0 {
        Seq::empty()
    } else if pieces.len() == 1 {
        pieces[0]
    } else {
        pieces[0] + seq![',', ' '] + joined(pieces.drop_first())
    }
}

/// Splitting loses nothing and cuts at every separator: there is at least
/// one piece, no piece holds a separator, and the pieces joined by
/// separators are the text again.
pub proof fn lemma_split_names(text: Seq<char>)
    ensures
        split_names(text).len() >= 1,
        forall|i: int, j: int|
            0 <= i < split_names(text).len() ==> !#[trigger] separator_at(split_names(text)[i], j),
        joined(split_names(text)) == text,
    decreases text.len(),
{
    let at = first_separator(text);
    lemma_first_separator_found(text);
    if 0 <= at && at + 2 <= text.len() {
        let head = text.take(at);
        let tail = text.skip(at + 2);
        let rest = split_names(tail);
        lemma_split_names(tail);
        let pieces = seq![head] + rest;
        assert(pieces.drop_first() =~= rest);
        assert(pieces[0] == head);
        assert(head + seq![',', ' '] + tail =~= text);
        assert forall|i: int, j: int| 0 <= i < pieces.len() implies !#[trigger] separator_at(
            pieces[i],
            j,
        ) by {
            if i == 0 {
                if separator_at(head, j) {
                    assert(separator_at(text, j));
                }
            } else {
                assert(pieces[i] == rest[i - 1]);
            }
        }
    } else {
        assert forall|j: int| !separator_at(text, j) by {
            if separator_at(text, j) {
                assert(j < at);
            }
        }
    }
}

/// Whether `c` is white space.
pub fn is_space(c: char) -> (yes: bool)
    ensures
        yes == is_whitespace(c),
{
    let code = c as u32;
    (0x09 <= code && code <= 0x0D) || code == 0x20 || code == 0x85 || code == 0xA0 || code
        == 0x1680 || (0x2000 <= code && code <= 0x200A) || code == 0x2028 || code == 0x2029
        || code == 0x202F || code == 0x205F || code == 0x3000
}

/// The characters of `text`, one by one.
fn chars_of(text: &str) -> (chars: Vec<char>)
    ensures
        chars@ == text@,
{
    let mut chars: Vec<char> = Vec::new();
    for c in it: text.chars()
        invariant
            it.seq() == text@,
            chars@ == it.seq().take(it.index()),
    {
        chars.push(c);
        assert(chars@ =~= it.seq().take(it.index() + 1));
    }
    assert(chars@ =~= text@);
    chars
}

/// Cuts the part of `line` from `start` to `end` at its separators.
fn split_range(line: &str, chars: &Vec<char>, start: usize, end: usize) -> (names: Vec<String>)
    requires
        chars@ == line@,
        start <= end <= chars.len(),
    ensures
        names.deep_view() == split_names(line@.subrange(start as int, end as int)),
{
    let ghost text = line@;
    let mut names: Vec<String> = Vec::new();
    let mut from: usize = start;
    let mut i: usize = start;
    assert(names.deep_view() =~= Seq::<Seq<char>>::empty());
    while i < end
        invariant
            chars@ == line@,
            text == line@,
            end <= chars.len(),
            start <= from <= i <= end,
            split_names(text.subrange(start as int, end as int)) == names.deep_view()
                + split_names(text.subrange(from as int, end as int)),
            forall|j: int|
                0 <= j < i - from ==> !separator_at(text.subrange(from as int, end as int), j),
        decreases end - i,
    {
        let ghost rest = text.subrange(from as int, end as int);
        if i + 1 < end && chars[i] == ',' && chars[i + 1] == ' ' {
            let piece = line.substring_char(from, i).to_owned();
            proof {
                let at = i - from;
                assert(separator_at(rest, at));
                lemma_first_separator(rest, at);
                assert(rest.take(at) =~= text.subrange(from as int, i as int));
                assert(rest.skip(at + 2) =~= text.subrange(i + 2, end as int));
            }
            let ghost before = names.deep_view();
            names.push(piece);
            assert(names.deep_view() =~= before.push(piece@));
            assert(before + (seq![piece@] + split_names(text.subrange(i + 2, end as int)))
                =~= before.push(piece@) + split_names(text.subrange(i + 2, end as int)));
            from = i + 2;
            i = i + 2;
        } else {
            assert(!separator_at(rest, i - from));
            i = i + 1;
        }
    }
    let piece = line.substring_char(from, end).to_owned();
    proof {
        let rest = text.subrange(from as int, end as int);
        lemma_first_separator(rest, rest.len() as int);
    }
    let ghost before = names.deep_view();
    names.push(piece);
    assert(names.deep_view() =~= before + seq![piece@]);
    names
}

/// Reads the names to monitor from a line of input.
///
/// White space at either end of the line does not count. What is left is a
/// list of names with a comma and a space between one name and the next; a
/// line with nothing else on it gives one empty name.
pub fn parse_names(line: &str) -> (names: Vec<String>)
    ensures
        names.deep_view() == names_in(line@),
{
    let chars = chars_of(line);
    let ghost text = line@;
    let mut start: usize = 0;
    assert(text.skip(0) =~= text);
    while start < chars.len() && is_space(chars[start])
        invariant
            chars@ == text,
            start <= chars.len(),
            trim_start(text) == trim_start(text.skip(start as int)),
        decreases chars.len() - start,
    {
        assert(text.skip(start as int).drop_first() =~= text.skip(start + 1));
        start = start + 1;
    }
    let ghost body = text.skip(start as int);
    assert(trim_start(text) == body);
    let mut end: usize = chars.len();
    assert(text.subrange(start as int, end as int) =~= body);
    while end > start && is_space(chars[end - 1])
        invariant
            chars@ == text,
            start <= end <= chars.len(),
            trim_end(body) == trim_end(text.subrange(start as int, end as int)),
        decreases end - start,
    {
        assert(text.subrange(start as int, end as int).drop_last() =~= text.subrange(
            start as int,
            end - 1,
        ));
        end = end - 1;
    }
    assert(trimmed(text) == text.subrange(start as int, end as int));
    split_range(line, &chars, start, end)
}

} // verus!
