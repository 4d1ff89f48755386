//! Searching and splitting text.
//!
//! Every function here is stated over the characters of its arguments: a string is the
//! sequence of its `char`s, a position is an index into that sequence.

use vstd::prelude::*;

verus! {

/// The position of the first `c` in `s`, or the length of `s` where `s` holds none.
pub open spec fn first_index(s: Seq<char>, c: char) -> nat
    decreases s.len(),
{
    if s.len() == 0 {
        0
    } else if s[0] == c {
        0
    } else {
        1 + first_index(s.drop_first(), c)
    }
}

/// The fields of `s` between occurrences of `sep`. There is always at least one field; a
/// separator at either end of `s`, or two in a row, bound an empty field.
pub open spec fn split_on(s: Seq<char>, sep: char) -> Seq<Seq<char>>
    decreases s.len(),
{
    let k = first_index(s, sep);
    if k >= s.len() {
        seq![s]
    } else {
        seq![s.take(k as int)] + split_on(s.skip(k + 1 as int), sep)
    }
}

/// `line` without the carriage return at its end, if it has one.
pub open spec fn strip_cr(line: Seq<char>) -> Seq<char> {
    if line.len() > 0 && line.last() == '\r' {
        line.drop_last()
    } else {
        line
    }
}

/// The lines of `s`. A line ends at a line feed, or at a carriage return directly followed
/// by one; neither belongs to the line. The last line needs no line ending, and a carriage
/// return that no line feed follows is an ordinary character.
pub open spec fn text_lines(s: Seq<char>) -> Seq<Seq<char>>
    decreases s.len(),
{
    let k = first_index(s, '\n');
    if s.len() == 0 {
        seq![]
    } else if k >= s.len() {
        seq![s]
    } else {
        seq![strip_cr(s.take(k as int))] + text_lines(s.skip(k + 1 as int))
    }
}

/// Whether `needle` stands at position `at` of `haystack`.
pub open spec fn occurs_at(haystack: Seq<char>, needle: Seq<char>, at: int) -> bool {
    &&& 0 <= at
    &&& at + needle.len() <= haystack.len()
    &&& haystack.subrange(at, at + needle.len()) == needle
}

/// Whether `needle` stands somewhere in `haystack`.
pub open spec fn has_text(haystack: Seq<char>, needle: Seq<char>) -> bool {
    exists|at: int| occurs_at(haystack, needle, at)
}

/// `first_index` is within `s`, points at a `c` unless it is the length of `s`, and no `c`
/// stands before it.
pub proof fn lemma_first_index(s: Seq<char>, c: char)
    ensures
        first_index(s, c) <= s.len(),
        first_index(s, c) < s.len() ==> s[first_index(s, c) as int] == c,
        forall|j: int| 0 <= j < first_index(s, c) ==> s[j] != c,
        first_index(s, c) < s.len() <==> s.contains(c),
    decreases s.len(),
{
    if s.len() == 0 {
    } else if s[0] == c {
    } else {
        let rest = s.drop_first();
        lemma_first_index(rest, c);
        let k = first_index(rest, c);
        assert forall|j: int| 0 <= j < 1 + k implies s[j] != c by {
            if j > 0 {
                assert(rest[j - 1] == s[j]);
            }
        }
        if k < rest.len() {
            assert(rest[k as int] == s[k + 1 as int]);
        }
        if s.contains(c) {
            let i = choose|i: int| 0 <= i < s.len() && s[i] == c;
            assert(rest[i - 1] == c);
        }
    }
}

/// A position `k` that points at the first `c` of `s`, or is the length of a `s` without
/// one, is `first_index`.
pub proof fn lemma_first_index_unique(s: Seq<char>, c: char, k: int)
    requires
        0 <= k <= s.len(),
        k < s.len() ==> s[k] == c,
        forall|j: int| 0 <= j < k ==> s[j] != c,
    ensures
        first_index(s, c) == k,
{
    lemma_first_index(s, c);
}

/// A text splits into two fields or more exactly when it holds the separator.
pub proof fn lemma_split_on_len(s: Seq<char>, sep: char)
    ensures
        split_on(s, sep).len() >= 1,
        split_on(s, sep).len() >= 2 <==> s.contains(sep),
        split_on(s, sep)[0] == s.take(first_index(s, sep) as int),
    decreases s.len(),
{
    lemma_first_index(s, sep);
    let k = first_index(s, sep);
    if k < s.len() {
        lemma_split_on_len(s.skip(k + 1 as int), sep);
    } else {
        assert(s.take(k as int) == s);
    }
}

/// `fields` with `sep` between each two of them.
pub open spec fn join_with(fields: Seq<Seq<char>>, sep: char) -> Seq<char>
    decreases fields.len(),
{
    if fields.len() == 0 {
        seq![]
    } else if fields.len() == 1 {
        fields[0]
    } else {
        fields[0] + seq![sep] + join_with(fields.drop_first(), sep)
    }
}

/// Splitting loses nothing: no field holds the separator, and the fields with the
/// separator between them are the text that was split.
pub proof fn lemma_split_on_joins(s: Seq<char>, sep: char)
    ensures
        forall|i: int|
            0 <= i < split_on(s, sep).len() ==> !(#[trigger] split_on(s, sep)[i]).contains(sep),
        join_with(split_on(s, sep), sep) == s,
    decreases s.len(),
{
    lemma_first_index(s, sep);
    let k = first_index(s, sep) as int;
    let fields = split_on(s, sep);
    if k < s.len() {
        let rest = s.skip(k + 1);
        lemma_split_on_joins(rest, sep);
        lemma_split_on_len(rest, sep);
        let head = s.take(k);
        assert(fields == seq![head] + split_on(rest, sep));
        assert(fields.drop_first() == split_on(rest, sep));
        assert(head + seq![sep] + rest == s);
        assert forall|i: int| 0 <= i < fields.len() implies !(#[trigger] fields[i]).contains(
            sep,
        ) by {
            if i > 0 {
                assert(fields[i] == split_on(rest, sep)[i - 1]);
            }
        }
    }
}

/// No line holds a line feed.
pub proof fn lemma_lines_hold_no_line_feed(s: Seq<char>)
    ensures
        forall|i: int|
            0 <= i < text_lines(s).len() ==> !(#[trigger] text_lines(s)[i]).contains('\n'),
    decreases s.len(),
{
    lemma_first_index(s, '\n');
    let k = first_index(s, '\n') as int;
    let found = text_lines(s);
    if s.len() > 0 && k < s.len() {
        let rest = s.skip(k + 1);
        lemma_lines_hold_no_line_feed(rest);
        assert forall|i: int| 0 <= i < found.len() implies !(#[trigger] found[i]).contains(
            '\n',
        ) by {
            if i > 0 {
                assert(found[i] == text_lines(rest)[i - 1]);
            } else {
                let line = strip_cr(s.take(k));
                if line.contains('\n') {
                    let j = choose|j: int| 0 <= j < line.len() && line[j] == '\n';
                    assert(s[j] == '\n');
                }
            }
        }
    }
}

/// The characters of a string.
pub fn chars_of(s: &str) -> (chars: Vec<char>)
    ensures
        chars@ == s@,
{
    let mut chars: Vec<char> = Vec::new();
    for c in it: s.chars()
        invariant
            it.seq() == s@,
            chars@ == it.seq().take(it.index() as int),
    {
        chars.push(c);
    }
    chars
}

/// The position of the first `c` at or after `from`, or the length where none follows.
pub fn find_char(chars: &Vec<char>, from: usize, c: char) -> (at: usize)
    requires
        from <= chars.len(),
    ensures
        at == from + first_index(chars@.skip(from as int), c),
        from <= at <= chars.len(),
{
    let mut at: usize = from;
    while at < chars.len() && chars[at] != c
        invariant
            from <= at <= chars.len(),
            forall|j: int| from <= j < at ==> chars@[j] != c,
        decreases chars.len() - at,
    {
        at += 1;
    }
    proof {
        let tail = chars@.skip(from as int);
        assert forall|j: int| 0 <= j < at - from implies tail[j] != c by {
            assert(tail[j] == chars@[from + j]);
        }
        lemma_first_index_unique(tail, c, at - from);
    }
    at
}

/// The part of `s` from `from` up to, not including, `to`, as a string of its own.
pub fn slice_of(s: &str, from: usize, to: usize) -> (part: String)
    requires
        from <= to <= s@.len(),
    ensures
        part@ == s@.subrange(from as int, to as int),
{
    String::from_str(s.substring_char(from, to))
}

/// Splits `s` at every `sep`, as `str::split` does with a `char`.
pub fn split(s: &str, sep: char) -> (fields: Vec<String>)
    ensures
        fields.deep_view() == split_on(s@, sep),
{
    let chars = chars_of(s);
    let mut fields: Vec<String> = Vec::new();
    let mut start: usize = 0;
    proof {
        assert(s@.skip(0) == s@);
        assert(fields.deep_view() + split_on(s@, sep) == split_on(s@, sep));
    }
    loop
        invariant
            chars@ == s@,
            start <= chars.len(),
            split_on(s@, sep) == fields.deep_view() + split_on(s@.skip(start as int), sep),
        decreases chars.len() - start,
    {
        let end = find_char(&chars, start, sep);
        let field = slice_of(s, start, end);
        let ghost before = fields.deep_view();
        let ghost tail = s@.skip(start as int);
        fields.push(field);
        proof {
            assert(tail.take(end - start) == s@.subrange(start as int, end as int));
            assert(fields.deep_view() == before.push(tail.take(end - start)));
        }
        if end == chars.len() {
            proof {
                assert(tail.take(end - start) == tail);
                assert(split_on(tail, sep) == seq![tail]);
            }
            return fields;
        }
        proof {
            assert(tail.skip(end - start + 1) == s@.skip(end + 1));
            assert(split_on(tail, sep) == seq![tail.take(end - start)] + split_on(
                tail.skip(end - start + 1),
                sep,
            ));
        }
        start = end + 1;
    }
}

/// The lines of `s`, as `str::lines` gives them.
pub fn lines(s: &str) -> (found: Vec<String>)
    ensures
        found.deep_view() == text_lines(s@),
{
    let chars = chars_of(s);
    let mut found: Vec<String> = Vec::new();
    let mut start: usize = 0;
    proof {
        assert(s@.skip(0) == s@);
        assert(found.deep_view() + text_lines(s@) == text_lines(s@));
    }
    while start < chars.len()
        invariant
            chars@ == s@,
            start <= chars.len(),
            text_lines(s@) == found.deep_view() + text_lines(s@.skip(start as int)),
        decreases chars.len() - start,
    {
        let end = find_char(&chars, start, '\n');
        let ghost before = found.deep_view();
        let ghost tail = s@.skip(start as int);
        proof {
            assert(tail.take(end - start) == s@.subrange(start as int, end as int));
        }
        if end == chars.len() {
            found.push(slice_of(s, start, end));
            proof {
                assert(tail.take(end - start) == tail);
                assert(found.deep_view() == before.push(tail));
                assert(s@.skip(end as int).len() == 0);
                assert(text_lines(s@.skip(end as int)) == Seq::<Seq<char>>::empty());
            }
            start = end;
        } else {
            let stop = if end > start && chars[end - 1] == '\r' {
                end - 1
            } else {
                end
            };
            found.push(slice_of(s, start, stop));
            proof {
                let line = tail.take(end - start);
                if line.len() > 0 {
                    assert(line.last() == chars@[end - 1]);
                }
                assert(strip_cr(line) == s@.subrange(start as int, stop as int));
                assert(found.deep_view() == before.push(strip_cr(line)));
                assert(tail.skip(end - start + 1) == s@.skip(end + 1));
            }
            start = end + 1;
        }
    }
    proof {
        assert(s@.skip(start as int).len() == 0);
    }
    found
}

/// Whether `s` begins with `prefix`, as `str::starts_with` tells of a string pattern.
pub fn starts_with(s: &str, prefix: &str) -> (yes: bool)
    ensures
        yes == prefix@.is_prefix_of(s@),
{
    let chars = chars_of(s);
    let wanted = chars_of(prefix);
    matches_at(&chars, &wanted, 0)
}

/// Whether `needle` stands at position `at` of `haystack`.
pub fn matches_at(haystack: &Vec<char>, needle: &Vec<char>, at: usize) -> (yes: bool)
    requires
        at <= haystack.len(),
    ensures
        yes == occurs_at(haystack@, needle@, at as int),
        at == 0 ==> yes == needle@.is_prefix_of(haystack@),
{
    if needle.len() > haystack.len() - at {
        return false;
    }
    let mut i: usize = 0;
    while i < needle.len()
        invariant
            i <= needle.len(),
            at + needle.len() <= haystack.len(),
            forall|j: int| 0 <= j < i ==> haystack@[at + j] == needle@[j],
        decreases needle.len() - i,
    {
        if haystack[at + i] != needle[i] {
            proof {
                let window = haystack@.subrange(at as int, at + needle.len());
                assert(window[i as int] == haystack@[at + i]);
            }
            return false;
        }
        i += 1;
    }
    proof {
        let window = haystack@.subrange(at as int, at + needle.len());
        assert forall|j: int| 0 <= j < needle.len() implies window[j] == needle@[j] by {
            assert(window[j] == haystack@[at + j]);
        }
        assert(window == needle@);
    }
    true
}

/// Whether `needle` stands somewhere in `haystack`, as `str::contains` tells of a string
/// pattern.
pub fn contains(haystack: &str, needle: &str) -> (yes: bool)
    ensures
        yes == has_text(haystack@, needle@),
{
    let chars = chars_of(haystack);
    let wanted = chars_of(needle);
    if wanted.len() > chars.len() {
        return false;
    }
    let last: usize = chars.len() - wanted.len();
    let mut at: usize = 0;
    loop
        invariant
            chars@ == haystack@,
            wanted@ == needle@,
            last == chars.len() - wanted.len(),
            at <= last,
            forall|j: int| 0 <= j < at ==> !occurs_at(chars@, wanted@, j),
        decreases last - at,
    {
        if matches_at(&chars, &wanted, at) {
            return true;
        }
        if at == last {
            return false;
        }
        at += 1;
    }
}

} // verus!
