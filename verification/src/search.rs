//! Searching a text: containment, lines and trimming.

use vstd::prelude::*;
use vstd::string::StrSliceExecFns;

verus! {

/// The characters with the Unicode property `White_Space`.
pub open spec fn is_white(c: char) -> bool {
    let n = c as u32;
    ||| 0x9 <= n <= 0xd
    ||| n == 0x20
    ||| n == 0x85
    ||| n == 0xa0
    ||| n == 0x1680
    ||| 0x2000 <= n <= 0x200a
    ||| n == 0x2028
    ||| n == 0x2029
    ||| n == 0x202f
    ||| n == 0x205f
    ||| n == 0x3000
}

/// `pattern` stands at position `i` of `text`.
pub open spec fn occurs_at(text: Seq<char>, pattern: Seq<char>, i: int) -> bool {
    &&& 0 <= i
    &&& i + pattern.len() <= text.len()
    &&& forall|k: int| 0 <= k < pattern.len() ==> #[trigger] text[i + k] == pattern[k]
}

/// `pattern` stands somewhere in `text`.
pub open spec fn holds(text: Seq<char>, pattern: Seq<char>) -> bool {
    exists|i: int| occurs_at(text, pattern, i)
}

/// `text` without its leading white space.
pub open spec fn trim_start(text: Seq<char>) -> Seq<char>
    decreases text.len(),
{
    if text.len() > 0 && is_white(text[0]) {
        trim_start(text.skip(1))
    } else {
        text
    }
}

/// `text` without its trailing white space.
pub open spec fn trim_end(text: Seq<char>) -> Seq<char>
    decreases text.len(),
{
    if text.len() > 0 && is_white(text.last()) {
        trim_end(text.drop_last())
    } else {
        text
    }
}

/// Where the line that starts at `from` ends: at its newline, or at the end of
/// the text.
pub open spec fn line_end(text: Seq<char>, from: int) -> int
    decreases text.len() - from,
{
    if from >= text.len() || text[from] == '\n' {
        from
    } else {
        line_end(text, from + 1)
    }
}

/// The first line from `from` on that starts with `prefix` behind its leading
/// white space, trimmed on both sides.
pub open spec fn line_with_prefix(text: Seq<char>, prefix: Seq<char>, from: int) -> Option<
    Seq<char>,
>
    decreases text.len() - from,
    when 0 <= from <= text.len()
    via line_with_prefix_advances
{
    let end = line_end(text, from);
    let line = trim_start(text.subrange(from, end));
    if occurs_at(line, prefix, 0) {
        Some(trim_end(line))
    } else if end < text.len() {
        line_with_prefix(text, prefix, end + 1)
    } else {
        None
    }
}

#[via_fn]
proof fn line_with_prefix_advances(text: Seq<char>, prefix: Seq<char>, from: int) {
    lemma_line_end(text, from);
}

proof fn lemma_line_end(text: Seq<char>, from: int)
    requires
        0 <= from <= text.len(),
    ensures
        from <= line_end(text, from) <= text.len(),
    decreases text.len() - from,
{
    if from < text.len() && text[from] != '\n' {
        lemma_line_end(text, from + 1);
    }
}

/// Whether a character is white space.
pub fn white(c: char) -> (b: bool)
    ensures
        b == is_white(c),
{
    let n: u32 = c as u32;
    (0x9 <= n && n <= 0xd) || n == 0x20 || n == 0x85 || n == 0xa0 || n == 0x1680 || (0x2000 <= n
        && n <= 0x200a) || n == 0x2028 || n == 0x2029 || n == 0x202f || n == 0x205f || n == 0x3000
}

/// The characters of a text.
pub fn characters(s: &str) -> (v: Vec<char>)
    ensures
        v@ == s@,
{
    let mut v: Vec<char> = Vec::new();
    for c in it: s.chars()
        invariant
            v@ == it.seq().take(it.index() as int),
            it.seq() == s@,
    {
        v.push(c);
    }
    v
}

/// Whether `pattern` stands at position `i`.
fn stands_at(text: &Vec<char>, pattern: &Vec<char>, i: usize, end: usize) -> (b: bool)
    requires
        i <= end <= text@.len(),
    ensures
        b == occurs_at(text@.subrange(i as int, end as int), pattern@, 0),
{
    if end - i < pattern.len() {
        return false;
    }
    let ghost window = text@.subrange(i as int, end as int);
    let mut k: usize = 0;
    while k < pattern.len()
        invariant
            k <= pattern@.len(),
            i <= end <= text@.len(),
            pattern@.len() <= end - i,
            window == text@.subrange(i as int, end as int),
            forall|j: int| 0 <= j < k ==> #[trigger] window[0 + j] == pattern@[j],
        decreases pattern@.len() - k,
    {
        if text[i + k] != pattern[k] {
            assert(window[0 + k as int] != pattern@[k as int]);
            return false;
        }
        k = k + 1;
    }
    true
}

/// Whether `pattern` stands somewhere in `text`.
pub fn contains(text: &Vec<char>, pattern: &Vec<char>) -> (b: bool)
    ensures
        b == holds(text@, pattern@),
{
    let mut i: usize = 0;
    while i < text.len()
        invariant
            i <= text@.len(),
            forall|j: int| 0 <= j < i ==> !occurs_at(text@, pattern@, j),
        decreases text@.len() - i,
    {
        let here: bool = stands_at(text, pattern, i, text.len());
        proof {
            lemma_occurs_in_tail(text@, pattern@, i as int);
        }
        if here {
            return true;
        }
        i = i + 1;
    }
    let last: bool = stands_at(text, pattern, i, text.len());
    proof {
        lemma_occurs_in_tail(text@, pattern@, i as int);
        if !last {
            assert forall|j: int| !occurs_at(text@, pattern@, j) by {
                if j > i {
                    assert(!(j + pattern@.len() <= text@.len()));
                }
            }
        }
    }
    last
}

proof fn lemma_occurs_in_tail(text: Seq<char>, pattern: Seq<char>, i: int)
    requires
        0 <= i <= text.len(),
    ensures
        occurs_at(text, pattern, i) == occurs_at(text.subrange(i, text.len() as int), pattern, 0),
{
    let tail = text.subrange(i, text.len() as int);
    if occurs_at(text, pattern, i) {
        assert forall|k: int| 0 <= k < pattern.len() implies #[trigger] tail[0 + k]
            == pattern[k] by {
            assert(text[i + k] == pattern[k]);
        }
    }
    if occurs_at(tail, pattern, 0) {
        assert forall|k: int| 0 <= k < pattern.len() implies #[trigger] text[i + k]
            == pattern[k] by {
            assert(tail[0 + k] == pattern[k]);
        }
    }
}

/// Where the white space that starts at `from` ends.
fn skip_white(text: &Vec<char>, from: usize, end: usize) -> (i: usize)
    requires
        from <= end <= text@.len(),
    ensures
        from <= i <= end,
        trim_start(text@.subrange(from as int, end as int)) == text@.subrange(i as int, end as int),
{
    let mut i: usize = from;
    while i < end && white(text[i])
        invariant
            from <= i <= end <= text@.len(),
            trim_start(text@.subrange(from as int, end as int)) == trim_start(
                text@.subrange(i as int, end as int),
            ),
        decreases end - i,
    {
        assert(text@.subrange(i as int, end as int).skip(1) =~= text@.subrange(
            i as int + 1,
            end as int,
        ));
        i = i + 1;
    }
    i
}

/// Where the white space that ends at `end` starts.
fn drop_white(text: &Vec<char>, from: usize, end: usize) -> (i: usize)
    requires
        from <= end <= text@.len(),
    ensures
        from <= i <= end,
        trim_end(text@.subrange(from as int, end as int)) == text@.subrange(from as int, i as int),
{
    let mut i: usize = end;
    while from < i && white(text[i - 1])
        invariant
            from <= i <= end <= text@.len(),
            trim_end(text@.subrange(from as int, end as int)) == trim_end(
                text@.subrange(from as int, i as int),
            ),
        decreases i,
    {
        assert(text@.subrange(from as int, i as int).drop_last() =~= text@.subrange(
            from as int,
            i as int - 1,
        ));
        i = i - 1;
    }
    i
}

/// Where the line that starts at `from` ends.
fn end_of_line(text: &Vec<char>, from: usize) -> (end: usize)
    requires
        from <= text@.len(),
    ensures
        end == line_end(text@, from as int),
        from <= end <= text@.len(),
{
    let mut end: usize = from;
    while end < text.len() && text[end] != '\n'
        invariant
            from <= end <= text@.len(),
            line_end(text@, from as int) == line_end(text@, end as int),
        decreases text@.len() - end,
    {
        end = end + 1;
    }
    end
}

/// The first line of a text that starts with `prefix` behind its leading white
/// space, trimmed on both sides.
///
/// A carriage return before a newline is white space, so it is trimmed with
/// the rest of the line's end.
pub fn find_line(s: &str, prefix: &str) -> (r: Option<String>)
    ensures
        match line_with_prefix(s@, prefix@, 0) {
            Some(line) => r matches Some(found) && found@ == line,
            None => r is None,
        },
{
    let text: Vec<char> = characters(s);
    let pattern: Vec<char> = characters(prefix);
    let mut from: usize = 0;
    loop
        invariant
            from <= text@.len(),
            text@ == s@,
            pattern@ == prefix@,
            line_with_prefix(s@, prefix@, 0) == line_with_prefix(s@, prefix@, from as int),
        decreases text@.len() - from,
    {
        let end: usize = end_of_line(&text, from);
        let start: usize = skip_white(&text, from, end);
        if stands_at(&text, &pattern, start, end) {
            let stop: usize = drop_white(&text, start, end);
            return Some(s.substring_char(start, stop).to_owned());
        }
        if end >= text.len() {
            return None;
        }
        from = end + 1;
    }
}

} // verus!
