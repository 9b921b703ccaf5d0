//! Volume enumeration: mount points on Unix, drive letters on Windows.

use vstd::prelude::*;
use vstd::string::StringExecFns;

verus! {

/// `String::push` of the standard library: the string afterwards is the
/// string before with the character `c` appended, as its documentation says.
pub assume_specification[ String::push ](s: &mut String, c: char)
    ensures
        final(s)@ == old(s)@.push(c),
;

/// Whether `c` is white space: the characters with the Unicode property
/// `White_Space`.
pub open spec fn is_space(c: char) -> bool {
    ||| '\u{9}' <= c <= '\u{D}'
    ||| c == ' '
    ||| c == '\u{85}'
    ||| c == '\u{A0}'
    ||| c == '\u{1680}'
    ||| '\u{2000}' <= c <= '\u{200A}'
    ||| c == '\u{2028}'
    ||| c == '\u{2029}'
    ||| c == '\u{202F}'
    ||| c == '\u{205F}'
    ||| c == '\u{3000}'
}

/// The index of the first line feed of `t` at or after `i`, or the length of
/// `t` if there is none.
pub open spec fn line_end(t: Seq<char>, i: int) -> int
    decreases t.len() - i,
{
    if i < 0 || i >= t.len() || t[i] == '\n' {
        i
    } else {
        line_end(t, i + 1)
    }
}

/// The first index in `i..end` that holds no white space, or `end`.
pub open spec fn skip_spaces(t: Seq<char>, i: int, end: int) -> int
    decreases end - i,
{
    if i >= end || !is_space(t[i]) {
        i
    } else {
        skip_spaces(t, i + 1, end)
    }
}

/// The first index in `i..end` that holds white space, or `end`.
pub open spec fn skip_word(t: Seq<char>, i: int, end: int) -> int
    decreases end - i,
{
    if i >= end || is_space(t[i]) {
        i
    } else {
        skip_word(t, i + 1, end)
    }
}

/// Where the second field of the line `t[lo..hi]` starts. Fields are the
/// maximal runs of characters that are not white space. The result is `hi`
/// when the line has fewer than two fields.
pub open spec fn field_start(t: Seq<char>, lo: int, hi: int) -> int {
    skip_spaces(t, skip_word(t, skip_spaces(t, lo, hi), hi), hi)
}

/// Where the field that starts at `start` in the line that ends at `hi` ends.
pub open spec fn field_stop(t: Seq<char>, start: int, hi: int) -> int {
    skip_word(t, start, hi)
}

/// The second fields of the lines of `t` from index `i` on.
pub open spec fn mounts_from(t: Seq<char>, i: int) -> Seq<Seq<char>>
    decreases t.len() - i,
{
    if i < 0 || i >= t.len() {
        Seq::empty()
    } else {
        let end = line_end(t, i);
        let rest = if i <= end < t.len() {
            mounts_from(t, end + 1)
        } else {
            Seq::empty()
        };
        let start = field_start(t, i, end);
        if start < end {
            seq![t.subrange(start, field_stop(t, start, end))] + rest
        } else {
            rest
        }
    }
}

/// The mount points named by a mount table: the second field of every line
/// that has one, in order. Lines end at a line feed.
pub open spec fn mount_points(t: Seq<char>) -> Seq<Seq<char>> {
    mounts_from(t, 0)
}

/// The root of the drive with the given index, `A:\` for 0.
pub open spec fn drive_root(index: u8) -> Seq<char> {
    seq![(65 + index) as char, ':', '\\']
}

/// Whether `c` is white space.
pub fn space(c: char) -> (b: bool)
    ensures
        b == is_space(c),
{
    (c >= '\u{9}' && c <= '\u{D}') || c == ' ' || c == '\u{85}' || c == '\u{A0}' || c == '\u{1680}'
        || (c >= '\u{2000}' && c <= '\u{200A}') || c == '\u{2028}' || c == '\u{2029}' || c
        == '\u{202F}' || c == '\u{205F}' || c == '\u{3000}'
}

/// The characters of a text.
pub fn chars_of(text: &str) -> (r: Vec<char>)
    ensures
        r@ == text@,
{
    let mut out: Vec<char> = Vec::new();
    for c in it: text.chars()
        invariant
            it.seq() == text@,
            out@ == text@.take(it.index() as int),
    {
        out.push(c);
    }
    out
}

/// The text made of `t[lo..hi]`.
pub fn text_of(t: &Vec<char>, lo: usize, hi: usize) -> (r: String)
    requires
        lo <= hi <= t.len(),
    ensures
        r@ == t@.subrange(lo as int, hi as int),
{
    let mut out = String::new();
    let mut i: usize = lo;
    while i < hi
        invariant
            lo <= i <= hi <= t.len(),
            out@ == t@.subrange(lo as int, i as int),
        decreases hi - i,
    {
        out.push(t[i]);
        i = i + 1;
    }
    out
}

fn find_line_end(t: &Vec<char>, from: usize) -> (r: usize)
    requires
        from <= t.len(),
    ensures
        from <= r <= t.len(),
        r == line_end(t@, from as int),
{
    let mut i: usize = from;
    while i < t.len() && t[i] != '\n'
        invariant
            from <= i <= t.len(),
            line_end(t@, from as int) == line_end(t@, i as int),
        decreases t.len() - i,
    {
        i = i + 1;
    }
    i
}

fn find_word(t: &Vec<char>, from: usize, end: usize) -> (r: usize)
    requires
        from <= end <= t.len(),
    ensures
        from <= r <= end,
        r == skip_spaces(t@, from as int, end as int),
{
    let mut i: usize = from;
    while i < end && space(t[i])
        invariant
            from <= i <= end <= t.len(),
            skip_spaces(t@, from as int, end as int) == skip_spaces(t@, i as int, end as int),
        decreases end - i,
    {
        i = i + 1;
    }
    i
}

fn find_space(t: &Vec<char>, from: usize, end: usize) -> (r: usize)
    requires
        from <= end <= t.len(),
    ensures
        from <= r <= end,
        r == skip_word(t@, from as int, end as int),
{
    let mut i: usize = from;
    while i < end && !space(t[i])
        invariant
            from <= i <= end <= t.len(),
            skip_word(t@, from as int, end as int) == skip_word(t@, i as int, end as int),
        decreases end - i,
    {
        i = i + 1;
    }
    i
}

/// Reads the mount points out of a mount table.
pub fn parse_mounts(text: &str) -> (r: Vec<String>)
    ensures
        r.deep_view() == mount_points(text@),
{
    let t = chars_of(text);
    let mut out: Vec<String> = Vec::new();
    let mut i: usize = 0;
    assert(out.deep_view() =~= Seq::<Seq<char>>::empty());
    while i < t.len()
        invariant
            i <= t.len(),
            t@ == text@,
            mount_points(text@) == out.deep_view() + mounts_from(t@, i as int),
        decreases t.len() - i,
    {
        let end = find_line_end(&t, i);
        let first = find_word(&t, i, end);
        let gap = find_space(&t, first, end);
        let start = find_word(&t, gap, end);
        let stop = find_space(&t, start, end);
        let ghost before = out.deep_view();
        let ghost rest = if end < t.len() {
            mounts_from(t@, end as int + 1)
        } else {
            Seq::<Seq<char>>::empty()
        };
        if start < end {
            let field = text_of(&t, start, stop);
            out.push(field);
            assert(out.deep_view() =~= before.push(t@.subrange(start as int, stop as int)));
            assert(out.deep_view() + rest =~= before + (seq![
                t@.subrange(start as int, stop as int),
            ] + rest));
        }
        if end < t.len() {
            i = end + 1;
        } else {
            i = end;
        }
    }
    assert(out.deep_view() + Seq::<Seq<char>>::empty() =~= out.deep_view());
    out
}

/// The root of the drive with the given index.
pub fn drive(index: u8) -> (r: String)
    requires
        index <= 25,
    ensures
        r@ == drive_root(index),
{
    let letter: u8 = 65 + index;
    let mut out = String::new();
    out.push(letter as char);
    out.push(':');
    out.push('\\');
    assert(out@ =~= drive_root(index));
    out
}

} // verus!
