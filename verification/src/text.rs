//! Character-level text operations: whitespace, trimming and line splitting.
//!
//! Text is modelled as `Seq<char>`. Whitespace is whatever Unicode calls
//! `White_Space`; the library never decides that itself but asks
//! `char::is_whitespace`, whose answer is the uninterpreted [`white_space`].

use vstd::prelude::*;

verus! {

/// Whether `c` has the Unicode `White_Space` property.
pub uninterp spec fn white_space(c: char) -> bool;

/// `char::is_whitespace` answers according to the Unicode `White_Space`
/// property of the character, which [`white_space`] stands for.
pub assume_specification[ char::is_whitespace ](c: char) -> (b: bool)
    ensures
        b == white_space(c),
;

/// `String::push` appends exactly the one character to the string.
pub assume_specification[ String::push ](s: &mut String, c: char)
    ensures
        final(s)@ == old(s)@.push(c),
;

/// `s` without its leading whitespace.
pub open spec fn trim_start(s: Seq<char>) -> Seq<char>
    decreases s.len(),
{
    if s.len() > 0 && white_space(s[0]) {
        trim_start(s.drop_first())
    } else {
        s
    }
}

/// `s` without its trailing whitespace.
pub open spec fn trim_end(s: Seq<char>) -> Seq<char>
    decreases s.len(),
{
    if s.len() > 0 && white_space(s.last()) {
        trim_end(s.drop_last())
    } else {
        s
    }
}

/// `s` without its leading and trailing whitespace.
pub open spec fn trim(s: Seq<char>) -> Seq<char> {
    trim_end(trim_start(s))
}

/// The lines of `text`: the stretches between its line feeds, read from left
/// to right. A text without a line feed is one line, the empty text too.
pub open spec fn lines(text: Seq<char>) -> Seq<Seq<char>>
    decreases text.len(),
{
    if text.len() == 0 {
        seq![Seq::empty()]
    } else {
        let before = lines(text.drop_last());
        if text.last() == '\n' {
            before.push(Seq::empty())
        } else {
            before.drop_last().push(before.last().push(text.last()))
        }
    }
}

/// The edited lines among the raw lines `raw`: each line trimmed, and those
/// dropped that are empty after trimming.
pub open spec fn edited_lines(raw: Seq<Seq<char>>) -> Seq<Seq<char>>
    decreases raw.len(),
{
    if raw.len() == 0 {
        Seq::empty()
    } else {
        let before = edited_lines(raw.drop_last());
        let line = trim(raw.last());
        if line.len() > 0 {
            before.push(line)
        } else {
            before
        }
    }
}

/// The texts of a sequence of strings, position by position.
pub open spec fn texts(strings: Seq<String>) -> Seq<Seq<char>> {
    strings.map_values(|s: String| s@)
}

/// A text has at least one line.
pub proof fn lemma_lines_nonempty(text: Seq<char>)
    ensures
        lines(text).len() >= 1,
    decreases text.len(),
{
    if text.len() > 0 {
        lemma_lines_nonempty(text.drop_last());
    }
}

/// A text that neither begins nor ends with whitespace is its own trimming.
pub proof fn lemma_trim_keeps_trimmed(s: Seq<char>)
    requires
        s.len() > 0 ==> !white_space(s[0]) && !white_space(s.last()),
    ensures
        trim(s) == s,
{
}

/// Trimming twice is trimming once.
pub proof fn lemma_trim_idempotent(s: Seq<char>)
    ensures
        trim(trim(s)) == trim(s),
{
    lemma_trim_start_shape(s);
    lemma_trim_end_shape(trim_start(s));
    lemma_trim_keeps_trimmed(trim(s));
}

/// What is left after trimming at the start is a tail of the text that does
/// not begin with whitespace.
pub proof fn lemma_trim_start_shape(s: Seq<char>)
    ensures
        trim_start(s).len() <= s.len(),
        trim_start(s) == s.skip(s.len() - trim_start(s).len()),
        trim_start(s).len() > 0 ==> !white_space(trim_start(s)[0]),
    decreases s.len(),
{
    if s.len() > 0 && white_space(s[0]) {
        lemma_trim_start_shape(s.drop_first());
    }
}

/// What is left after trimming at the end is a head of the text that does
/// not end with whitespace.
pub proof fn lemma_trim_end_shape(s: Seq<char>)
    ensures
        trim_end(s).len() <= s.len(),
        trim_end(s) == s.take(trim_end(s).len() as int),
        trim_end(s).len() > 0 ==> !white_space(trim_end(s).last()),
    decreases s.len(),
{
    if s.len() > 0 && white_space(s.last()) {
        lemma_trim_end_shape(s.drop_last());
    }
}

/// Lines that are trimmed and not empty are edited lines already.
pub proof fn lemma_edited_lines_keep_edited(edited: Seq<Seq<char>>)
    requires
        forall|i: int|
            0 <= i < edited.len() ==> trim(#[trigger] edited[i]) == edited[i] && edited[i].len()
                > 0,
    ensures
        edited_lines(edited) == edited,
    decreases edited.len(),
{
    if edited.len() > 0 {
        lemma_edited_lines_keep_edited(edited.drop_last());
    }
}

/// Every edited line is trimmed and not empty.
pub proof fn lemma_edited_lines_are_trimmed(raw: Seq<Seq<char>>)
    ensures
        forall|i: int|
            0 <= i < edited_lines(raw).len() ==> trim(#[trigger] edited_lines(raw)[i])
                == edited_lines(raw)[i] && edited_lines(raw)[i].len() > 0,
    decreases raw.len(),
{
    if raw.len() > 0 {
        let before = edited_lines(raw.drop_last());
        let all = edited_lines(raw);
        lemma_edited_lines_are_trimmed(raw.drop_last());
        lemma_trim_idempotent(raw.last());
        assert forall|i: int| 0 <= i < all.len() implies trim(#[trigger] all[i]) == all[i]
            && all[i].len() > 0 by {
            if i < before.len() {
                assert(all[i] == before[i]);
            }
        }
    }
}

/// Taking the edited lines of edited lines changes nothing: lines that were
/// read out of a text can be handed on as raw lines.
pub proof fn lemma_edited_lines_idempotent(raw: Seq<Seq<char>>)
    ensures
        edited_lines(edited_lines(raw)) == edited_lines(raw),
{
    lemma_edited_lines_are_trimmed(raw);
    lemma_edited_lines_keep_edited(edited_lines(raw));
}

/// Appending a stretch without line feed to a text lengthens its last line
/// by that stretch.
pub proof fn lemma_lines_append_stretch(text: Seq<char>, stretch: Seq<char>)
    requires
        !stretch.contains('\n'),
    ensures
        lines(text).len() >= 1,
        lines(text + stretch) == lines(text).drop_last().push(lines(text).last() + stretch),
    decreases stretch.len(),
{
    lemma_lines_nonempty(text);
    if stretch.len() > 0 {
        let head = stretch.drop_last();
        lemma_lines_append_stretch(text, head);
        assert((text + stretch).drop_last() =~= text + head);
        assert(lines(text + head).last().push(stretch.last()) =~= lines(text).last() + stretch);
    }
}

/// Appending a line feed to a text opens a new, empty line.
pub proof fn lemma_lines_append_line_feed(text: Seq<char>)
    ensures
        lines(text + seq!['\n']) == lines(text).push(Seq::empty()),
{
    assert((text + seq!['\n']).drop_last() =~= text);
}

/// The characters of `s`, in order.
pub fn chars_of(s: &str) -> (v: Vec<char>)
    ensures
        v@ == s@,
{
    let mut v: Vec<char> = Vec::new();
    for c in it: s.chars()
        invariant
            v@ == it.seq().take(it.index() as int),
            it.seq() == s@,
    {
        v.push(c);
    }
    v
}

/// The string made of the characters `v[from..to]`.
pub fn string_of(v: &Vec<char>, from: usize, to: usize) -> (s: String)
    requires
        from <= to <= v.len(),
    ensures
        s@ == v@.subrange(from as int, to as int),
{
    let mut s = String::new();
    let mut i: usize = from;
    while i < to
        invariant
            from <= i <= to <= v.len(),
            s@ == v@.subrange(from as int, i as int),
        decreases to - i,
    {
        s.push(v[i]);
        i += 1;
    }
    s
}

/// `s` without its leading and trailing whitespace.
pub fn trimmed(s: &str) -> (t: String)
    ensures
        t@ == trim(s@),
{
    let chars = chars_of(s);
    let (from, to) = trim_bounds(&chars, 0, chars.len());
    proof {
        assert(chars@.subrange(0, chars.len() as int) =~= chars@);
    }
    string_of(&chars, from, to)
}

/// The lines of `text`, in order: the stretches between its line feeds.
pub fn split_lines(text: &str) -> (split: Vec<String>)
    ensures
        texts(split@) == lines(text@),
{
    let chars = chars_of(text);
    let mut split: Vec<String> = Vec::new();
    let mut start: usize = 0;
    let mut i: usize = 0;
    while i < chars.len()
        invariant
            start <= i <= chars.len(),
            lines(chars@.take(i as int)).len() >= 1,
            lines(chars@.take(i as int)).last() == chars@.subrange(start as int, i as int),
            texts(split@) == lines(chars@.take(i as int)).drop_last(),
        decreases chars.len() - i,
    {
        let ghost before = lines(chars@.take(i as int));
        proof {
            assert(chars@.take(i + 1).drop_last() =~= chars@.take(i as int));
            lemma_lines_nonempty(chars@.take(i + 1));
        }
        if chars[i] == '\n' {
            split.push(string_of(&chars, start, i));
            start = i + 1;
            proof {
                assert(before.push(Seq::empty()).drop_last() =~= before);
                assert(before.drop_last().push(before.last()) =~= before);
            }
        } else {
            proof {
                let last = before.last().push(chars@[i as int]);
                assert(before.drop_last().push(last).drop_last() =~= before.drop_last());
            }
        }
        i += 1;
    }
    split.push(string_of(&chars, start, i));
    proof {
        assert(chars@.take(i as int) =~= chars@);
        let all = lines(chars@);
        assert(all.drop_last().push(all.last()) =~= all);
    }
    split
}

/// The edited lines among the raw lines `raw`, in order: each line trimmed,
/// and those left out that are empty after trimming.
pub fn edit_lines(raw: &[String]) -> (edited: Vec<String>)
    ensures
        texts(edited@) == edited_lines(texts(raw@)),
{
    let mut edited: Vec<String> = Vec::new();
    let mut i: usize = 0;
    while i < raw.len()
        invariant
            i <= raw.len(),
            texts(edited@) == edited_lines(texts(raw@).take(i as int)),
        decreases raw.len() - i,
    {
        proof {
            assert(texts(raw@).take(i + 1).drop_last() =~= texts(raw@).take(i as int));
        }
        let line = trimmed(raw[i].as_str());
        if !line.as_str().is_empty() {
            edited.push(line);
        }
        i += 1;
    }
    proof {
        assert(texts(raw@).take(raw.len() as int) =~= texts(raw@));
    }
    edited
}

/// The bounds `(from, to)` of `v[lo..hi]` without its leading and trailing
/// whitespace.
pub fn trim_bounds(v: &Vec<char>, lo: usize, hi: usize) -> (r: (usize, usize))
    requires
        lo <= hi <= v.len(),
    ensures
        lo <= r.0 <= r.1 <= hi,
        v@.subrange(r.0 as int, r.1 as int) == trim(v@.subrange(lo as int, hi as int)),
        r.0 == hi - trim_start(v@.subrange(lo as int, hi as int)).len(),
{
    let mut from: usize = lo;
    while from < hi && v[from].is_whitespace()
        invariant
            lo <= from <= hi <= v.len(),
            trim_start(v@.subrange(lo as int, hi as int)) == trim_start(
                v@.subrange(from as int, hi as int),
            ),
        decreases hi - from,
    {
        assert(v@.subrange(from as int, hi as int).drop_first() =~= v@.subrange(
            from + 1,
            hi as int,
        ));
        from += 1;
    }
    let mut to: usize = hi;
    while from < to && v[to - 1].is_whitespace()
        invariant
            lo <= from <= to <= hi <= v.len(),
            trim_start(v@.subrange(lo as int, hi as int)) == v@.subrange(from as int, hi as int),
            trim(v@.subrange(lo as int, hi as int)) == trim_end(
                v@.subrange(from as int, to as int),
            ),
        decreases to - from,
    {
        assert(v@.subrange(from as int, to as int).drop_last() =~= v@.subrange(
            from as int,
            to - 1,
        ));
        to -= 1;
    }
    (from, to)
}

} // verus!
