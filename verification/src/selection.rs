use vstd::prelude::*;
use crate::text::{chars_of, push_char, string_from_chars};

verus! {

/// A selection with its earlier end first (rows, then columns).
pub open spec fn normalized(sel: ((usize, usize), (usize, usize))) -> ((usize, usize), (
    usize,
    usize,
)) {
    let (s, e) = sel;
    if s.0 < e.0 || (s.0 == e.0 && s.1 <= e.1) {
        sel
    } else {
        (e, s)
    }
}

/// Characters `start` to `end` of a line; from `start` to the line's end when `end`
/// lies beyond it; nothing when `start` does.
pub open spec fn segment(chars: Seq<char>, start: int, end: int) -> Seq<char> {
    if start < chars.len() && end <= chars.len() {
        chars.subrange(start, end)
    } else if start < chars.len() {
        chars.subrange(start, chars.len() as int)
    } else {
        Seq::empty()
    }
}

/// The text of a selection within one line; nothing when the line or either column is
/// out of range.
pub open spec fn single_line_text(lines: Seq<Seq<char>>, start: (usize, usize), end: (
    usize,
    usize,
)) -> Seq<char> {
    if start.0 < lines.len() {
        let l = lines[start.0 as int];
        if end.1 <= l.len() && start.1 <= l.len() {
            l.subrange(start.1 as int, end.1 as int)
        } else {
            Seq::empty()
        }
    } else {
        Seq::empty()
    }
}

/// What line `i` gives to a selection over several lines: from the start column on the
/// first line, up to the end column on the last, whole in between; a line break after
/// every line but the last.
pub open spec fn line_piece(lines: Seq<Seq<char>>, i: int, start: (usize, usize), end: (
    usize,
    usize,
)) -> Seq<char> {
    let l = lines[i];
    (if i == start.0 {
        segment(l, start.1 as int, l.len() as int)
    } else if i == end.0 {
        segment(l, 0, end.1 as int)
    } else {
        l
    }) + (if i < end.0 {
        seq!['\n']
    } else {
        Seq::empty()
    })
}

/// The text a selection over several lines takes from the first `n` lines.
pub open spec fn multi_line_upto(lines: Seq<Seq<char>>, start: (usize, usize), end: (
    usize,
    usize,
), n: int) -> Seq<char>
    decreases n,
{
    if n <= 0 {
        Seq::empty()
    } else {
        multi_line_upto(lines, start, end, n - 1) + if start.0 <= n - 1 <= end.0 {
            line_piece(lines, n - 1, start, end)
        } else {
            Seq::empty()
        }
    }
}

/// The selected text of `lines` for a selection given by its two ends in either order.
pub open spec fn selected_text(lines: Seq<Seq<char>>, sel: ((usize, usize), (usize, usize))) -> Seq<
    char,
> {
    let (s, e) = normalized(sel);
    if s.0 == e.0 {
        single_line_text(lines, s, e)
    } else {
        multi_line_upto(lines, s, e, lines.len() as int)
    }
}

/// The selection with its earlier end first.
pub fn normalize_selection_range(selection: ((usize, usize), (usize, usize))) -> (r: (
    (usize, usize),
    (usize, usize),
))
    ensures
        r == normalized(selection),
{
    let ((start_row, start_col), (end_row, end_col)) = selection;
    if start_row < end_row || (start_row == end_row && start_col <= end_col) {
        ((start_row, start_col), (end_row, end_col))
    } else {
        ((end_row, end_col), (start_row, start_col))
    }
}

/// Whether both ends are on one line.
pub fn is_single_line_selection(start: (usize, usize), end: (usize, usize)) -> (r: bool)
    ensures
        r == (start.0 == end.0),
{
    start.0 == end.0
}

/// The characters `start` to `end` as a string.
fn chars_between(chars: &[char], start: usize, end: usize) -> (r: String)
    requires
        start <= end <= chars@.len(),
    ensures
        r@ == chars@.subrange(start as int, end as int),
{
    let mut r = String::new();
    let mut i: usize = start;
    while i < end
        invariant
            start <= i <= end <= chars@.len(),
            r@ == chars@.subrange(start as int, i as int),
        decreases end - i,
    {
        push_char(&mut r, chars[i]);
        assert(chars@.subrange(start as int, i + 1) =~= chars@.subrange(start as int, i as int).push(
            chars@[i as int],
        ));
        i = i + 1;
    }
    r
}

/// The selected characters of one line.
pub fn extract_single_line_text(lines: &[String], start: (usize, usize), end: (usize, usize)) -> (r:
    String)
    requires
        start.0 < lines@.len() && end.1 <= lines@[start.0 as int]@.len() && start.1
            <= lines@[start.0 as int]@.len() ==> start.1 <= end.1,
    ensures
        r@ == single_line_text(Seq::new(lines@.len(), |i: int| lines@[i]@), start, end),
{
    if start.0 < lines.len() {
        let chars = chars_of(lines[start.0].as_str());
        if end.1 <= chars.len() && start.1 <= chars.len() {
            return chars_between(chars.as_slice(), start.1, end.1);
        }
    }
    String::new()
}

/// Characters `start` to `end`; to the end when `end` lies beyond; nothing when `start`
/// does.
pub fn extract_from_position(chars: &[char], start: usize, end: usize) -> (r: String)
    requires
        start < chars@.len() && end <= chars@.len() ==> start <= end,
    ensures
        r@ == segment(chars@, start as int, end as int),
{
    if start < chars.len() && end <= chars.len() {
        chars_between(chars, start, end)
    } else if start < chars.len() {
        chars_between(chars, start, chars.len())
    } else {
        String::new()
    }
}

/// Appends what line `line_idx` gives to a selection over several lines (without the
/// line break).
pub fn append_line_segment(
    result: &mut String,
    line: &str,
    line_idx: usize,
    start: (usize, usize),
    end: (usize, usize),
)
    ensures
        final(result)@ == old(result)@ + if line_idx == start.0 {
            segment(line@, start.1 as int, line@.len() as int)
        } else if line_idx == end.0 {
            segment(line@, 0, end.1 as int)
        } else {
            line@
        },
{
    let chars = chars_of(line);
    let segment = if line_idx == start.0 {
        extract_from_position(chars.as_slice(), start.1, chars.len())
    } else if line_idx == end.0 {
        extract_from_position(chars.as_slice(), 0, end.1)
    } else {
        string_from_chars(chars.as_slice())
    };
    let seg = chars_of(segment.as_str());
    let mut k: usize = 0;
    let ghost before = result@;
    while k < seg.len()
        invariant
            k <= seg@.len(),
            seg@ == segment@,
            result@ == before + seg@.take(k as int),
        decreases seg.len() - k,
    {
        push_char(result, seg[k]);
        assert(before + seg@.take(k as int + 1) =~= (before + seg@.take(k as int)).push(seg@[k as int]));
        k = k + 1;
    }
    assert(seg@.take(k as int) =~= seg@);
}

/// The selected text of several lines.
pub fn extract_multi_line_text(lines: &[String], start: (usize, usize), end: (usize, usize)) -> (r:
    String)
    ensures
        r@ == multi_line_upto(
            Seq::new(lines@.len(), |i: int| lines@[i]@),
            start,
            end,
            lines@.len() as int,
        ),
{
    let ghost ls = Seq::new(lines@.len(), |i: int| lines@[i]@);
    let mut result = String::new();
    let mut line_idx: usize = 0;
    while line_idx < lines.len()
        invariant
            line_idx <= lines@.len(),
            ls == Seq::new(lines@.len(), |i: int| lines@[i]@),
            result@ == multi_line_upto(ls, start, end, line_idx as int),
        decreases lines.len() - line_idx,
    {
        if line_idx < start.0 || line_idx > end.0 {
            line_idx = line_idx + 1;
            continue;
        }
        append_line_segment(&mut result, lines[line_idx].as_str(), line_idx, start, end);
        if line_idx < end.0 {
            push_char(&mut result, '\n');
        }
        proof {
            assert(ls[line_idx as int] == lines@[line_idx as int]@);
        }
        line_idx = line_idx + 1;
    }
    result
}

/// The selected text of `lines` for a selection given by its two ends in either order.
pub fn build_selected_text(lines: &[String], selection: ((usize, usize), (usize, usize))) -> (r:
    String)
    ensures
        r@ == selected_text(Seq::new(lines@.len(), |i: int| lines@[i]@), selection),
{
    let (start, end) = normalize_selection_range(selection);
    if is_single_line_selection(start, end) {
        extract_single_line_text(lines, start, end)
    } else {
        extract_multi_line_text(lines, start, end)
    }
}

} // verus!
