use vstd::prelude::*;
use crate::dialogue::Message;
use crate::text::{byte_len, chars_byte_len, chars_of, lemma_byte_len_first, lines_from, lines_of, split_lines, strip_cr};

verus! {

/// `a / b` rounded up.
pub open spec fn ceil_div(a: nat, b: nat) -> nat {
    if b == 0 {
        0
    } else {
        a / b + if a % b != 0 { 1nat } else { 0nat }
    }
}

/// Rows a single line takes when wrapped every `cw` bytes; an empty line takes one row.
pub open spec fn line_rows(l: Seq<char>, cw: nat) -> nat {
    if l.len() == 0 {
        1
    } else {
        ceil_div(byte_len(l), cw)
    }
}

/// Rows a list of lines takes.
pub open spec fn rows_of_lines(ls: Seq<Seq<char>>, cw: nat) -> nat
    decreases ls.len(),
{
    if ls.len() == 0 {
        0
    } else {
        rows_of_lines(ls.drop_last(), cw) + line_rows(ls.last(), cw)
    }
}

/// Rows a text takes when each of its lines wraps every `cw` bytes; at least one.
pub open spec fn wrapped_line_count(s: Seq<char>, cw: nat) -> nat {
    let n = rows_of_lines(lines_of(s), cw);
    if n == 0 {
        1
    } else {
        n
    }
}

/// Width left for text inside a message box of width `w`: four columns less, at least one.
pub open spec fn content_width(w: u16) -> nat {
    if w <= 4 {
        1
    } else {
        (w - 4) as nat
    }
}

/// Rows a message takes on screen at viewport width `w`: its wrapped text and two border rows.
pub open spec fn message_height(m: Message, w: u16) -> nat {
    wrapped_line_count(m.content@, content_width(w)) + 2
}

/// Rows the messages take, one after the other.
pub open spec fn stacked_height(msgs: Seq<Message>, w: u16) -> nat
    decreases msgs.len(),
{
    if msgs.len() == 0 {
        0
    } else {
        stacked_height(msgs.drop_last(), w) + message_height(msgs.last(), w)
    }
}

/// Total height of the content: the stacked height, at least one.
pub open spec fn total_content_height(msgs: Seq<Message>, w: u16) -> nat {
    let t = stacked_height(msgs, w);
    if t == 0 {
        1
    } else {
        t
    }
}

/// A bound on the rows a list of messages can take at any width: its bytes and
/// three rows per message.
pub open spec fn height_budget(msgs: Seq<Message>) -> nat
    decreases msgs.len(),
{
    if msgs.len() == 0 {
        0
    } else {
        height_budget(msgs.drop_last()) + byte_len(msgs.last().content@) + 3
    }
}

/// Messages whose heights, however wrapped, stay within the range of `isize`.
pub open spec fn messages_fit(msgs: Seq<Message>) -> bool {
    height_budget(msgs) <= isize::MAX
}

/// Weight of a list of lines: bytes plus one per line.
pub open spec fn lines_weight(ls: Seq<Seq<char>>) -> nat
    decreases ls.len(),
{
    if ls.len() == 0 {
        0
    } else {
        lines_weight(ls.drop_last()) + byte_len(ls.last()) + 1
    }
}

proof fn lemma_lines_weight_add(a: Seq<Seq<char>>, b: Seq<Seq<char>>)
    ensures
        lines_weight(a + b) == lines_weight(a) + lines_weight(b),
    decreases b.len(),
{
    if b.len() == 0 {
        assert(a + b =~= a);
    } else {
        lemma_lines_weight_add(a, b.drop_last());
        assert((a + b).drop_last() =~= a + b.drop_last());
    }
}

proof fn lemma_lines_weight_single(l: Seq<char>)
    ensures
        lines_weight(seq![l]) == byte_len(l) + 1,
{
    assert(seq![l].drop_last() =~= Seq::<Seq<char>>::empty());
    assert(lines_weight(Seq::<Seq<char>>::empty()) == 0);
    assert(seq![l].last() == l);
}

proof fn lemma_strip_cr_bytes(l: Seq<char>)
    ensures
        byte_len(strip_cr(l)) <= byte_len(l),
{
}

proof fn lemma_lines_from_weight(s: Seq<char>, cur: Seq<char>)
    ensures
        lines_weight(lines_from(s, cur)) <= byte_len(s) + byte_len(cur) + 1,
    decreases s.len(),
{
    if s.len() == 0 {
        if cur.len() > 0 {
            lemma_lines_weight_single(cur);
        }
    } else if s[0] == '\n' {
        lemma_lines_from_weight(s.drop_first(), seq![]);
        lemma_lines_weight_add(seq![strip_cr(cur)], lines_from(s.drop_first(), seq![]));
        lemma_lines_weight_single(strip_cr(cur));
        lemma_strip_cr_bytes(cur);
        lemma_byte_len_first(s);
        assert(byte_len(Seq::<char>::empty()) == 0);
    } else {
        lemma_lines_from_weight(s.drop_first(), cur.push(s[0]));
        assert(cur.push(s[0]).drop_last() =~= cur);
        lemma_byte_len_first(s);
    }
}

/// The lines of a text weigh at most its bytes and one.
pub proof fn lemma_lines_weight(s: Seq<char>)
    ensures
        lines_weight(lines_of(s)) <= byte_len(s) + 1,
{
    lemma_lines_from_weight(s, seq![]);
    assert(byte_len(Seq::<char>::empty()) == 0);
}

proof fn lemma_ceil_div_le(n: nat, cw: nat)
    requires
        cw >= 1,
    ensures
        ceil_div(n, cw) <= n + 1,
        n >= 1 ==> ceil_div(n, cw) <= n,
{
    assert(n / cw <= n) by (nonlinear_arith)
        requires
            cw >= 1,
    ;
    if n >= 1 && n % cw != 0 {
        assert(n / cw < n) by (nonlinear_arith)
            requires
                cw >= 1,
                n >= 1,
                n % cw != 0,
        {
            if cw == 1 {
                assert(n % 1 == 0);
            } else {
                assert(n / cw < n);
            }
        }
    }
}

proof fn lemma_rows_le_weight(ls: Seq<Seq<char>>, cw: nat)
    requires
        cw >= 1,
    ensures
        rows_of_lines(ls, cw) <= lines_weight(ls),
    decreases ls.len(),
{
    if ls.len() > 0 {
        lemma_rows_le_weight(ls.drop_last(), cw);
        lemma_ceil_div_le(byte_len(ls.last()), cw);
    }
}

proof fn lemma_weight_prefix(ls: Seq<Seq<char>>, i: int)
    requires
        0 <= i <= ls.len(),
    ensures
        lines_weight(ls.take(i)) <= lines_weight(ls),
        i < ls.len() ==> lines_weight(ls.take(i)) + byte_len(ls[i]) + 1 <= lines_weight(ls),
{
    lemma_lines_weight_add(ls.take(i), ls.skip(i));
    assert(ls.take(i) + ls.skip(i) =~= ls);
    if i < ls.len() {
        lemma_lines_weight_add(ls.take(i + 1), ls.skip(i + 1));
        assert(ls.take(i + 1) + ls.skip(i + 1) =~= ls);
        assert(ls.take(i + 1).drop_last() =~= ls.take(i));
    }
}

/// The wrapped rows of a text are at most its bytes and one.
pub proof fn lemma_wrapped_line_count_bound(s: Seq<char>, cw: nat)
    requires
        cw >= 1,
    ensures
        wrapped_line_count(s, cw) <= byte_len(s) + 1,
{
    lemma_lines_weight(s);
    lemma_rows_le_weight(lines_of(s), cw);
}

/// A message takes at most its bytes and three rows.
pub proof fn lemma_message_height_bound(m: Message, w: u16)
    ensures
        message_height(m, w) <= byte_len(m.content@) + 3,
{
    lemma_wrapped_line_count_bound(m.content@, content_width(w));
}

/// Stacked heights stay within the budget, prefix by prefix.
pub proof fn lemma_stacked_height_bound(msgs: Seq<Message>, w: u16)
    ensures
        stacked_height(msgs, w) <= height_budget(msgs),
    decreases msgs.len(),
{
    if msgs.len() > 0 {
        lemma_stacked_height_bound(msgs.drop_last(), w);
        lemma_message_height_bound(msgs.last(), w);
    }
}

/// The budget of a prefix is at most the budget of the whole.
pub proof fn lemma_budget_prefix(msgs: Seq<Message>, i: int)
    requires
        0 <= i <= msgs.len(),
    ensures
        height_budget(msgs.take(i)) <= height_budget(msgs),
        i < msgs.len() ==> height_budget(msgs.take(i)) + byte_len(msgs[i].content@) + 3
            <= height_budget(msgs),
    decreases msgs.len() - i,
{
    if i < msgs.len() {
        lemma_budget_prefix(msgs, i + 1);
        assert(msgs.take(i + 1).drop_last() =~= msgs.take(i));
    } else {
        assert(msgs.take(i) =~= msgs);
    }
}

/// Stacked height of one more message.
pub proof fn lemma_stacked_take_next(msgs: Seq<Message>, i: int, w: u16)
    requires
        0 <= i < msgs.len(),
    ensures
        stacked_height(msgs.take(i + 1), w) == stacked_height(msgs.take(i), w) + message_height(
            msgs[i],
            w,
        ),
{
    assert(msgs.take(i + 1).drop_last() =~= msgs.take(i));
}

/// Width available for text inside a message box (four columns for borders and padding).
pub fn calculate_content_width(viewport_width: u16) -> (r: usize)
    ensures
        r == content_width(viewport_width),
{
    let w = viewport_width.saturating_sub(4);
    if w < 1 {
        1
    } else {
        w as usize
    }
}

/// Rows a text takes when each of its lines wraps every `content_width` bytes.
pub fn calculate_wrapped_line_count(content: &str, content_width: usize) -> (r: usize)
    requires
        content_width >= 1,
        byte_len(content@) + 1 <= usize::MAX,
    ensures
        r == wrapped_line_count(content@, content_width as nat),
{
    let chars = chars_of(content);
    let lines = split_lines(chars.as_slice());
    let ghost ls = lines_of(content@);
    proof {
        lemma_lines_weight(content@);
        lemma_rows_le_weight(ls, content_width as nat);
    }
    let mut line_count: usize = 0;
    let mut i: usize = 0;
    while i < lines.len()
        invariant
            i <= lines@.len(),
            lines@.len() == ls.len(),
            forall|k: int| 0 <= k < lines@.len() ==> #[trigger] lines@[k]@ == ls[k],
            content_width >= 1,
            lines_weight(ls) <= byte_len(content@) + 1,
            byte_len(content@) + 1 <= usize::MAX,
            line_count == rows_of_lines(ls.take(i as int), content_width as nat),
        decreases lines.len() - i,
    {
        proof {
            lemma_weight_prefix(ls, i as int);
            lemma_rows_le_weight(ls.take(i as int), content_width as nat);
            lemma_ceil_div_le(byte_len(ls[i as int]), content_width as nat);
            assert(ls.take(i as int + 1).drop_last() =~= ls.take(i as int));
            assert(lines@[i as int]@ == ls[i as int]);
        }
        let line = &lines[i];
        if line.len() == 0 {
            line_count = line_count + 1;
        } else {
            let bytes = chars_byte_len(line.as_slice());
            let rows = bytes / content_width + if bytes % content_width != 0 { 1 } else { 0 };
            line_count = line_count + rows;
        }
        i = i + 1;
    }
    assert(ls.take(i as int) =~= ls);
    if line_count == 0 {
        line_count = 1;
    }
    line_count
}

/// Rows taken by the top and bottom borders of a message box.
pub fn calculate_border_padding() -> (r: usize)
    ensures
        r == 2,
{
    2
}

/// Rows a message takes on screen at viewport width `viewport_width`.
pub fn calculate_message_display_height(message: &Message, viewport_width: u16) -> (r: usize)
    requires
        byte_len(message.content@) + 3 <= usize::MAX,
    ensures
        r == message_height(*message, viewport_width),
{
    proof {
        lemma_message_height_bound(*message, viewport_width);
    }
    let content_width = calculate_content_width(viewport_width);
    let line_count = calculate_wrapped_line_count(message.content.as_str(), content_width);
    line_count + calculate_border_padding()
}

/// Total rows the messages take, at least one.
pub fn calculate_total_content_height(messages: &[Message], viewport_width: u16) -> (r: usize)
    requires
        messages_fit(messages@),
    ensures
        r == total_content_height(messages@, viewport_width),
        r <= isize::MAX,
{
    let mut total: usize = 0;
    let mut i: usize = 0;
    while i < messages.len()
        invariant
            i <= messages@.len(),
            messages_fit(messages@),
            total == stacked_height(messages@.take(i as int), viewport_width),
        decreases messages.len() - i,
    {
        proof {
            lemma_budget_prefix(messages@, i as int);
            lemma_stacked_height_bound(messages@.take(i as int), viewport_width);
            lemma_message_height_bound(messages@[i as int], viewport_width);
            lemma_stacked_take_next(messages@, i as int, viewport_width);
        }
        let h = calculate_message_display_height(&messages[i], viewport_width);
        total = total + h;
        i = i + 1;
    }
    assert(messages@.take(i as int) =~= messages@);
    proof {
        lemma_stacked_height_bound(messages@, viewport_width);
    }
    if total < 1 {
        1
    } else {
        total
    }
}

} // verus!
