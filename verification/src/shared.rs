use vstd::prelude::*;
use crate::text::{
    byte_len, char_byte_len, char_len_utf8, chars_of, lemma_byte_len_add, lemma_byte_len_ge_len,
    string_from_chars,
};

verus! {

/// Whether the first `k` characters of `s` take exactly `b` bytes.
pub open spec fn is_boundary(s: Seq<char>, b: int, k: int) -> bool {
    0 <= k <= s.len() && byte_len(s.take(k)) == b
}

/// How many characters make up the first `b` bytes of `s`; -1 when byte `b` falls inside a
/// character or beyond the end.
pub open spec fn chars_for_bytes(s: Seq<char>, b: int) -> int {
    if exists|k: int| is_boundary(s, b, k) {
        choose|k: int| is_boundary(s, b, k)
    } else {
        -1
    }
}

/// Position of the last space of `s`; -1 when there is none.
pub open spec fn last_space(s: Seq<char>) -> int {
    if exists|i: int| 0 <= i < s.len() && s[i] == ' ' {
        choose|i: int|
            0 <= i < s.len() && s[i] == ' ' && forall|j: int| i < j < s.len() ==> s[j] != ' '
    } else {
        -1
    }
}

/// The pieces a text is cut into so that each fits in `width` bytes: at the last space
/// within the width (dropped), else right at the width; the remainder as the last piece.
#[verifier::opaque]
pub open spec fn wrap_pieces(s: Seq<char>, width: int) -> Seq<Seq<char>>
    decreases s.len(),
{
    if width <= 0 || byte_len(s) <= width {
        if s.len() > 0 {
            seq![s]
        } else {
            Seq::empty()
        }
    } else {
        let k = chars_for_bytes(s, width);
        if 0 < k <= s.len() {
            let p = last_space(s.take(k));
            if 0 <= p < k {
                seq![s.take(p)] + wrap_pieces(s.skip(p + 1), width)
            } else {
                seq![s.take(k)] + wrap_pieces(s.skip(k), width)
            }
        } else {
            Seq::empty()
        }
    }
}

/// Whether cutting never splits a character: the width is positive and, each time the
/// rest is too long, the width falls on a character boundary.
#[verifier::opaque]
pub open spec fn wrap_ok(s: Seq<char>, width: int) -> bool
    decreases s.len(),
{
    if width <= 0 {
        false
    } else if byte_len(s) <= width {
        true
    } else {
        let k = chars_for_bytes(s, width);
        if 0 < k <= s.len() {
            let p = last_space(s.take(k));
            if 0 <= p < k {
                wrap_ok(s.skip(p + 1), width)
            } else {
                wrap_ok(s.skip(k), width)
            }
        } else {
            false
        }
    }
}

proof fn lemma_take_bytes_increase(s: Seq<char>, k1: int, k2: int)
    requires
        0 <= k1 < k2 <= s.len(),
    ensures
        byte_len(s.take(k1)) < byte_len(s.take(k2)),
{
    lemma_byte_len_add(s.take(k1), s.subrange(k1, k2));
    assert(s.take(k1) + s.subrange(k1, k2) =~= s.take(k2));
    lemma_byte_len_ge_len(s.subrange(k1, k2));
}

/// How many characters make up the first `b` bytes; none when byte `b` splits a
/// character or lies beyond the end.
fn find_boundary(s: &[char], start: usize, b: usize) -> (r: Option<usize>)
    requires
        start <= s@.len(),
    ensures
        match r {
            Some(k) => chars_for_bytes(s@.skip(start as int), b as int) == k as int,
            None => chars_for_bytes(s@.skip(start as int), b as int) == -1,
        },
{
    let ghost t = s@.skip(start as int);
    let mut j: usize = 0;
    let mut acc: usize = 0;
    assert(t.take(0) =~= Seq::<char>::empty());
    while j < s.len() - start && acc < b
        invariant
            start <= s@.len(),
            t == s@.skip(start as int),
            j <= t.len(),
            acc == byte_len(t.take(j as int)),
            acc <= b,
            forall|k: int| 0 <= k < j ==> byte_len(#[trigger] t.take(k)) < b,
        decreases t.len() - j,
    {
        assert(t.take(j as int + 1).drop_last() =~= t.take(j as int));
        assert(t[j as int] == s@[start + j]);
        let c = char_len_utf8(s[start + j]);
        if c > b - acc {
            proof {
                assert forall|k: int| is_boundary(t, b as int, k) implies false by {
                    if k <= j {
                        if k < j {
                            assert(byte_len(t.take(k)) < b);
                        }
                    } else {
                        lemma_take_bytes_increase(t, j as int + 1, k);
                        if k == j + 1 {
                        }
                    }
                }
            }
            return None;
        }
        proof {
            lemma_take_bytes_increase(t, j as int, j as int + 1);
        }
        acc = acc + c;
        j = j + 1;
    }
    if acc == b {
        proof {
            assert(is_boundary(t, b as int, j as int));
            let k = choose|k: int| is_boundary(t, b as int, k);
            if k < j as int {
                assert(byte_len(t.take(k)) < b);
            } else if k > j as int {
                lemma_take_bytes_increase(t, j as int, k);
            }
        }
        Some(j)
    } else {
        proof {
            assert forall|k: int| is_boundary(t, b as int, k) implies false by {
                if k < j {
                    assert(byte_len(t.take(k)) < b);
                } else if k > j {
                    lemma_take_bytes_increase(t, j as int, k);
                }
            }
        }
        None
    }
}

/// Position of the last space among characters `start` to `start + k`.
fn find_last_space(s: &[char], start: usize, k: usize) -> (r: Option<usize>)
    requires
        start + k <= s@.len(),
    ensures
        match r {
            Some(p) => last_space(s@.skip(start as int).take(k as int)) == p as int && p < k,
            None => last_space(s@.skip(start as int).take(k as int)) == -1,
        },
{
    let ghost u = s@.skip(start as int).take(k as int);
    let n = s.len();
    assert(start + k <= n);
    let mut i: usize = k;
    while i > 0
        invariant
            start + k <= s@.len(),
            n == s@.len(),
            u == s@.skip(start as int).take(k as int),
            i <= k,
            forall|j: int| i <= j < k ==> u[j] != ' ',
        decreases i,
    {
        assert(u[i - 1] == s@[start + (i - 1)]);
        if s[start + (i - 1)] == ' ' {
            proof {
                let p = (i - 1) as int;
                let q = choose|q: int|
                    0 <= q < u.len() && u[q] == ' ' && forall|j: int| q < j < u.len() ==> u[j] != ' ';
                if q < p {
                    assert(u[p] != ' ');
                } else if q > p {
                    assert(u[q] != ' ');
                }
            }
            return Some(i - 1);
        }
        i = i - 1;
    }
    None
}

/// Bytes of characters `start` on.
fn rest_bytes(s: &[char], start: usize) -> (r: u128)
    requires
        start <= s@.len(),
    ensures
        r == byte_len(s@.skip(start as int)),
{
    let ghost t = s@.skip(start as int);
    let mut total: u128 = 0;
    let mut j: usize = start;
    assert(t.take(0) =~= Seq::<char>::empty());
    while j < s.len()
        invariant
            start <= j <= s@.len(),
            t == s@.skip(start as int),
            total == byte_len(t.take(j - start)),
            total <= 4 * (j - start),
        decreases s@.len() - j,
    {
        assert(t.take(j - start + 1).drop_last() =~= t.take(j - start));
        assert(t[j - start] == s@[j as int]);
        total = total + char_len_utf8(s[j]) as u128;
        j = j + 1;
    }
    assert(t.take(j - start) =~= t);
    total
}

proof fn lemma_wrap_step(t: Seq<char>, w: int)
    requires
        w > 0,
        byte_len(t) > w,
        wrap_ok(t, w),
    ensures
        0 < chars_for_bytes(t, w) <= t.len(),
        ({
            let k = chars_for_bytes(t, w);
            let p = last_space(t.take(k));
            if 0 <= p < k {
                &&& wrap_pieces(t, w) == seq![t.take(p)] + wrap_pieces(t.skip(p + 1), w)
                &&& wrap_ok(t.skip(p + 1), w)
            } else {
                &&& wrap_pieces(t, w) == seq![t.take(k)] + wrap_pieces(t.skip(k), w)
                &&& wrap_ok(t.skip(k), w)
            }
        }),
{
    reveal(wrap_pieces);
    reveal(wrap_ok);
}

/// The whole rest is one piece when it fits (none when empty); a positive width is
/// needed for cutting to be fine.
proof fn lemma_wrap_last(t: Seq<char>, w: int)
    requires
        byte_len(t) <= w,
    ensures
        wrap_pieces(t, w) == if t.len() > 0 {
            seq![t]
        } else {
            Seq::<Seq<char>>::empty()
        },
{
    reveal(wrap_pieces);
}

proof fn lemma_wrap_ok_width(t: Seq<char>, w: int)
    requires
        wrap_ok(t, w),
    ensures
        w > 0,
{
    reveal(wrap_ok);
}

/// Characters `from` to `to` as a string.
fn piece_of(chars: &[char], from: usize, to: usize) -> (r: String)
    requires
        from <= to <= chars@.len(),
    ensures
        r@ == chars@.subrange(from as int, to as int),
{
    let mut piece: Vec<char> = Vec::new();
    let mut q: usize = from;
    while q < to
        invariant
            from <= q <= to <= chars@.len(),
            piece@ == chars@.subrange(from as int, q as int),
        decreases to - q,
    {
        piece.push(chars[q]);
        assert(piece@ =~= chars@.subrange(from as int, q as int + 1));
        q = q + 1;
    }
    string_from_chars(piece.as_slice())
}

/// Cuts the next piece off the characters from `start` on, when they take more than
/// `width` bytes; where the rest begins comes back too.
#[verifier::spinoff_prover]
fn cut_piece(chars: &[char], start: usize, width: usize) -> (r: (String, usize))
    requires
        start <= chars@.len(),
        width > 0,
        byte_len(chars@.skip(start as int)) > width,
        wrap_ok(chars@.skip(start as int), width as int),
    ensures
        start < r.1 <= chars@.len(),
        wrap_pieces(chars@.skip(start as int), width as int) == seq![r.0@] + wrap_pieces(
            chars@.skip(r.1 as int),
            width as int,
        ),
        wrap_ok(chars@.skip(r.1 as int), width as int),
{
    let ghost t = chars@.skip(start as int);
    let n = chars.len();
    proof {
        lemma_wrap_step(t, width as int);
    }
    let k = match find_boundary(chars, start, width) {
        Some(k) => k,
        None => {
            assert(false);
            return (String::new(), chars.len());
        },
    };
    assert(start + k <= n);
    match find_last_space(chars, start, k) {
        Some(p) => {
            let piece = piece_of(chars, start, start + p);
            proof {
                assert(chars@.subrange(start as int, start + p) =~= t.take(p as int));
                assert(chars@.skip(start + p + 1) =~= t.skip(p as int + 1));
            }
            (piece, start + p + 1)
        },
        None => {
            let piece = piece_of(chars, start, start + k);
            proof {
                assert(chars@.subrange(start as int, start + k) =~= t.take(k as int));
                assert(chars@.skip(start + k) =~= t.skip(k as int));
            }
            (piece, start + k)
        },
    }
}

/// Cuts a text into pieces of at most `width` bytes, at the last space within the width
/// when there is one (the space dropped), else right at the width.
pub fn wrap_text(text: &str, width: usize) -> (r: Vec<String>)
    requires
        wrap_ok(text@, width as int),
    ensures
        r@.len() == wrap_pieces(text@, width as int).len(),
        forall|i: int| 0 <= i < r@.len() ==> #[trigger] r@[i]@ == wrap_pieces(text@, width as int)[i],
{
    let chars = chars_of(text);
    let ghost all = chars@;
    let mut lines: Vec<String> = Vec::new();
    let mut start: usize = 0;
    assert(all.skip(0) =~= all);
    proof {
        lemma_wrap_ok_width(all, width as int);
    }
    assert(Seq::new(lines@.len(), |i: int| lines@[i]@) + wrap_pieces(all, width as int) =~= wrap_pieces(all, width as int));
    while rest_bytes(chars.as_slice(), start) > width as u128
        invariant
            chars@ == all,
            all == text@,
            start <= all.len(),
            width > 0,
            wrap_ok(all.skip(start as int), width as int),
            Seq::new(lines@.len(), |i: int| lines@[i]@) + wrap_pieces(all.skip(start as int), width as int)
                == wrap_pieces(all, width as int),
        decreases all.len() - start,
    {
        let ghost before = Seq::new(lines@.len(), |i: int| lines@[i]@);
        let (piece, next) = cut_piece(chars.as_slice(), start, width);
        let ghost pv = piece@;
        lines.push(piece);
        proof {
            let after = Seq::new(lines@.len(), |i: int| lines@[i]@);
            assert(after =~= before.push(pv));
            assert(before + (seq![pv] + wrap_pieces(all.skip(next as int), width as int)) =~= after
                + wrap_pieces(all.skip(next as int), width as int));
        }
        start = next;
    }
    let ghost before = Seq::new(lines@.len(), |i: int| lines@[i]@);
    proof {
        lemma_wrap_last(all.skip(start as int), width as int);
    }
    if start < chars.len() {
        let piece = piece_of(chars.as_slice(), start, chars.len());
        assert(piece@ =~= all.skip(start as int));
        lines.push(piece);
        proof {
            let after = Seq::new(lines@.len(), |i: int| lines@[i]@);
            assert(after =~= before + wrap_pieces(all.skip(start as int), width as int));
        }
    } else {
        assert(all.skip(start as int) =~= Seq::<char>::empty());
        assert(before + wrap_pieces(all.skip(start as int), width as int) =~= before);
    }
    lines
}

} // verus!
