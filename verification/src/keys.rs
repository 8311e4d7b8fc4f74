use vstd::prelude::*;
use crate::mode::Mode;
use crate::text::{chars_eq, chars_of};

verus! {

/// A key of the keyboard, as bindings name it.
#[derive(Clone, Copy, Debug, PartialEq, Eq, Hash, Structural)]
pub enum KeyCode {
    Backspace,
    Enter,
    Left,
    Right,
    Up,
    Down,
    Home,
    End,
    PageUp,
    PageDown,
    Tab,
    Delete,
    Esc,
    F(u8),
    Char(char),
    /// Any key that no binding can name.
    Other,
}

/// The modifier keys held with a key.
#[derive(Clone, Copy, Debug, PartialEq, Eq, Hash, Structural)]
pub struct KeyModifiers {
    pub control: bool,
    pub shift: bool,
    pub alt: bool,
    /// Any other modifier (super, hyper, meta).
    pub other: bool,
}

/// No modifier held.
pub open spec fn no_modifiers() -> KeyModifiers {
    KeyModifiers { control: false, shift: false, alt: false, other: false }
}

impl KeyModifiers {
    /// No modifier held.
    pub fn none() -> (r: KeyModifiers)
        ensures
            r == no_modifiers(),
    {
        KeyModifiers { control: false, shift: false, alt: false, other: false }
    }
}

/// A key together with the modifiers held.
#[derive(Clone, Copy, Debug, PartialEq, Eq, Hash, Structural)]
pub struct KeyChord {
    pub key: KeyCode,
    pub modifiers: KeyModifiers,
}

impl KeyChord {
    /// A chord of a key and modifiers.
    pub fn new(key: KeyCode, modifiers: KeyModifiers) -> (r: KeyChord)
        ensures
            r == (KeyChord { key, modifiers }),
    {
        KeyChord { key, modifiers }
    }

    /// A character key with no modifier.
    pub fn char(c: char) -> (r: KeyChord)
        ensures
            r == (KeyChord { key: KeyCode::Char(c), modifiers: no_modifiers() }),
    {
        Self::new(KeyCode::Char(c), KeyModifiers::none())
    }

    /// A character key with control held.
    pub fn ctrl(c: char) -> (r: KeyChord)
        ensures
            r == (KeyChord {
                key: KeyCode::Char(c),
                modifiers: KeyModifiers { control: true, ..no_modifiers() },
            }),
    {
        Self::new(KeyCode::Char(c), KeyModifiers { control: true, ..KeyModifiers::none() })
    }

    /// A character key with shift held.
    pub fn shift(c: char) -> (r: KeyChord)
        ensures
            r == (KeyChord {
                key: KeyCode::Char(c),
                modifiers: KeyModifiers { shift: true, ..no_modifiers() },
            }),
    {
        Self::new(KeyCode::Char(c), KeyModifiers { shift: true, ..KeyModifiers::none() })
    }

    /// A character key with alt held.
    pub fn alt(c: char) -> (r: KeyChord)
        ensures
            r == (KeyChord {
                key: KeyCode::Char(c),
                modifiers: KeyModifiers { alt: true, ..no_modifiers() },
            }),
    {
        Self::new(KeyCode::Char(c), KeyModifiers { alt: true, ..KeyModifiers::none() })
    }
}

/// The modifier part `ctrl`.
pub open spec fn ctrl_word() -> Seq<char> {
    seq!['c', 't', 'r', 'l']
}

/// The modifier part `shift`.
pub open spec fn shift_word() -> Seq<char> {
    seq!['s', 'h', 'i', 'f', 't']
}

/// The modifier part `alt`.
pub open spec fn alt_word() -> Seq<char> {
    seq!['a', 'l', 't']
}

/// Whether `s` begins with the part `w`, that is `w` alone or `w` followed by `'-'`.
pub open spec fn starts_with_part(s: Seq<char>, w: Seq<char>) -> bool {
    s == w || (s.len() > w.len() && s.take(w.len() as int) == w && s[w.len() as int] == '-')
}

/// What follows the part `w` at the start of `s`.
pub open spec fn after_part(s: Seq<char>, w: Seq<char>) -> Seq<char> {
    if s == w {
        seq![]
    } else {
        s.skip(w.len() as int + 1)
    }
}

/// Removes the leading `ctrl`, `shift` and `alt` parts of a chord description,
/// collecting the modifiers they name.
pub open spec fn strip_modifiers(s: Seq<char>, m: KeyModifiers) -> (Seq<char>, KeyModifiers)
    decreases s.len(),
{
    if starts_with_part(s, ctrl_word()) {
        strip_modifiers(after_part(s, ctrl_word()), KeyModifiers { control: true, ..m })
    } else if starts_with_part(s, shift_word()) {
        strip_modifiers(after_part(s, shift_word()), KeyModifiers { shift: true, ..m })
    } else if starts_with_part(s, alt_word()) {
        strip_modifiers(after_part(s, alt_word()), KeyModifiers { alt: true, ..m })
    } else {
        (s, m)
    }
}

/// The modifier part at position `i`: `ctrl`, `shift`, then `alt`.
pub open spec fn modifier_word(i: int) -> Seq<char> {
    if i == 0 {
        ctrl_word()
    } else if i == 1 {
        shift_word()
    } else {
        alt_word()
    }
}

/// The modifiers `m` with the one that part `i` names held too.
pub open spec fn with_modifier(m: KeyModifiers, i: int) -> KeyModifiers {
    if i == 0 {
        KeyModifiers { control: true, ..m }
    } else if i == 1 {
        KeyModifiers { shift: true, ..m }
    } else {
        KeyModifiers { alt: true, ..m }
    }
}

/// A leading modifier part and its dash are stripped, adding the modifier it names.
pub proof fn lemma_strip_part(i: int, rest: Seq<char>, m: KeyModifiers)
    requires
        0 <= i < 3,
    ensures
        strip_modifiers(modifier_word(i) + seq!['-'] + rest, m) == strip_modifiers(
            rest,
            with_modifier(m, i),
        ),
{
    let w = modifier_word(i);
    let s = w + seq!['-'] + rest;
    assert(s.take(w.len() as int) =~= w);
    assert(s[w.len() as int] == '-');
    assert(after_part(s, w) =~= rest) by {
        assert(s != w) by {
            assert(s.len() != w.len());
        }
        assert(s.skip(w.len() as int + 1) =~= rest);
    }
    if i >= 1 {
        assert(!starts_with_part(s, ctrl_word())) by {
            assert(s[0] == w[0]);
            if s == ctrl_word() {
                assert(s[0] == ctrl_word()[0]);
            }
            if s.len() > 4 && s.take(4) == ctrl_word() {
                assert(s.take(4)[0] == s[0]);
            }
        }
    }
    if i == 2 {
        assert(!starts_with_part(s, shift_word())) by {
            assert(s[0] == w[0]);
            if s == shift_word() {
                assert(s[0] == shift_word()[0]);
            }
            if s.len() > 5 && s.take(5) == shift_word() {
                assert(s.take(5)[0] == s[0]);
            }
        }
    }
}

/// What is left of a description once its modifier parts are stripped does not depend on
/// the modifiers collected so far.
pub proof fn lemma_strip_rest(s: Seq<char>, m1: KeyModifiers, m2: KeyModifiers)
    ensures
        strip_modifiers(s, m1).0 == strip_modifiers(s, m2).0,
    decreases s.len(),
{
    if starts_with_part(s, ctrl_word()) {
        lemma_strip_rest(after_part(s, ctrl_word()), KeyModifiers { control: true, ..m1 }, KeyModifiers { control: true, ..m2 });
    } else if starts_with_part(s, shift_word()) {
        lemma_strip_rest(after_part(s, shift_word()), KeyModifiers { shift: true, ..m1 }, KeyModifiers { shift: true, ..m2 });
    } else if starts_with_part(s, alt_word()) {
        lemma_strip_rest(after_part(s, alt_word()), KeyModifiers { alt: true, ..m1 }, KeyModifiers { alt: true, ..m2 });
    }
}

/// The key a name stands for: the named keys, `f1` to `f12`, or any one-byte character.
pub open spec fn key_of_name(k: Seq<char>) -> Option<KeyCode> {
    if k == seq!['u', 'p'] {
        Some(KeyCode::Up)
    } else if k == seq!['d', 'o', 'w', 'n'] {
        Some(KeyCode::Down)
    } else if k == seq!['l', 'e', 'f', 't'] {
        Some(KeyCode::Left)
    } else if k == seq!['r', 'i', 'g', 'h', 't'] {
        Some(KeyCode::Right)
    } else if k == seq!['e', 's', 'c'] {
        Some(KeyCode::Esc)
    } else if k == seq!['e', 'n', 't', 'e', 'r'] {
        Some(KeyCode::Enter)
    } else if k == seq!['t', 'a', 'b'] {
        Some(KeyCode::Tab)
    } else if k == seq!['b', 'a', 'c', 'k', 's', 'p', 'a', 'c', 'e'] {
        Some(KeyCode::Backspace)
    } else if k == seq!['d', 'e', 'l'] {
        Some(KeyCode::Delete)
    } else if k == seq!['h', 'o', 'm', 'e'] {
        Some(KeyCode::Home)
    } else if k == seq!['e', 'n', 'd'] {
        Some(KeyCode::End)
    } else if k == seq!['p', 'g', 'u', 'p'] {
        Some(KeyCode::PageUp)
    } else if k == seq!['p', 'g', 'd', 'n'] {
        Some(KeyCode::PageDown)
    } else if k.len() == 2 && k[0] == 'f' && '1' <= k[1] <= '9' {
        Some(KeyCode::F((k[1] as u32 - '0' as u32) as u8))
    } else if k == seq!['f', '1', '0'] {
        Some(KeyCode::F(10))
    } else if k == seq!['f', '1', '1'] {
        Some(KeyCode::F(11))
    } else if k == seq!['f', '1', '2'] {
        Some(KeyCode::F(12))
    } else if k.len() == 1 && (k[0] as u32) < 0x80 {
        Some(KeyCode::Char(k[0]))
    } else {
        None
    }
}

/// The chord a description such as `ctrl-shift-left` stands for.
pub open spec fn parse_key_spec(s: Seq<char>) -> Option<KeyChord> {
    let (k, m) = strip_modifiers(s, no_modifiers());
    match key_of_name(k) {
        Some(code) => Some(KeyChord { key: code, modifiers: m }),
        None => None,
    }
}

/// Whether `s[pos..]` begins with the part `w`.
fn part_at(s: &Vec<char>, pos: usize, w: &[char]) -> (r: bool)
    requires
        pos <= s@.len(),
    ensures
        r == starts_with_part(s@.skip(pos as int), w@),
{
    let ghost rest = s@.skip(pos as int);
    let n = w.len();
    if s.len() - pos < n {
        return false;
    }
    let mut i: usize = 0;
    while i < n
        invariant
            n == w@.len(),
            pos + n <= s.len(),
            rest == s@.skip(pos as int),
            i <= n,
            forall|j: int| 0 <= j < i ==> s@[pos + j] == w@[j],
        decreases n - i,
    {
        if s[pos + i] != w[i] {
            assert(rest.take(n as int)[i as int] != w@[i as int]);
            return false;
        }
        i = i + 1;
    }
    assert(rest.take(n as int) =~= w@);
    if s.len() - pos == n {
        assert(rest =~= w@);
        true
    } else {
        s[pos + n] == '-'
    }
}

/// The key a name stands for.
fn key_of_chars(k: &[char]) -> (r: Option<KeyCode>)
    ensures
        r == key_of_name(k@),
{
    if chars_eq(k, &['u', 'p']) {
        Some(KeyCode::Up)
    } else if chars_eq(k, &['d', 'o', 'w', 'n']) {
        Some(KeyCode::Down)
    } else if chars_eq(k, &['l', 'e', 'f', 't']) {
        Some(KeyCode::Left)
    } else if chars_eq(k, &['r', 'i', 'g', 'h', 't']) {
        Some(KeyCode::Right)
    } else if chars_eq(k, &['e', 's', 'c']) {
        Some(KeyCode::Esc)
    } else if chars_eq(k, &['e', 'n', 't', 'e', 'r']) {
        Some(KeyCode::Enter)
    } else if chars_eq(k, &['t', 'a', 'b']) {
        Some(KeyCode::Tab)
    } else if chars_eq(k, &['b', 'a', 'c', 'k', 's', 'p', 'a', 'c', 'e']) {
        Some(KeyCode::Backspace)
    } else if chars_eq(k, &['d', 'e', 'l']) {
        Some(KeyCode::Delete)
    } else if chars_eq(k, &['h', 'o', 'm', 'e']) {
        Some(KeyCode::Home)
    } else if chars_eq(k, &['e', 'n', 'd']) {
        Some(KeyCode::End)
    } else if chars_eq(k, &['p', 'g', 'u', 'p']) {
        Some(KeyCode::PageUp)
    } else if chars_eq(k, &['p', 'g', 'd', 'n']) {
        Some(KeyCode::PageDown)
    } else if k.len() == 2 && k[0] == 'f' && '1' <= k[1] && k[1] <= '9' {
        Some(KeyCode::F((k[1] as u32 - '0' as u32) as u8))
    } else if chars_eq(k, &['f', '1', '0']) {
        Some(KeyCode::F(10))
    } else if chars_eq(k, &['f', '1', '1']) {
        Some(KeyCode::F(11))
    } else if chars_eq(k, &['f', '1', '2']) {
        Some(KeyCode::F(12))
    } else if k.len() == 1 && (k[0] as u32) < 0x80 {
        Some(KeyCode::Char(k[0]))
    } else {
        None
    }
}

/// Parses a chord description: leading `ctrl-`, `shift-` and `alt-` parts, then a key name.
pub fn parse_key_chord(s: &str) -> (r: Option<KeyChord>)
    ensures
        r == parse_key_spec(s@),
{
    let chars = chars_of(s);
    let mut modifiers = KeyModifiers::none();
    let mut pos: usize = 0;
    assert(chars@.skip(0) =~= chars@);
    loop
        invariant
            pos <= chars@.len(),
            chars@ == s@,
            strip_modifiers(s@, no_modifiers()) == strip_modifiers(chars@.skip(pos as int), modifiers),
        ensures
            pos <= chars@.len(),
            chars@ == s@,
            strip_modifiers(s@, no_modifiers()) == (chars@.skip(pos as int), modifiers),
        decreases chars.len() - pos,
    {
        let ghost rest = chars@.skip(pos as int);
        if part_at(&chars, pos, &['c', 't', 'r', 'l']) {
            modifiers = KeyModifiers { control: true, ..modifiers };
            if chars.len() - pos == 4 {
                assert(rest =~= ctrl_word());
                pos = chars.len();
                assert(chars@.skip(pos as int) =~= Seq::<char>::empty());
            } else {
                pos = pos + 5;
                assert(chars@.skip(pos as int) =~= rest.skip(5));
            }
        } else if part_at(&chars, pos, &['s', 'h', 'i', 'f', 't']) {
            modifiers = KeyModifiers { shift: true, ..modifiers };
            if chars.len() - pos == 5 {
                assert(rest =~= shift_word());
                pos = chars.len();
                assert(chars@.skip(pos as int) =~= Seq::<char>::empty());
            } else {
                pos = pos + 6;
                assert(chars@.skip(pos as int) =~= rest.skip(6));
            }
        } else if part_at(&chars, pos, &['a', 'l', 't']) {
            modifiers = KeyModifiers { alt: true, ..modifiers };
            if chars.len() - pos == 3 {
                assert(rest =~= alt_word());
                pos = chars.len();
                assert(chars@.skip(pos as int) =~= Seq::<char>::empty());
            } else {
                pos = pos + 4;
                assert(chars@.skip(pos as int) =~= rest.skip(4));
            }
        } else {
            break;
        }
    }
    let mut key: Vec<char> = Vec::new();
    let mut i = pos;
    while i < chars.len()
        invariant
            pos <= i <= chars@.len(),
            key@ == chars@.subrange(pos as int, i as int),
        decreases chars.len() - i,
    {
        key.push(chars[i]);
        i = i + 1;
    }
    assert(key@ =~= chars@.skip(pos as int));
    match key_of_chars(key.as_slice()) {
        Some(code) => Some(KeyChord::new(code, modifiers)),
        None => None,
    }
}

} // verus!
