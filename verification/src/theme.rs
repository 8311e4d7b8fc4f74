use vstd::prelude::*;
use crate::text::{owned, str_eq};

verus! {

/// A terminal colour, by name.
#[derive(Clone, Copy, Debug, PartialEq, Eq, Structural)]
pub enum Color {
    Reset,
    Black,
    Red,
    Green,
    Yellow,
    Blue,
    Magenta,
    Cyan,
    Gray,
    DarkGray,
    LightRed,
    LightGreen,
    LightYellow,
    LightBlue,
    LightMagenta,
    LightCyan,
    White,
}

/// The style of a box border.
#[derive(Clone, Copy, Debug, PartialEq, Eq, Structural)]
pub enum BorderType {
    Plain,
    Double,
    Rounded,
    Thick,
    QuadrantInside,
    QuadrantOutside,
}

/// What `str::to_lowercase` returns for the characters `s`.
pub uninterp spec fn lowercase_of(s: Seq<char>) -> Seq<char>;

/// Whether every character is ASCII.
pub open spec fn is_ascii_text(s: Seq<char>) -> bool {
    forall|i: int| 0 <= i < s.len() ==> (s[i] as u32) < 0x80
}

/// The characters with ASCII `A` to `Z` turned into `a` to `z`, the others kept.
pub open spec fn ascii_lowercase(s: Seq<char>) -> Seq<char> {
    Seq::new(
        s.len(),
        |i: int|
            if 'A' <= s[i] && s[i] <= 'Z' {
                ((s[i] as u32) + 32) as char
            } else {
                s[i]
            },
    )
}

/// `str::to_lowercase`: the lowercase equivalent of a string, as Unicode defines it.
/// Its result is a function of its argument alone (no locale takes part). Of an ASCII
/// text it is the text with `A` to `Z` lowered and the rest kept, as Unicode's lowercase
/// mapping (and std's `to_ascii_lowercase`) has it; of other characters nothing is stated.
#[verifier::external_body]
fn to_lowercase(s: &str) -> (r: String)
    ensures
        r@ == lowercase_of(s@),
        is_ascii_text(s@) ==> r@ == ascii_lowercase(s@),
{
    s.to_lowercase()
}

/// The colour a lowercase colour name stands for.
pub open spec fn color_of_name(s: Seq<char>) -> Option<Color> {
    if s == "black"@ {
        Some(Color::Black)
    } else if s == "red"@ {
        Some(Color::Red)
    } else if s == "green"@ {
        Some(Color::Green)
    } else if s == "yellow"@ {
        Some(Color::Yellow)
    } else if s == "blue"@ {
        Some(Color::Blue)
    } else if s == "magenta"@ {
        Some(Color::Magenta)
    } else if s == "cyan"@ {
        Some(Color::Cyan)
    } else if s == "gray"@ {
        Some(Color::Gray)
    } else if s == "dark_gray"@ {
        Some(Color::DarkGray)
    } else if s == "light_red"@ {
        Some(Color::LightRed)
    } else if s == "light_green"@ {
        Some(Color::LightGreen)
    } else if s == "light_yellow"@ {
        Some(Color::LightYellow)
    } else if s == "light_blue"@ {
        Some(Color::LightBlue)
    } else if s == "light_magenta"@ {
        Some(Color::LightMagenta)
    } else if s == "light_cyan"@ {
        Some(Color::LightCyan)
    } else if s == "white"@ {
        Some(Color::White)
    } else {
        None
    }
}

/// The name a configuration gives each colour.
pub open spec fn color_name(x: Color) -> Seq<char> {
    match x {
        Color::Black => "black"@,
        Color::Red => "red"@,
        Color::Green => "green"@,
        Color::Yellow => "yellow"@,
        Color::Blue => "blue"@,
        Color::Magenta => "magenta"@,
        Color::Cyan => "cyan"@,
        Color::Gray => "gray"@,
        Color::DarkGray => "dark_gray"@,
        Color::LightRed => "light_red"@,
        Color::LightGreen => "light_green"@,
        Color::LightYellow => "light_yellow"@,
        Color::LightBlue => "light_blue"@,
        Color::LightMagenta => "light_magenta"@,
        Color::LightCyan => "light_cyan"@,
        Color::White => "white"@,
        Color::Reset => "reset"@,
    }
}

/// The name a configuration gives each border style.
pub open spec fn border_name(x: BorderType) -> Seq<char> {
    match x {
        BorderType::Plain => "plain"@,
        BorderType::Double => "double"@,
        BorderType::Rounded => "rounded"@,
        BorderType::Thick => "thick"@,
        BorderType::QuadrantInside => "quadrant_inside"@,
        BorderType::QuadrantOutside => "quadrant_outside"@,
    }
}

/// The colour a lowercase colour name stands for.
pub fn parse_color_name(s: &str) -> (r: Option<Color>)
    ensures
        r == color_of_name(s@),
{
    if str_eq(s, "black") {
        Some(Color::Black)
    } else if str_eq(s, "red") {
        Some(Color::Red)
    } else if str_eq(s, "green") {
        Some(Color::Green)
    } else if str_eq(s, "yellow") {
        Some(Color::Yellow)
    } else if str_eq(s, "blue") {
        Some(Color::Blue)
    } else if str_eq(s, "magenta") {
        Some(Color::Magenta)
    } else if str_eq(s, "cyan") {
        Some(Color::Cyan)
    } else if str_eq(s, "gray") {
        Some(Color::Gray)
    } else if str_eq(s, "dark_gray") {
        Some(Color::DarkGray)
    } else if str_eq(s, "light_red") {
        Some(Color::LightRed)
    } else if str_eq(s, "light_green") {
        Some(Color::LightGreen)
    } else if str_eq(s, "light_yellow") {
        Some(Color::LightYellow)
    } else if str_eq(s, "light_blue") {
        Some(Color::LightBlue)
    } else if str_eq(s, "light_magenta") {
        Some(Color::LightMagenta)
    } else if str_eq(s, "light_cyan") {
        Some(Color::LightCyan)
    } else if str_eq(s, "white") {
        Some(Color::White)
    } else {
        None
    }
}

/// The colour a colour name stands for, whatever its case.
pub fn parse_color(s: &str) -> (r: Option<Color>)
    ensures
        r == color_of_name(lowercase_of(s@)),
        is_ascii_text(s@) ==> r == color_of_name(ascii_lowercase(s@)),
{
    let lower = to_lowercase(s);
    parse_color_name(lower.as_str())
}

/// The border style a lowercase name stands for.
pub open spec fn border_of_name(s: Seq<char>) -> Option<BorderType> {
    if s == "plain"@ {
        Some(BorderType::Plain)
    } else if s == "double"@ {
        Some(BorderType::Double)
    } else if s == "rounded"@ {
        Some(BorderType::Rounded)
    } else if s == "thick"@ {
        Some(BorderType::Thick)
    } else if s == "quadrant_inside"@ {
        Some(BorderType::QuadrantInside)
    } else if s == "quadrant_outside"@ {
        Some(BorderType::QuadrantOutside)
    } else {
        None
    }
}

/// The border style a lowercase name stands for.
pub fn parse_border_type_name(s: &str) -> (r: Option<BorderType>)
    ensures
        r == border_of_name(s@),
{
    if str_eq(s, "plain") {
        Some(BorderType::Plain)
    } else if str_eq(s, "double") {
        Some(BorderType::Double)
    } else if str_eq(s, "rounded") {
        Some(BorderType::Rounded)
    } else if str_eq(s, "thick") {
        Some(BorderType::Thick)
    } else if str_eq(s, "quadrant_inside") {
        Some(BorderType::QuadrantInside)
    } else if str_eq(s, "quadrant_outside") {
        Some(BorderType::QuadrantOutside)
    } else {
        None
    }
}

/// The border style a name stands for, whatever its case.
pub fn parse_border_type(s: &str) -> (r: Option<BorderType>)
    ensures
        r == border_of_name(lowercase_of(s@)),
        is_ascii_text(s@) ==> r == border_of_name(ascii_lowercase(s@)),
{
    let lower = to_lowercase(s);
    parse_border_type_name(lower.as_str())
}

/// A named section of settings: pairs of a key and a value.
#[derive(Debug)]
pub struct Section {
    pub name: String,
    pub fields: Vec<(String, String)>,
}

/// The built-in theme settings.
pub fn default_theme_string_map() -> (r: Vec<Section>)
    ensures
        r@.len() == 1,
        r@[0].name@ == "theme"@,
        r@[0].fields@.len() == 2,
        r@[0].fields@[0].0@ == "highlight_color"@,
        r@[0].fields@[0].1@ == "blue"@,
        r@[0].fields@[1].0@ == "secondary_color"@,
        r@[0].fields@[1].1@ == "dark_gray"@,
{
    let fields = vec![
        (owned("highlight_color"), owned("blue")),
        (owned("secondary_color"), owned("dark_gray")),
    ];
    vec![Section { name: owned("theme"), fields }]
}

/// The colours of the interface.
#[derive(Clone, Copy, Debug, PartialEq, Eq, Structural)]
pub struct Theme {
    pub highlight_color: Color,
    pub secondary_color: Color,
}

/// Whether `p` is the first position of the section named `name`.
pub open spec fn is_section_pos(s: Seq<Section>, name: Seq<char>, p: int) -> bool {
    &&& 0 <= p < s.len()
    &&& s[p].name@ == name
    &&& forall|q: int| 0 <= q < p ==> s[q].name@ != name
}

/// Whether `p` is the first position of the field `key`.
pub open spec fn is_field_pos(f: Seq<(String, String)>, key: Seq<char>, p: int) -> bool {
    &&& 0 <= p < f.len()
    &&& f[p].0@ == key
    &&& forall|q: int| 0 <= q < p ==> f[q].0@ != key
}

/// The value of field `key` (its first occurrence).
pub open spec fn field_value(f: Seq<(String, String)>, key: Seq<char>) -> Option<Seq<char>> {
    if exists|p: int| is_field_pos(f, key, p) {
        Some(f[choose|p: int| is_field_pos(f, key, p)].1@)
    } else {
        None
    }
}

/// The colour a field names, else the fallback.
pub open spec fn color_setting(f: Seq<(String, String)>, key: Seq<char>, fallback: Color) -> Color {
    match field_value(f, key) {
        Some(v) => match color_of_name(lowercase_of(v)) {
            Some(c) => c,
            None => fallback,
        },
        None => fallback,
    }
}

/// The theme the fields give: the highlight colour (blue when missing or unknown) and the
/// secondary colour (dark gray when missing or unknown).
pub open spec fn theme_of_fields(f: Seq<(String, String)>) -> Theme {
    Theme {
        highlight_color: color_setting(f, "highlight_color"@, Color::Blue),
        secondary_color: color_setting(f, "secondary_color"@, Color::DarkGray),
    }
}

fn section_position(s: &Vec<Section>, name: &str) -> (r: Option<usize>)
    ensures
        match r {
            Some(p) => is_section_pos(s@, name@, p as int),
            None => forall|q: int| 0 <= q < s@.len() ==> s@[q].name@ != name@,
        },
{
    let mut i: usize = 0;
    while i < s.len()
        invariant
            i <= s@.len(),
            forall|q: int| 0 <= q < i ==> s@[q].name@ != name@,
        decreases s.len() - i,
    {
        if str_eq(s[i].name.as_str(), name) {
            return Some(i);
        }
        i = i + 1;
    }
    None
}

fn get_field<'a>(f: &'a Vec<(String, String)>, key: &str) -> (r: Option<&'a String>)
    ensures
        match r {
            Some(v) => field_value(f@, key@) == Some(v@),
            None => field_value(f@, key@) is None,
        },
{
    let mut i: usize = 0;
    while i < f.len()
        invariant
            i <= f@.len(),
            forall|q: int| 0 <= q < i ==> f@[q].0@ != key@,
        decreases f.len() - i,
    {
        if str_eq(f[i].0.as_str(), key) {
            proof {
                assert(is_field_pos(f@, key@, i as int));
                let p = choose|p: int| is_field_pos(f@, key@, p);
                assert(p == i) by {
                    if p < i {
                        assert(f@[p].0@ == key@);
                    }
                }
            }
            return Some(&f[i].1);
        }
        i = i + 1;
    }
    None
}

fn color_field(f: &Vec<(String, String)>, key: &str, fallback: Color) -> (r: Color)
    ensures
        r == color_setting(f@, key@, fallback),
{
    match get_field(f, key) {
        Some(v) => match parse_color(v.as_str()) {
            Some(c) => c,
            None => fallback,
        },
        None => fallback,
    }
}

impl Theme {
    /// The theme read from settings: the `theme` section when present, else the built-in one.
    pub fn from_string_map(raw: Vec<Section>) -> (r: Result<Theme, String>)
        ensures
            match r {
                Ok(t) => if exists|p: int| is_section_pos(raw@, "theme"@, p) {
                    t == theme_of_fields(raw@[choose|p: int| is_section_pos(raw@, "theme"@, p)].fields@)
                } else {
                    exists|d: Seq<(String, String)>|
                        d.len() == 2 && d[0].0@ == "highlight_color"@ && d[0].1@ == "blue"@ && d[1].0@
                            == "secondary_color"@ && d[1].1@ == "dark_gray"@ && t == theme_of_fields(d)
                },
                Err(_) => false,
            },
    {
        let defaults = default_theme_string_map();
        let theme_section = match section_position(&raw, "theme") {
            Some(p) => {
                proof {
                    let pp = choose|q: int| is_section_pos(raw@, "theme"@, q);
                    assert(p == pp) by {
                        if p < pp {
                            assert(raw@[p as int].name@ == "theme"@);
                        } else if pp < p {
                            assert(raw@[pp].name@ == "theme"@);
                        }
                    }
                }
                &raw[p].fields
            },
            None => &defaults[0].fields,
        };
        let highlight_color = color_field(theme_section, "highlight_color", Color::Blue);
        let secondary_color = color_field(theme_section, "secondary_color", Color::DarkGray);
        Ok(Theme { highlight_color, secondary_color })
    }
}

impl Default for Theme {
    fn default() -> (r: Theme)
        ensures
            exists|d: Seq<(String, String)>|
                d.len() == 2 && d[0].0@ == "highlight_color"@ && d[0].1@ == "blue"@ && d[1].0@
                    == "secondary_color"@ && d[1].1@ == "dark_gray"@ && r == theme_of_fields(d),
    {
        let map = default_theme_string_map();
        let ghost d = map@[0].fields@;
        match Theme::from_string_map(map) {
            Ok(t) => {
                proof {
                    let p = choose|q: int| is_section_pos(map@, "theme"@, q);
                    assert(is_section_pos(map@, "theme"@, 0));
                    assert(p == 0);
                    assert(t == theme_of_fields(d));
                }
                t
            },
            Err(_) => Theme { highlight_color: Color::Blue, secondary_color: Color::DarkGray },
        }
    }
}

} // verus!
