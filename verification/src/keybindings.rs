use vstd::prelude::*;
use crate::keys::{
    alt_word, ctrl_word, parse_key_chord, parse_key_spec, shift_word, strip_modifiers, KeyChord,
};
use crate::mode::Mode;
use crate::text::{owned, push_str, str_eq};

verus! {

/// The keys bound to an action in a configuration: one, or several.
#[derive(Clone, Copy, Debug)]
pub enum DefaultKeybinding {
    Single(&'static str),
    Multiple(&'static [&'static str]),
}

impl DefaultKeybinding {
    /// The key descriptions, in order.
    pub open spec fn keys(&self) -> Seq<Seq<char>> {
        match *self {
            DefaultKeybinding::Single(s) => seq![s@],
            DefaultKeybinding::Multiple(a) => a@.map_values(|s: &str| s@),
        }
    }

    /// The key descriptions as owned strings.
    pub fn to_vec(&self) -> (r: Vec<String>)
        ensures
            r@.len() == self.keys().len(),
            forall|i: int| 0 <= i < r@.len() ==> #[trigger] r@[i]@ == self.keys()[i],
    {
        match self {
            DefaultKeybinding::Single(s) => {
                let v = vec![owned(s)];
                v
            },
            DefaultKeybinding::Multiple(arr) => {
                let mut v: Vec<String> = Vec::new();
                let mut i: usize = 0;
                while i < arr.len()
                    invariant
                        i <= arr@.len(),
                        *self == DefaultKeybinding::Multiple(*arr),
                        v@.len() == i,
                        forall|j: int| 0 <= j < i ==> #[trigger] v@[j]@ == arr@[j]@,
                    decreases arr.len() - i,
                {
                    v.push(owned(arr[i]));
                    i = i + 1;
                }
                v
            },
        }
    }
}

/// The binding of one action in a configuration.
#[derive(Clone, Debug)]
pub struct ActionBinding {
    pub action_id: String,
    pub binding: DefaultKeybinding,
}

/// The bindings of one mode in a configuration, the mode given by its name.
#[derive(Clone, Debug)]
pub struct ModeConfig {
    pub mode: String,
    pub actions: Vec<ActionBinding>,
}

/// An action binding as a pair of its identifier and its keys.
pub open spec fn action_entry(a: ActionBinding) -> (Seq<char>, DefaultKeybinding) {
    (a.action_id@, a.binding)
}

/// The mode a mode name stands for.
pub open spec fn parse_mode_spec(s: Seq<char>) -> Option<Mode> {
    if s == "normal"@ {
        Some(Mode::Normal)
    } else if s == "edit"@ {
        Some(Mode::Edit)
    } else {
        None
    }
}

/// Reads a mode name: `normal` or `edit`.
pub fn parse_mode(s: &str) -> (r: Result<Mode, String>)
    ensures
        match r {
            Ok(m) => parse_mode_spec(s@) == Some(m),
            Err(e) => parse_mode_spec(s@) is None && e@ == "Unknown mode: "@ + s@,
        },
{
    if str_eq(s, "normal") {
        Ok(Mode::Normal)
    } else if str_eq(s, "edit") {
        Ok(Mode::Edit)
    } else {
        let mut e = owned("Unknown mode: ");
        push_str(&mut e, s);
        Err(e)
    }
}

/// Whether every mode name of a configuration is known and every key description parses.
pub open spec fn config_valid(c: Seq<ModeConfig>) -> bool {
    forall|i: int|
        0 <= i < c.len() ==> {
            &&& parse_mode_spec(#[trigger] c[i].mode@) is Some
            &&& forall|j: int, k: int|
                0 <= j < c[i].actions@.len() && 0 <= k < c[i].actions@[j].binding.keys().len()
                    ==> parse_key_spec(#[trigger] c[i].actions@[j].binding.keys()[k]) is Some
        }
}

/// The message for a key description that does not parse, in a given action.
pub open spec fn invalid_key_for_action_message(key: Seq<char>, action: Seq<char>) -> Seq<char> {
    "Invalid key chord: "@ + key + " for action: "@ + action
}

/// Whether `e` reports a fault of the configuration: an unknown mode, or a key
/// description that does not parse.
pub open spec fn explains_invalid_config(c: Seq<ModeConfig>, e: Seq<char>) -> bool {
    ||| exists|i: int|
        0 <= i < c.len() && parse_mode_spec(#[trigger] c[i].mode@) is None && e == "Unknown mode: "@
            + c[i].mode@
    ||| exists|i: int, j: int, k: int|
        0 <= i < c.len() && 0 <= j < c[i].actions@.len() && 0 <= k
            < c[i].actions@[j].binding.keys().len() && parse_key_spec(
            #[trigger] c[i].actions@[j].binding.keys()[k],
        ) is None && e == invalid_key_for_action_message(
            c[i].actions@[j].binding.keys()[k],
            c[i].actions@[j].action_id@,
        )
}

/// Checks that every mode of the configuration is known and every key description parses.
#[verifier::loop_isolation(false)]
pub fn validate_config(config: &Vec<ModeConfig>) -> (r: Result<(), String>)
    ensures
        r is Ok <==> config_valid(config@),
        r matches Err(e) ==> explains_invalid_config(config@, e@),
{
    let mut i: usize = 0;
    while i < config.len()
        invariant
            i <= config@.len(),
            forall|ii: int|
                0 <= ii < i ==> {
                    &&& parse_mode_spec(#[trigger] config@[ii].mode@) is Some
                    &&& forall|j: int, k: int|
                        0 <= j < config@[ii].actions@.len() && 0 <= k
                            < config@[ii].actions@[j].binding.keys().len() ==> parse_key_spec(
                            #[trigger] config@[ii].actions@[j].binding.keys()[k],
                        ) is Some
                },
        decreases config.len() - i,
    {
        let mode_config = &config[i];
        match parse_mode(mode_config.mode.as_str()) {
            Ok(_) => {},
            Err(e) => {
                return Err(e);
            },
        }
        let actions = &mode_config.actions;
        let mut j: usize = 0;
        while j < actions.len()
            invariant
                i < config@.len(),
                *actions == config@[i as int].actions,
                j <= actions@.len(),
                forall|jj: int, k: int|
                    0 <= jj < j && 0 <= k < actions@[jj].binding.keys().len() ==> parse_key_spec(
                        #[trigger] actions@[jj].binding.keys()[k],
                    ) is Some,
            decreases actions.len() - j,
        {
            let action = &actions[j];
            let keys = action.binding.to_vec();
            let mut k: usize = 0;
            while k < keys.len()
                invariant
                    j < actions@.len(),
                    *action == actions@[j as int],
                    keys@.len() == action.binding.keys().len(),
                    forall|kk: int| 0 <= kk < keys@.len() ==> #[trigger] keys@[kk]@ == action.binding.keys()[kk],
                    k <= keys@.len(),
                    forall|kk: int| 0 <= kk < k ==> parse_key_spec(#[trigger] action.binding.keys()[kk]) is Some,
                decreases keys.len() - k,
            {
                let key_str = &keys[k];
                match parse_key_chord(key_str.as_str()) {
                    Some(_) => {},
                    None => {
                        let mut e = owned("Invalid key chord: ");
                        push_str(&mut e, key_str.as_str());
                        push_str(&mut e, " for action: ");
                        push_str(&mut e, action.action_id.as_str());
                        proof {
                            assert(parse_key_spec(config@[i as int].actions@[j as int].binding.keys()[k as int]) is None);
                        }
                        return Err(e);
                    },
                }
                k = k + 1;
            }
            j = j + 1;
        }
        i = i + 1;
    }
    Ok(())
}

/// The default binding at position `j` of the normal-mode table.
pub open spec fn default_normal_entry(j: int) -> (Seq<char>, DefaultKeybinding) {
    if j == 0 {
        ("edit_message"@, DefaultKeybinding::Multiple(&["e", "i"]))
    } else if j == 1 {
        ("delete_message"@, DefaultKeybinding::Multiple(&["d", "del"]))
    } else if j == 2 {
        ("fork_branch"@, DefaultKeybinding::Single("f"))
    } else if j == 3 {
        ("hide_message"@, DefaultKeybinding::Single("x"))
    } else if j == 4 {
        ("append_message"@, DefaultKeybinding::Single("a"))
    } else if j == 5 {
        ("show_help"@, DefaultKeybinding::Single("?"))
    } else if j == 6 {
        ("scroll_up"@, DefaultKeybinding::Multiple(&["up", "k"]))
    } else if j == 7 {
        ("scroll_down"@, DefaultKeybinding::Multiple(&["down", "j"]))
    } else if j == 8 {
        ("scroll_half_page_up"@, DefaultKeybinding::Single("ctrl-u"))
    } else if j == 9 {
        ("scroll_half_page_down"@, DefaultKeybinding::Single("ctrl-d"))
    } else if j == 10 {
        ("scroll_page_up"@, DefaultKeybinding::Multiple(&["pgup", "ctrl-b"]))
    } else if j == 11 {
        ("scroll_page_down"@, DefaultKeybinding::Multiple(&["pgdn", "ctrl-f"]))
    } else if j == 12 {
        ("scroll_to_top"@, DefaultKeybinding::Multiple(&["home", "alt-up"]))
    } else if j == 13 {
        ("scroll_to_bottom"@, DefaultKeybinding::Multiple(&["end", "alt-down"]))
    } else if j == 14 {
        ("scroll_to_previous_message"@, DefaultKeybinding::Single("shift-up"))
    } else if j == 15 {
        ("scroll_to_next_message"@, DefaultKeybinding::Single("shift-down"))
    } else if j == 16 {
        ("prev_branch"@, DefaultKeybinding::Multiple(&["left", "h"]))
    } else if j == 17 {
        ("next_branch"@, DefaultKeybinding::Multiple(&["right", "l"]))
    } else if j == 18 {
        ("prev_tree"@, DefaultKeybinding::Multiple(&["shift-left", "H"]))
    } else if j == 19 {
        ("next_tree"@, DefaultKeybinding::Multiple(&["shift-right", "L"]))
    } else if j == 20 {
        ("command_palette"@, DefaultKeybinding::Single("ctrl-p"))
    } else if j == 21 {
        ("normal_undo"@, DefaultKeybinding::Single("ctrl-z"))
    } else if j == 22 {
        ("normal_redo"@, DefaultKeybinding::Multiple(&["ctrl-y", "ctrl-shift-z"]))
    } else if j == 23 {
        ("quit"@, DefaultKeybinding::Multiple(&["q", "ctrl-c"]))
    } else {
        (seq![], DefaultKeybinding::Single(""))
    }
}

/// The default binding at position `j` of the edit-mode table.
pub open spec fn default_edit_entry(j: int) -> (Seq<char>, DefaultKeybinding) {
    if j == 0 {
        ("exit_edit_mode"@, DefaultKeybinding::Single("esc"))
    } else if j == 1 {
        ("submit_message"@, DefaultKeybinding::Single("alt-enter"))
    } else if j == 2 {
        ("delete_char"@, DefaultKeybinding::Single("backspace"))
    } else if j == 3 {
        ("delete_next_char"@, DefaultKeybinding::Single("del"))
    } else if j == 4 {
        ("insert_newline"@, DefaultKeybinding::Single("enter"))
    } else if j == 5 {
        ("delete_line_by_end"@, DefaultKeybinding::Single("alt-k"))
    } else if j == 6 {
        ("delete_line_by_head"@, DefaultKeybinding::Single("alt-u"))
    } else if j == 7 {
        ("delete_line"@, DefaultKeybinding::Single("ctrl-k"))
    } else if j == 8 {
        ("delete_word"@, DefaultKeybinding::Single("alt-backspace"))
    } else if j == 9 {
        ("delete_next_word"@, DefaultKeybinding::Single("alt-del"))
    } else if j == 10 {
        ("undo"@, DefaultKeybinding::Single("ctrl-z"))
    } else if j == 11 {
        ("redo"@, DefaultKeybinding::Multiple(&["ctrl-y", "ctrl-shift-z"]))
    } else if j == 12 {
        ("copy"@, DefaultKeybinding::Single("ctrl-c"))
    } else if j == 13 {
        ("cut"@, DefaultKeybinding::Single("ctrl-x"))
    } else if j == 14 {
        ("paste"@, DefaultKeybinding::Single("ctrl-v"))
    } else if j == 15 {
        ("select_all"@, DefaultKeybinding::Single("ctrl-a"))
    } else if j == 16 {
        ("select_forward"@, DefaultKeybinding::Single("shift-right"))
    } else if j == 17 {
        ("select_back"@, DefaultKeybinding::Single("shift-left"))
    } else if j == 18 {
        ("select_up"@, DefaultKeybinding::Single("shift-up"))
    } else if j == 19 {
        ("select_down"@, DefaultKeybinding::Single("shift-down"))
    } else if j == 20 {
        ("select_word_forward"@, DefaultKeybinding::Single("ctrl-shift-right"))
    } else if j == 21 {
        ("select_word_back"@, DefaultKeybinding::Single("ctrl-shift-left"))
    } else if j == 22 {
        ("select_to_end"@, DefaultKeybinding::Multiple(&["shift-end", "shift-alt-right"]))
    } else if j == 23 {
        ("select_to_head"@, DefaultKeybinding::Multiple(&["shift-home", "shift-alt-left"]))
    } else if j == 24 {
        ("select_line"@, DefaultKeybinding::Single("ctrl-l"))
    } else if j == 25 {
        ("select_to_top"@, DefaultKeybinding::Multiple(&["ctrl-shift-home", "shift-alt-up"]))
    } else if j == 26 {
        ("select_to_bottom"@, DefaultKeybinding::Multiple(&["ctrl-shift-end", "shift-alt-down"]))
    } else if j == 27 {
        ("move_cursor_forward"@, DefaultKeybinding::Single("right"))
    } else if j == 28 {
        ("move_cursor_back"@, DefaultKeybinding::Single("left"))
    } else if j == 29 {
        ("move_cursor_up"@, DefaultKeybinding::Single("up"))
    } else if j == 30 {
        ("move_cursor_down"@, DefaultKeybinding::Single("down"))
    } else if j == 31 {
        ("move_cursor_word_forward"@, DefaultKeybinding::Single("ctrl-right"))
    } else if j == 32 {
        ("move_cursor_word_end"@, DefaultKeybinding::Single("ctrl-e"))
    } else if j == 33 {
        ("move_cursor_word_back"@, DefaultKeybinding::Single("ctrl-left"))
    } else if j == 34 {
        ("move_cursor_paragraph_forward"@, DefaultKeybinding::Single("ctrl-down"))
    } else if j == 35 {
        ("move_cursor_paragraph_back"@, DefaultKeybinding::Single("ctrl-up"))
    } else if j == 36 {
        ("move_cursor_end"@, DefaultKeybinding::Multiple(&["end", "alt-right"]))
    } else if j == 37 {
        ("move_cursor_head"@, DefaultKeybinding::Multiple(&["home", "alt-left"]))
    } else if j == 38 {
        ("move_cursor_top"@, DefaultKeybinding::Multiple(&["ctrl-home", "alt-up"]))
    } else if j == 39 {
        ("move_cursor_bottom"@, DefaultKeybinding::Multiple(&["ctrl-end", "alt-down"]))
    } else if j == 40 {
        ("show_help"@, DefaultKeybinding::Single("f1"))
    } else {
        (seq![], DefaultKeybinding::Single(""))
    }
}

/// Number of actions bound in normal mode by default.
pub open spec fn default_normal_len() -> int { 24 }

/// Number of actions bound in edit mode by default.
pub open spec fn default_edit_len() -> int { 41 }

proof fn lemma_key_0()
    ensures
        parse_key_spec("e"@) is Some,
{
    reveal_with_fuel(strip_modifiers, 4);
    reveal_strlit("e");
    assert("e"@ =~= seq!['e']);
}

proof fn lemma_key_1()
    ensures
        parse_key_spec("i"@) is Some,
{
    reveal_with_fuel(strip_modifiers, 4);
    reveal_strlit("i");
    assert("i"@ =~= seq!['i']);
}

proof fn lemma_key_2()
    ensures
        parse_key_spec("d"@) is Some,
{
    reveal_with_fuel(strip_modifiers, 4);
    reveal_strlit("d");
    assert("d"@ =~= seq!['d']);
}

proof fn lemma_key_3()
    ensures
        parse_key_spec("del"@) is Some,
{
    reveal_with_fuel(strip_modifiers, 4);
    reveal_strlit("del");
    assert("del"@ =~= seq!['d', 'e', 'l']);
}

proof fn lemma_key_4()
    ensures
        parse_key_spec("f"@) is Some,
{
    reveal_with_fuel(strip_modifiers, 4);
    reveal_strlit("f");
    assert("f"@ =~= seq!['f']);
}

proof fn lemma_key_5()
    ensures
        parse_key_spec("x"@) is Some,
{
    reveal_with_fuel(strip_modifiers, 4);
    reveal_strlit("x");
    assert("x"@ =~= seq!['x']);
}

proof fn lemma_key_6()
    ensures
        parse_key_spec("a"@) is Some,
{
    reveal_with_fuel(strip_modifiers, 4);
    reveal_strlit("a");
    assert("a"@ =~= seq!['a']);
}

proof fn lemma_key_7()
    ensures
        parse_key_spec("?"@) is Some,
{
    reveal_with_fuel(strip_modifiers, 4);
    reveal_strlit("?");
    assert("?"@ =~= seq!['?']);
}

proof fn lemma_key_8()
    ensures
        parse_key_spec("up"@) is Some,
{
    reveal_with_fuel(strip_modifiers, 4);
    reveal_strlit("up");
    assert("up"@ =~= seq!['u', 'p']);
}

proof fn lemma_key_9()
    ensures
        parse_key_spec("k"@) is Some,
{
    reveal_with_fuel(strip_modifiers, 4);
    reveal_strlit("k");
    assert("k"@ =~= seq!['k']);
}

proof fn lemma_key_10()
    ensures
        parse_key_spec("down"@) is Some,
{
    reveal_with_fuel(strip_modifiers, 4);
    reveal_strlit("down");
    assert("down"@ =~= seq!['d', 'o', 'w', 'n']);
}

proof fn lemma_key_11()
    ensures
        parse_key_spec("j"@) is Some,
{
    reveal_with_fuel(strip_modifiers, 4);
    reveal_strlit("j");
    assert("j"@ =~= seq!['j']);
}

proof fn lemma_key_12()
    ensures
        parse_key_spec("ctrl-u"@) is Some,
{
    reveal_with_fuel(strip_modifiers, 4);
    reveal_strlit("ctrl-u");
    assert("ctrl-u"@.take(4) =~= ctrl_word());
    assert("ctrl-u"@.skip(5) =~= seq!['u']);
}

proof fn lemma_key_13()
    ensures
        parse_key_spec("ctrl-d"@) is Some,
{
    reveal_with_fuel(strip_modifiers, 4);
    reveal_strlit("ctrl-d");
    assert("ctrl-d"@.take(4) =~= ctrl_word());
    assert("ctrl-d"@.skip(5) =~= seq!['d']);
}

proof fn lemma_key_14()
    ensures
        parse_key_spec("pgup"@) is Some,
{
    reveal_with_fuel(strip_modifiers, 4);
    reveal_strlit("pgup");
    assert("pgup"@ =~= seq!['p', 'g', 'u', 'p']);
}

proof fn lemma_key_15()
    ensures
        parse_key_spec("ctrl-b"@) is Some,
{
    reveal_with_fuel(strip_modifiers, 4);
    reveal_strlit("ctrl-b");
    assert("ctrl-b"@.take(4) =~= ctrl_word());
    assert("ctrl-b"@.skip(5) =~= seq!['b']);
}

proof fn lemma_key_16()
    ensures
        parse_key_spec("pgdn"@) is Some,
{
    reveal_with_fuel(strip_modifiers, 4);
    reveal_strlit("pgdn");
    assert("pgdn"@ =~= seq!['p', 'g', 'd', 'n']);
}

proof fn lemma_key_17()
    ensures
        parse_key_spec("ctrl-f"@) is Some,
{
    reveal_with_fuel(strip_modifiers, 4);
    reveal_strlit("ctrl-f");
    assert("ctrl-f"@.take(4) =~= ctrl_word());
    assert("ctrl-f"@.skip(5) =~= seq!['f']);
}

proof fn lemma_key_18()
    ensures
        parse_key_spec("home"@) is Some,
{
    reveal_with_fuel(strip_modifiers, 4);
    reveal_strlit("home");
    assert("home"@ =~= seq!['h', 'o', 'm', 'e']);
}

proof fn lemma_key_19()
    ensures
        parse_key_spec("alt-up"@) is Some,
{
    reveal_with_fuel(strip_modifiers, 4);
    reveal_strlit("alt-up");
    assert("alt-up"@.take(3) =~= alt_word());
    assert("alt-up"@.skip(4) =~= seq!['u', 'p']);
}

proof fn lemma_key_20()
    ensures
        parse_key_spec("end"@) is Some,
{
    reveal_with_fuel(strip_modifiers, 4);
    reveal_strlit("end");
    assert("end"@ =~= seq!['e', 'n', 'd']);
}

proof fn lemma_key_21()
    ensures
        parse_key_spec("alt-down"@) is Some,
{
    reveal_with_fuel(strip_modifiers, 4);
    reveal_strlit("alt-down");
    assert("alt-down"@.take(3) =~= alt_word());
    assert("alt-down"@.skip(4) =~= seq!['d', 'o', 'w', 'n']);
}

proof fn lemma_key_22()
    ensures
        parse_key_spec("shift-up"@) is Some,
{
    reveal_with_fuel(strip_modifiers, 4);
    reveal_strlit("shift-up");
    assert("shift-up"@.take(5) =~= shift_word());
    assert("shift-up"@.skip(6) =~= seq!['u', 'p']);
}

proof fn lemma_key_23()
    ensures
        parse_key_spec("shift-down"@) is Some,
{
    reveal_with_fuel(strip_modifiers, 4);
    reveal_strlit("shift-down");
    assert("shift-down"@.take(5) =~= shift_word());
    assert("shift-down"@.skip(6) =~= seq!['d', 'o', 'w', 'n']);
}

proof fn lemma_key_24()
    ensures
        parse_key_spec("left"@) is Some,
{
    reveal_with_fuel(strip_modifiers, 4);
    reveal_strlit("left");
    assert("left"@ =~= seq!['l', 'e', 'f', 't']);
}

proof fn lemma_key_25()
    ensures
        parse_key_spec("h"@) is Some,
{
    reveal_with_fuel(strip_modifiers, 4);
    reveal_strlit("h");
    assert("h"@ =~= seq!['h']);
}

proof fn lemma_key_26()
    ensures
        parse_key_spec("right"@) is Some,
{
    reveal_with_fuel(strip_modifiers, 4);
    reveal_strlit("right");
    assert("right"@ =~= seq!['r', 'i', 'g', 'h', 't']);
}

proof fn lemma_key_27()
    ensures
        parse_key_spec("l"@) is Some,
{
    reveal_with_fuel(strip_modifiers, 4);
    reveal_strlit("l");
    assert("l"@ =~= seq!['l']);
}

proof fn lemma_key_28()
    ensures
        parse_key_spec("shift-left"@) is Some,
{
    reveal_with_fuel(strip_modifiers, 4);
    reveal_strlit("shift-left");
    assert("shift-left"@.take(5) =~= shift_word());
    assert("shift-left"@.skip(6) =~= seq!['l', 'e', 'f', 't']);
}

proof fn lemma_key_29()
    ensures
        parse_key_spec("H"@) is Some,
{
    reveal_with_fuel(strip_modifiers, 4);
    reveal_strlit("H");
    assert("H"@ =~= seq!['H']);
}

proof fn lemma_key_30()
    ensures
        parse_key_spec("shift-right"@) is Some,
{
    reveal_with_fuel(strip_modifiers, 4);
    reveal_strlit("shift-right");
    assert("shift-right"@.take(5) =~= shift_word());
    assert("shift-right"@.skip(6) =~= seq!['r', 'i', 'g', 'h', 't']);
}

proof fn lemma_key_31()
    ensures
        parse_key_spec("L"@) is Some,
{
    reveal_with_fuel(strip_modifiers, 4);
    reveal_strlit("L");
    assert("L"@ =~= seq!['L']);
}

proof fn lemma_key_32()
    ensures
        parse_key_spec("ctrl-p"@) is Some,
{
    reveal_with_fuel(strip_modifiers, 4);
    reveal_strlit("ctrl-p");
    assert("ctrl-p"@.take(4) =~= ctrl_word());
    assert("ctrl-p"@.skip(5) =~= seq!['p']);
}

proof fn lemma_key_33()
    ensures
        parse_key_spec("ctrl-z"@) is Some,
{
    reveal_with_fuel(strip_modifiers, 4);
    reveal_strlit("ctrl-z");
    assert("ctrl-z"@.take(4) =~= ctrl_word());
    assert("ctrl-z"@.skip(5) =~= seq!['z']);
}

proof fn lemma_key_34()
    ensures
        parse_key_spec("ctrl-y"@) is Some,
{
    reveal_with_fuel(strip_modifiers, 4);
    reveal_strlit("ctrl-y");
    assert("ctrl-y"@.take(4) =~= ctrl_word());
    assert("ctrl-y"@.skip(5) =~= seq!['y']);
}

proof fn lemma_key_35()
    ensures
        parse_key_spec("q"@) is Some,
{
    reveal_with_fuel(strip_modifiers, 4);
    reveal_strlit("q");
    assert("q"@ =~= seq!['q']);
}

proof fn lemma_key_36()
    ensures
        parse_key_spec("ctrl-c"@) is Some,
{
    reveal_with_fuel(strip_modifiers, 4);
    reveal_strlit("ctrl-c");
    assert("ctrl-c"@.take(4) =~= ctrl_word());
    assert("ctrl-c"@.skip(5) =~= seq!['c']);
}

proof fn lemma_key_37()
    ensures
        parse_key_spec("esc"@) is Some,
{
    reveal_with_fuel(strip_modifiers, 4);
    reveal_strlit("esc");
    assert("esc"@ =~= seq!['e', 's', 'c']);
}

proof fn lemma_key_38()
    ensures
        parse_key_spec("alt-enter"@) is Some,
{
    reveal_with_fuel(strip_modifiers, 4);
    reveal_strlit("alt-enter");
    assert("alt-enter"@.take(3) =~= alt_word());
    assert("alt-enter"@.skip(4) =~= seq!['e', 'n', 't', 'e', 'r']);
}

proof fn lemma_key_39()
    ensures
        parse_key_spec("backspace"@) is Some,
{
    reveal_with_fuel(strip_modifiers, 4);
    reveal_strlit("backspace");
    assert("backspace"@ =~= seq!['b', 'a', 'c', 'k', 's', 'p', 'a', 'c', 'e']);
}

proof fn lemma_key_40()
    ensures
        parse_key_spec("enter"@) is Some,
{
    reveal_with_fuel(strip_modifiers, 4);
    reveal_strlit("enter");
    assert("enter"@ =~= seq!['e', 'n', 't', 'e', 'r']);
}

proof fn lemma_key_41()
    ensures
        parse_key_spec("alt-k"@) is Some,
{
    reveal_with_fuel(strip_modifiers, 4);
    reveal_strlit("alt-k");
    assert("alt-k"@.take(3) =~= alt_word());
    assert("alt-k"@.skip(4) =~= seq!['k']);
}

proof fn lemma_key_42()
    ensures
        parse_key_spec("alt-u"@) is Some,
{
    reveal_with_fuel(strip_modifiers, 4);
    reveal_strlit("alt-u");
    assert("alt-u"@.take(3) =~= alt_word());
    assert("alt-u"@.skip(4) =~= seq!['u']);
}

proof fn lemma_key_43()
    ensures
        parse_key_spec("ctrl-k"@) is Some,
{
    reveal_with_fuel(strip_modifiers, 4);
    reveal_strlit("ctrl-k");
    assert("ctrl-k"@.take(4) =~= ctrl_word());
    assert("ctrl-k"@.skip(5) =~= seq!['k']);
}

proof fn lemma_key_44()
    ensures
        parse_key_spec("alt-backspace"@) is Some,
{
    reveal_with_fuel(strip_modifiers, 4);
    reveal_strlit("alt-backspace");
    assert("alt-backspace"@.take(3) =~= alt_word());
    assert("alt-backspace"@.skip(4) =~= seq!['b', 'a', 'c', 'k', 's', 'p', 'a', 'c', 'e']);
}

proof fn lemma_key_45()
    ensures
        parse_key_spec("alt-del"@) is Some,
{
    reveal_with_fuel(strip_modifiers, 4);
    reveal_strlit("alt-del");
    assert("alt-del"@.take(3) =~= alt_word());
    assert("alt-del"@.skip(4) =~= seq!['d', 'e', 'l']);
}

proof fn lemma_key_46()
    ensures
        parse_key_spec("ctrl-x"@) is Some,
{
    reveal_with_fuel(strip_modifiers, 4);
    reveal_strlit("ctrl-x");
    assert("ctrl-x"@.take(4) =~= ctrl_word());
    assert("ctrl-x"@.skip(5) =~= seq!['x']);
}

proof fn lemma_key_47()
    ensures
        parse_key_spec("ctrl-v"@) is Some,
{
    reveal_with_fuel(strip_modifiers, 4);
    reveal_strlit("ctrl-v");
    assert("ctrl-v"@.take(4) =~= ctrl_word());
    assert("ctrl-v"@.skip(5) =~= seq!['v']);
}

proof fn lemma_key_48()
    ensures
        parse_key_spec("ctrl-a"@) is Some,
{
    reveal_with_fuel(strip_modifiers, 4);
    reveal_strlit("ctrl-a");
    assert("ctrl-a"@.take(4) =~= ctrl_word());
    assert("ctrl-a"@.skip(5) =~= seq!['a']);
}

proof fn lemma_key_49()
    ensures
        parse_key_spec("ctrl-shift-right"@) is Some,
{
    reveal_with_fuel(strip_modifiers, 4);
    reveal_strlit("ctrl-shift-right");
    assert("ctrl-shift-right"@.take(4) =~= ctrl_word());
    assert("ctrl-shift-right"@.skip(5).take(5) =~= shift_word());
    assert("ctrl-shift-right"@.skip(5).skip(6) =~= seq!['r', 'i', 'g', 'h', 't']);
}

proof fn lemma_key_50()
    ensures
        parse_key_spec("ctrl-shift-left"@) is Some,
{
    reveal_with_fuel(strip_modifiers, 4);
    reveal_strlit("ctrl-shift-left");
    assert("ctrl-shift-left"@.take(4) =~= ctrl_word());
    assert("ctrl-shift-left"@.skip(5).take(5) =~= shift_word());
    assert("ctrl-shift-left"@.skip(5).skip(6) =~= seq!['l', 'e', 'f', 't']);
}

proof fn lemma_key_51()
    ensures
        parse_key_spec("shift-end"@) is Some,
{
    reveal_with_fuel(strip_modifiers, 4);
    reveal_strlit("shift-end");
    assert("shift-end"@.take(5) =~= shift_word());
    assert("shift-end"@.skip(6) =~= seq!['e', 'n', 'd']);
}

proof fn lemma_key_52()
    ensures
        parse_key_spec("shift-alt-right"@) is Some,
{
    reveal_with_fuel(strip_modifiers, 4);
    reveal_strlit("shift-alt-right");
    assert("shift-alt-right"@.take(5) =~= shift_word());
    assert("shift-alt-right"@.skip(6).take(3) =~= alt_word());
    assert("shift-alt-right"@.skip(6).skip(4) =~= seq!['r', 'i', 'g', 'h', 't']);
}

proof fn lemma_key_53()
    ensures
        parse_key_spec("shift-home"@) is Some,
{
    reveal_with_fuel(strip_modifiers, 4);
    reveal_strlit("shift-home");
    assert("shift-home"@.take(5) =~= shift_word());
    assert("shift-home"@.skip(6) =~= seq!['h', 'o', 'm', 'e']);
}

proof fn lemma_key_54()
    ensures
        parse_key_spec("shift-alt-left"@) is Some,
{
    reveal_with_fuel(strip_modifiers, 4);
    reveal_strlit("shift-alt-left");
    assert("shift-alt-left"@.take(5) =~= shift_word());
    assert("shift-alt-left"@.skip(6).take(3) =~= alt_word());
    assert("shift-alt-left"@.skip(6).skip(4) =~= seq!['l', 'e', 'f', 't']);
}

proof fn lemma_key_55()
    ensures
        parse_key_spec("ctrl-l"@) is Some,
{
    reveal_with_fuel(strip_modifiers, 4);
    reveal_strlit("ctrl-l");
    assert("ctrl-l"@.take(4) =~= ctrl_word());
    assert("ctrl-l"@.skip(5) =~= seq!['l']);
}

proof fn lemma_key_56()
    ensures
        parse_key_spec("ctrl-shift-home"@) is Some,
{
    reveal_with_fuel(strip_modifiers, 4);
    reveal_strlit("ctrl-shift-home");
    assert("ctrl-shift-home"@.take(4) =~= ctrl_word());
    assert("ctrl-shift-home"@.skip(5).take(5) =~= shift_word());
    assert("ctrl-shift-home"@.skip(5).skip(6) =~= seq!['h', 'o', 'm', 'e']);
}

proof fn lemma_key_57()
    ensures
        parse_key_spec("shift-alt-up"@) is Some,
{
    reveal_with_fuel(strip_modifiers, 4);
    reveal_strlit("shift-alt-up");
    assert("shift-alt-up"@.take(5) =~= shift_word());
    assert("shift-alt-up"@.skip(6).take(3) =~= alt_word());
    assert("shift-alt-up"@.skip(6).skip(4) =~= seq!['u', 'p']);
}

proof fn lemma_key_58()
    ensures
        parse_key_spec("ctrl-shift-end"@) is Some,
{
    reveal_with_fuel(strip_modifiers, 4);
    reveal_strlit("ctrl-shift-end");
    assert("ctrl-shift-end"@.take(4) =~= ctrl_word());
    assert("ctrl-shift-end"@.skip(5).take(5) =~= shift_word());
    assert("ctrl-shift-end"@.skip(5).skip(6) =~= seq!['e', 'n', 'd']);
}

proof fn lemma_key_59()
    ensures
        parse_key_spec("shift-alt-down"@) is Some,
{
    reveal_with_fuel(strip_modifiers, 4);
    reveal_strlit("shift-alt-down");
    assert("shift-alt-down"@.take(5) =~= shift_word());
    assert("shift-alt-down"@.skip(6).take(3) =~= alt_word());
    assert("shift-alt-down"@.skip(6).skip(4) =~= seq!['d', 'o', 'w', 'n']);
}

proof fn lemma_key_60()
    ensures
        parse_key_spec("ctrl-right"@) is Some,
{
    reveal_with_fuel(strip_modifiers, 4);
    reveal_strlit("ctrl-right");
    assert("ctrl-right"@.take(4) =~= ctrl_word());
    assert("ctrl-right"@.skip(5) =~= seq!['r', 'i', 'g', 'h', 't']);
}

proof fn lemma_key_61()
    ensures
        parse_key_spec("ctrl-e"@) is Some,
{
    reveal_with_fuel(strip_modifiers, 4);
    reveal_strlit("ctrl-e");
    assert("ctrl-e"@.take(4) =~= ctrl_word());
    assert("ctrl-e"@.skip(5) =~= seq!['e']);
}

proof fn lemma_key_62()
    ensures
        parse_key_spec("ctrl-left"@) is Some,
{
    reveal_with_fuel(strip_modifiers, 4);
    reveal_strlit("ctrl-left");
    assert("ctrl-left"@.take(4) =~= ctrl_word());
    assert("ctrl-left"@.skip(5) =~= seq!['l', 'e', 'f', 't']);
}

proof fn lemma_key_63()
    ensures
        parse_key_spec("ctrl-down"@) is Some,
{
    reveal_with_fuel(strip_modifiers, 4);
    reveal_strlit("ctrl-down");
    assert("ctrl-down"@.take(4) =~= ctrl_word());
    assert("ctrl-down"@.skip(5) =~= seq!['d', 'o', 'w', 'n']);
}

proof fn lemma_key_64()
    ensures
        parse_key_spec("ctrl-up"@) is Some,
{
    reveal_with_fuel(strip_modifiers, 4);
    reveal_strlit("ctrl-up");
    assert("ctrl-up"@.take(4) =~= ctrl_word());
    assert("ctrl-up"@.skip(5) =~= seq!['u', 'p']);
}

proof fn lemma_key_65()
    ensures
        parse_key_spec("alt-right"@) is Some,
{
    reveal_with_fuel(strip_modifiers, 4);
    reveal_strlit("alt-right");
    assert("alt-right"@.take(3) =~= alt_word());
    assert("alt-right"@.skip(4) =~= seq!['r', 'i', 'g', 'h', 't']);
}

proof fn lemma_key_66()
    ensures
        parse_key_spec("alt-left"@) is Some,
{
    reveal_with_fuel(strip_modifiers, 4);
    reveal_strlit("alt-left");
    assert("alt-left"@.take(3) =~= alt_word());
    assert("alt-left"@.skip(4) =~= seq!['l', 'e', 'f', 't']);
}

proof fn lemma_key_67()
    ensures
        parse_key_spec("ctrl-home"@) is Some,
{
    reveal_with_fuel(strip_modifiers, 4);
    reveal_strlit("ctrl-home");
    assert("ctrl-home"@.take(4) =~= ctrl_word());
    assert("ctrl-home"@.skip(5) =~= seq!['h', 'o', 'm', 'e']);
}

proof fn lemma_key_68()
    ensures
        parse_key_spec("ctrl-end"@) is Some,
{
    reveal_with_fuel(strip_modifiers, 4);
    reveal_strlit("ctrl-end");
    assert("ctrl-end"@.take(4) =~= ctrl_word());
    assert("ctrl-end"@.skip(5) =~= seq!['e', 'n', 'd']);
}

proof fn lemma_key_70()
    ensures
        parse_key_spec("ctrl-shift-z"@) is Some,
{
    reveal_with_fuel(strip_modifiers, 4);
    reveal_strlit("ctrl-shift-z");
    assert("ctrl-shift-z"@.take(4) =~= ctrl_word());
    assert("ctrl-shift-z"@.skip(5).take(5) =~= shift_word());
    assert("ctrl-shift-z"@.skip(5).skip(6) =~= seq!['z']);
}

proof fn lemma_key_69()
    ensures
        parse_key_spec("f1"@) is Some,
{
    reveal_with_fuel(strip_modifiers, 4);
    reveal_strlit("f1");
    assert("f1"@ =~= seq!['f', '1']);
}

proof fn lemma_default_normal_keys_parse()
    ensures
        forall|j: int, k: int|
            0 <= j < default_normal_len() && 0 <= k < default_normal_entry(j).1.keys().len() ==> parse_key_spec(
                #[trigger] default_normal_entry(j).1.keys()[k],
            ) is Some,
{
    assert forall|j: int, k: int|
        0 <= j < default_normal_len() && 0 <= k < default_normal_entry(j).1.keys().len() implies parse_key_spec(
            #[trigger] default_normal_entry(j).1.keys()[k],
        ) is Some by {
        if j == 0 {
            lemma_key_0();
            lemma_key_1();
            assert(default_normal_entry(j).1.keys() =~= seq!["e"@, "i"@]);
        } else if j == 1 {
            lemma_key_2();
            lemma_key_3();
            assert(default_normal_entry(j).1.keys() =~= seq!["d"@, "del"@]);
        } else if j == 2 {
            lemma_key_4();
        } else if j == 3 {
            lemma_key_5();
        } else if j == 4 {
            lemma_key_6();
        } else if j == 5 {
            lemma_key_7();
        } else if j == 6 {
            lemma_key_8();
            lemma_key_9();
            assert(default_normal_entry(j).1.keys() =~= seq!["up"@, "k"@]);
        } else if j == 7 {
            lemma_key_10();
            lemma_key_11();
            assert(default_normal_entry(j).1.keys() =~= seq!["down"@, "j"@]);
        } else if j == 8 {
            lemma_key_12();
        } else if j == 9 {
            lemma_key_13();
        } else if j == 10 {
            lemma_key_14();
            lemma_key_15();
            assert(default_normal_entry(j).1.keys() =~= seq!["pgup"@, "ctrl-b"@]);
        } else if j == 11 {
            lemma_key_16();
            lemma_key_17();
            assert(default_normal_entry(j).1.keys() =~= seq!["pgdn"@, "ctrl-f"@]);
        } else if j == 12 {
            lemma_key_18();
            lemma_key_19();
            assert(default_normal_entry(j).1.keys() =~= seq!["home"@, "alt-up"@]);
        } else if j == 13 {
            lemma_key_20();
            lemma_key_21();
            assert(default_normal_entry(j).1.keys() =~= seq!["end"@, "alt-down"@]);
        } else if j == 14 {
            lemma_key_22();
        } else if j == 15 {
            lemma_key_23();
        } else if j == 16 {
            lemma_key_24();
            lemma_key_25();
            assert(default_normal_entry(j).1.keys() =~= seq!["left"@, "h"@]);
        } else if j == 17 {
            lemma_key_26();
            lemma_key_27();
            assert(default_normal_entry(j).1.keys() =~= seq!["right"@, "l"@]);
        } else if j == 18 {
            lemma_key_28();
            lemma_key_29();
            assert(default_normal_entry(j).1.keys() =~= seq!["shift-left"@, "H"@]);
        } else if j == 19 {
            lemma_key_30();
            lemma_key_31();
            assert(default_normal_entry(j).1.keys() =~= seq!["shift-right"@, "L"@]);
        } else if j == 20 {
            lemma_key_32();
        } else if j == 21 {
            lemma_key_33();
        } else if j == 22 {
            lemma_key_34();
            lemma_key_70();
            assert(default_normal_entry(j).1.keys() =~= seq!["ctrl-y"@, "ctrl-shift-z"@]);
        } else if j == 23 {
            lemma_key_35();
            lemma_key_36();
            assert(default_normal_entry(j).1.keys() =~= seq!["q"@, "ctrl-c"@]);
        }
    }
}

proof fn lemma_default_edit_keys_parse()
    ensures
        forall|j: int, k: int|
            0 <= j < default_edit_len() && 0 <= k < default_edit_entry(j).1.keys().len() ==> parse_key_spec(
                #[trigger] default_edit_entry(j).1.keys()[k],
            ) is Some,
{
    assert forall|j: int, k: int|
        0 <= j < default_edit_len() && 0 <= k < default_edit_entry(j).1.keys().len() implies parse_key_spec(
            #[trigger] default_edit_entry(j).1.keys()[k],
        ) is Some by {
        if j == 0 {
            lemma_key_37();
        } else if j == 1 {
            lemma_key_38();
        } else if j == 2 {
            lemma_key_39();
        } else if j == 3 {
            lemma_key_3();
        } else if j == 4 {
            lemma_key_40();
        } else if j == 5 {
            lemma_key_41();
        } else if j == 6 {
            lemma_key_42();
        } else if j == 7 {
            lemma_key_43();
        } else if j == 8 {
            lemma_key_44();
        } else if j == 9 {
            lemma_key_45();
        } else if j == 10 {
            lemma_key_33();
        } else if j == 11 {
            lemma_key_34();
            lemma_key_70();
            assert(default_edit_entry(j).1.keys() =~= seq!["ctrl-y"@, "ctrl-shift-z"@]);
        } else if j == 12 {
            lemma_key_36();
        } else if j == 13 {
            lemma_key_46();
        } else if j == 14 {
            lemma_key_47();
        } else if j == 15 {
            lemma_key_48();
        } else if j == 16 {
            lemma_key_30();
        } else if j == 17 {
            lemma_key_28();
        } else if j == 18 {
            lemma_key_22();
        } else if j == 19 {
            lemma_key_23();
        } else if j == 20 {
            lemma_key_49();
        } else if j == 21 {
            lemma_key_50();
        } else if j == 22 {
            lemma_key_51();
            lemma_key_52();
            assert(default_edit_entry(j).1.keys() =~= seq!["shift-end"@, "shift-alt-right"@]);
        } else if j == 23 {
            lemma_key_53();
            lemma_key_54();
            assert(default_edit_entry(j).1.keys() =~= seq!["shift-home"@, "shift-alt-left"@]);
        } else if j == 24 {
            lemma_key_55();
        } else if j == 25 {
            lemma_key_56();
            lemma_key_57();
            assert(default_edit_entry(j).1.keys() =~= seq!["ctrl-shift-home"@, "shift-alt-up"@]);
        } else if j == 26 {
            lemma_key_58();
            lemma_key_59();
            assert(default_edit_entry(j).1.keys() =~= seq!["ctrl-shift-end"@, "shift-alt-down"@]);
        } else if j == 27 {
            lemma_key_26();
        } else if j == 28 {
            lemma_key_24();
        } else if j == 29 {
            lemma_key_8();
        } else if j == 30 {
            lemma_key_10();
        } else if j == 31 {
            lemma_key_60();
        } else if j == 32 {
            lemma_key_61();
        } else if j == 33 {
            lemma_key_62();
        } else if j == 34 {
            lemma_key_63();
        } else if j == 35 {
            lemma_key_64();
        } else if j == 36 {
            lemma_key_20();
            lemma_key_65();
            assert(default_edit_entry(j).1.keys() =~= seq!["end"@, "alt-right"@]);
        } else if j == 37 {
            lemma_key_18();
            lemma_key_66();
            assert(default_edit_entry(j).1.keys() =~= seq!["home"@, "alt-left"@]);
        } else if j == 38 {
            lemma_key_67();
            lemma_key_19();
            assert(default_edit_entry(j).1.keys() =~= seq!["ctrl-home"@, "alt-up"@]);
        } else if j == 39 {
            lemma_key_68();
            lemma_key_21();
            assert(default_edit_entry(j).1.keys() =~= seq!["ctrl-end"@, "alt-down"@]);
        } else if j == 40 {
            lemma_key_69();
        }
    }
}

/// The built-in keybinding configuration: for each mode, the keys of each action.
pub fn default_keybindings_config() -> (r: Vec<ModeConfig>)
    ensures
        is_default_config(r@),
{
    let normal = vec![
        ActionBinding { action_id: owned("edit_message"), binding: DefaultKeybinding::Multiple(&["e", "i"]) },
        ActionBinding { action_id: owned("delete_message"), binding: DefaultKeybinding::Multiple(&["d", "del"]) },
        ActionBinding { action_id: owned("fork_branch"), binding: DefaultKeybinding::Single("f") },
        ActionBinding { action_id: owned("hide_message"), binding: DefaultKeybinding::Single("x") },
        ActionBinding { action_id: owned("append_message"), binding: DefaultKeybinding::Single("a") },
        ActionBinding { action_id: owned("show_help"), binding: DefaultKeybinding::Single("?") },
        ActionBinding { action_id: owned("scroll_up"), binding: DefaultKeybinding::Multiple(&["up", "k"]) },
        ActionBinding { action_id: owned("scroll_down"), binding: DefaultKeybinding::Multiple(&["down", "j"]) },
        ActionBinding { action_id: owned("scroll_half_page_up"), binding: DefaultKeybinding::Single("ctrl-u") },
        ActionBinding { action_id: owned("scroll_half_page_down"), binding: DefaultKeybinding::Single("ctrl-d") },
        ActionBinding { action_id: owned("scroll_page_up"), binding: DefaultKeybinding::Multiple(&["pgup", "ctrl-b"]) },
        ActionBinding { action_id: owned("scroll_page_down"), binding: DefaultKeybinding::Multiple(&["pgdn", "ctrl-f"]) },
        ActionBinding { action_id: owned("scroll_to_top"), binding: DefaultKeybinding::Multiple(&["home", "alt-up"]) },
        ActionBinding { action_id: owned("scroll_to_bottom"), binding: DefaultKeybinding::Multiple(&["end", "alt-down"]) },
        ActionBinding { action_id: owned("scroll_to_previous_message"), binding: DefaultKeybinding::Single("shift-up") },
        ActionBinding { action_id: owned("scroll_to_next_message"), binding: DefaultKeybinding::Single("shift-down") },
        ActionBinding { action_id: owned("prev_branch"), binding: DefaultKeybinding::Multiple(&["left", "h"]) },
        ActionBinding { action_id: owned("next_branch"), binding: DefaultKeybinding::Multiple(&["right", "l"]) },
        ActionBinding { action_id: owned("prev_tree"), binding: DefaultKeybinding::Multiple(&["shift-left", "H"]) },
        ActionBinding { action_id: owned("next_tree"), binding: DefaultKeybinding::Multiple(&["shift-right", "L"]) },
        ActionBinding { action_id: owned("command_palette"), binding: DefaultKeybinding::Single("ctrl-p") },
        ActionBinding { action_id: owned("normal_undo"), binding: DefaultKeybinding::Single("ctrl-z") },
        ActionBinding { action_id: owned("normal_redo"), binding: DefaultKeybinding::Multiple(&["ctrl-y", "ctrl-shift-z"]) },
        ActionBinding { action_id: owned("quit"), binding: DefaultKeybinding::Multiple(&["q", "ctrl-c"]) },
    ];
    proof {
        assert forall|j: int| 0 <= j < default_normal_len() implies #[trigger] action_entry(normal@[j]) == default_normal_entry(j) by {
            if j == 0 {
            } else if j == 1 {
            } else if j == 2 {
            } else if j == 3 {
            } else if j == 4 {
            } else if j == 5 {
            } else if j == 6 {
            } else if j == 7 {
            } else if j == 8 {
            } else if j == 9 {
            } else if j == 10 {
            } else if j == 11 {
            } else if j == 12 {
            } else if j == 13 {
            } else if j == 14 {
            } else if j == 15 {
            } else if j == 16 {
            } else if j == 17 {
            } else if j == 18 {
            } else if j == 19 {
            } else if j == 20 {
            } else if j == 21 {
            } else if j == 22 {
            } else if j == 23 {
            }
        }
    }
    let edit = vec![
        ActionBinding { action_id: owned("exit_edit_mode"), binding: DefaultKeybinding::Single("esc") },
        ActionBinding { action_id: owned("submit_message"), binding: DefaultKeybinding::Single("alt-enter") },
        ActionBinding { action_id: owned("delete_char"), binding: DefaultKeybinding::Single("backspace") },
        ActionBinding { action_id: owned("delete_next_char"), binding: DefaultKeybinding::Single("del") },
        ActionBinding { action_id: owned("insert_newline"), binding: DefaultKeybinding::Single("enter") },
        ActionBinding { action_id: owned("delete_line_by_end"), binding: DefaultKeybinding::Single("alt-k") },
        ActionBinding { action_id: owned("delete_line_by_head"), binding: DefaultKeybinding::Single("alt-u") },
        ActionBinding { action_id: owned("delete_line"), binding: DefaultKeybinding::Single("ctrl-k") },
        ActionBinding { action_id: owned("delete_word"), binding: DefaultKeybinding::Single("alt-backspace") },
        ActionBinding { action_id: owned("delete_next_word"), binding: DefaultKeybinding::Single("alt-del") },
        ActionBinding { action_id: owned("undo"), binding: DefaultKeybinding::Single("ctrl-z") },
        ActionBinding { action_id: owned("redo"), binding: DefaultKeybinding::Multiple(&["ctrl-y", "ctrl-shift-z"]) },
        ActionBinding { action_id: owned("copy"), binding: DefaultKeybinding::Single("ctrl-c") },
        ActionBinding { action_id: owned("cut"), binding: DefaultKeybinding::Single("ctrl-x") },
        ActionBinding { action_id: owned("paste"), binding: DefaultKeybinding::Single("ctrl-v") },
        ActionBinding { action_id: owned("select_all"), binding: DefaultKeybinding::Single("ctrl-a") },
        ActionBinding { action_id: owned("select_forward"), binding: DefaultKeybinding::Single("shift-right") },
        ActionBinding { action_id: owned("select_back"), binding: DefaultKeybinding::Single("shift-left") },
        ActionBinding { action_id: owned("select_up"), binding: DefaultKeybinding::Single("shift-up") },
        ActionBinding { action_id: owned("select_down"), binding: DefaultKeybinding::Single("shift-down") },
        ActionBinding { action_id: owned("select_word_forward"), binding: DefaultKeybinding::Single("ctrl-shift-right") },
        ActionBinding { action_id: owned("select_word_back"), binding: DefaultKeybinding::Single("ctrl-shift-left") },
        ActionBinding { action_id: owned("select_to_end"), binding: DefaultKeybinding::Multiple(&["shift-end", "shift-alt-right"]) },
        ActionBinding { action_id: owned("select_to_head"), binding: DefaultKeybinding::Multiple(&["shift-home", "shift-alt-left"]) },
        ActionBinding { action_id: owned("select_line"), binding: DefaultKeybinding::Single("ctrl-l") },
        ActionBinding { action_id: owned("select_to_top"), binding: DefaultKeybinding::Multiple(&["ctrl-shift-home", "shift-alt-up"]) },
        ActionBinding { action_id: owned("select_to_bottom"), binding: DefaultKeybinding::Multiple(&["ctrl-shift-end", "shift-alt-down"]) },
        ActionBinding { action_id: owned("move_cursor_forward"), binding: DefaultKeybinding::Single("right") },
        ActionBinding { action_id: owned("move_cursor_back"), binding: DefaultKeybinding::Single("left") },
        ActionBinding { action_id: owned("move_cursor_up"), binding: DefaultKeybinding::Single("up") },
        ActionBinding { action_id: owned("move_cursor_down"), binding: DefaultKeybinding::Single("down") },
        ActionBinding { action_id: owned("move_cursor_word_forward"), binding: DefaultKeybinding::Single("ctrl-right") },
        ActionBinding { action_id: owned("move_cursor_word_end"), binding: DefaultKeybinding::Single("ctrl-e") },
        ActionBinding { action_id: owned("move_cursor_word_back"), binding: DefaultKeybinding::Single("ctrl-left") },
        ActionBinding { action_id: owned("move_cursor_paragraph_forward"), binding: DefaultKeybinding::Single("ctrl-down") },
        ActionBinding { action_id: owned("move_cursor_paragraph_back"), binding: DefaultKeybinding::Single("ctrl-up") },
        ActionBinding { action_id: owned("move_cursor_end"), binding: DefaultKeybinding::Multiple(&["end", "alt-right"]) },
        ActionBinding { action_id: owned("move_cursor_head"), binding: DefaultKeybinding::Multiple(&["home", "alt-left"]) },
        ActionBinding { action_id: owned("move_cursor_top"), binding: DefaultKeybinding::Multiple(&["ctrl-home", "alt-up"]) },
        ActionBinding { action_id: owned("move_cursor_bottom"), binding: DefaultKeybinding::Multiple(&["ctrl-end", "alt-down"]) },
        ActionBinding { action_id: owned("show_help"), binding: DefaultKeybinding::Single("f1") },
    ];
    proof {
        assert forall|j: int| 0 <= j < default_edit_len() implies #[trigger] action_entry(edit@[j]) == default_edit_entry(j) by {
            if j == 0 {
            } else if j == 1 {
            } else if j == 2 {
            } else if j == 3 {
            } else if j == 4 {
            } else if j == 5 {
            } else if j == 6 {
            } else if j == 7 {
            } else if j == 8 {
            } else if j == 9 {
            } else if j == 10 {
            } else if j == 11 {
            } else if j == 12 {
            } else if j == 13 {
            } else if j == 14 {
            } else if j == 15 {
            } else if j == 16 {
            } else if j == 17 {
            } else if j == 18 {
            } else if j == 19 {
            } else if j == 20 {
            } else if j == 21 {
            } else if j == 22 {
            } else if j == 23 {
            } else if j == 24 {
            } else if j == 25 {
            } else if j == 26 {
            } else if j == 27 {
            } else if j == 28 {
            } else if j == 29 {
            } else if j == 30 {
            } else if j == 31 {
            } else if j == 32 {
            } else if j == 33 {
            } else if j == 34 {
            } else if j == 35 {
            } else if j == 36 {
            } else if j == 37 {
            } else if j == 38 {
            } else if j == 39 {
            } else if j == 40 {
            }
        }
    }
    vec![ModeConfig { mode: owned("normal"), actions: normal }, ModeConfig { mode: owned("edit"), actions: edit }]
}

/// The keys of one action, parsed.
#[derive(Clone, Debug)]
pub struct ActionKeys {
    pub action_id: String,
    pub keys: Vec<KeyChord>,
}

/// The bindings of one mode.
#[derive(Clone, Debug)]
pub struct ModeBindings {
    pub mode: Mode,
    pub actions: Vec<ActionKeys>,
}

/// Keybindings: for each mode, the chords bound to each action.
#[derive(Clone, Debug)]
pub struct Keybindings {
    pub mode_bindings: Vec<ModeBindings>,
}

/// Whether `p` is the first position of the bindings of `mode`.
pub open spec fn is_mode_pos(s: Seq<ModeBindings>, mode: Mode, p: int) -> bool {
    &&& 0 <= p < s.len()
    &&& s[p].mode == mode
    &&& forall|q: int| 0 <= q < p ==> s[q].mode != mode
}

/// Whether `p` is the first position of the action `id`.
pub open spec fn is_action_pos(s: Seq<ActionKeys>, id: Seq<char>, p: int) -> bool {
    &&& 0 <= p < s.len()
    &&& s[p].action_id@ == id
    &&& forall|q: int| 0 <= q < p ==> s[q].action_id@ != id
}

/// The actions bound in `mode` (the first bindings recorded for it).
pub open spec fn find_mode(s: Seq<ModeBindings>, mode: Mode) -> Option<Seq<ActionKeys>> {
    if exists|p: int| is_mode_pos(s, mode, p) {
        Some(s[choose|p: int| is_mode_pos(s, mode, p)].actions@)
    } else {
        None
    }
}

/// The chords bound to action `id` (the first entry recorded for it).
pub open spec fn find_action_keys(s: Seq<ActionKeys>, id: Seq<char>) -> Option<Seq<KeyChord>> {
    if exists|p: int| is_action_pos(s, id, p) {
        Some(s[choose|p: int| is_action_pos(s, id, p)].keys@)
    } else {
        None
    }
}

impl Keybindings {
    /// The chords bound to action `id` in `mode`, if any.
    pub open spec fn lookup(self, mode: Mode, id: Seq<char>) -> Option<Seq<KeyChord>> {
        match find_mode(self.mode_bindings@, mode) {
            Some(acts) => find_action_keys(acts, id),
            None => None,
        }
    }
}

proof fn lemma_mode_pos_unique(s: Seq<ModeBindings>, mode: Mode, p: int, q: int)
    requires
        is_mode_pos(s, mode, p),
        is_mode_pos(s, mode, q),
    ensures
        p == q,
{
}

proof fn lemma_action_pos_unique(s: Seq<ActionKeys>, id: Seq<char>, p: int, q: int)
    requires
        is_action_pos(s, id, p),
        is_action_pos(s, id, q),
    ensures
        p == q,
{
}

/// Position of the bindings of `mode`.
fn mode_position(s: &Vec<ModeBindings>, mode: Mode) -> (r: Option<usize>)
    ensures
        match r {
            Some(p) => is_mode_pos(s@, mode, p as int),
            None => forall|q: int| 0 <= q < s@.len() ==> s@[q].mode != mode,
        },
{
    let mut i: usize = 0;
    while i < s.len()
        invariant
            i <= s@.len(),
            forall|q: int| 0 <= q < i ==> s@[q].mode != mode,
        decreases s.len() - i,
    {
        if s[i].mode == mode {
            return Some(i);
        }
        i = i + 1;
    }
    None
}

/// Position of the action `id`.
fn action_position(s: &Vec<ActionKeys>, id: &str) -> (r: Option<usize>)
    ensures
        match r {
            Some(p) => is_action_pos(s@, id@, p as int),
            None => forall|q: int| 0 <= q < s@.len() ==> s@[q].action_id@ != id@,
        },
{
    let mut i: usize = 0;
    while i < s.len()
        invariant
            i <= s@.len(),
            forall|q: int| 0 <= q < i ==> s@[q].action_id@ != id@,
        decreases s.len() - i,
    {
        if str_eq(s[i].action_id.as_str(), id) {
            return Some(i);
        }
        i = i + 1;
    }
    None
}

/// Replacing the entry of a mode keeps what the other modes find, and the mode finds the new actions.
proof fn lemma_find_mode_update(s: Seq<ModeBindings>, p: int, x: ModeBindings, mode: Mode, other: Mode)
    requires
        is_mode_pos(s, mode, p),
        x.mode == mode,
    ensures
        find_mode(s.update(p, x), mode) == Some(x.actions@),
        other != mode ==> find_mode(s.update(p, x), other) == find_mode(s, other),
{
    let t = s.update(p, x);
    assert(is_mode_pos(t, mode, p));
    let pp = choose|q: int| is_mode_pos(t, mode, q);
    lemma_mode_pos_unique(t, mode, p, pp);
    if other != mode {
        if exists|q: int| is_mode_pos(s, other, q) {
            let q = choose|q: int| is_mode_pos(s, other, q);
            assert(is_mode_pos(t, other, q));
            let qq = choose|q: int| is_mode_pos(t, other, q);
            lemma_mode_pos_unique(t, other, q, qq);
        } else {
            if exists|q: int| is_mode_pos(t, other, q) {
                let q = choose|q: int| is_mode_pos(t, other, q);
                assert(q != p);
                assert forall|r: int| 0 <= r < q implies s[r].mode != other by {
                    if r != p {
                        assert(t[r] == s[r]);
                    }
                }
                assert(is_mode_pos(s, other, q));
            }
        }
    }
}

/// Appending the entry of a mode not yet bound.
proof fn lemma_find_mode_push(s: Seq<ModeBindings>, x: ModeBindings, other: Mode)
    requires
        forall|q: int| 0 <= q < s.len() ==> s[q].mode != x.mode,
    ensures
        find_mode(s.push(x), x.mode) == Some(x.actions@),
        other != x.mode ==> find_mode(s.push(x), other) == find_mode(s, other),
{
    let t = s.push(x);
    assert(is_mode_pos(t, x.mode, s.len() as int));
    let pp = choose|q: int| is_mode_pos(t, x.mode, q);
    lemma_mode_pos_unique(t, x.mode, s.len() as int, pp);
    if other != x.mode {
        if exists|q: int| is_mode_pos(s, other, q) {
            let q = choose|q: int| is_mode_pos(s, other, q);
            assert(is_mode_pos(t, other, q));
            let qq = choose|q: int| is_mode_pos(t, other, q);
            lemma_mode_pos_unique(t, other, q, qq);
        } else {
            if exists|q: int| is_mode_pos(t, other, q) {
                let q = choose|q: int| is_mode_pos(t, other, q);
                assert(q != s.len());
                assert forall|r: int| 0 <= r < q implies s[r].mode != other by {
                    assert(t[r] == s[r]);
                }
                assert(is_mode_pos(s, other, q));
            }
        }
    }
}

/// Replacing the keys of an action keeps what the other actions find.
proof fn lemma_find_action_update(s: Seq<ActionKeys>, p: int, x: ActionKeys, id: Seq<char>, other: Seq<char>)
    requires
        is_action_pos(s, id, p),
        x.action_id@ == id,
    ensures
        find_action_keys(s.update(p, x), id) == Some(x.keys@),
        other != id ==> find_action_keys(s.update(p, x), other) == find_action_keys(s, other),
{
    let t = s.update(p, x);
    assert(is_action_pos(t, id, p));
    let pp = choose|q: int| is_action_pos(t, id, q);
    lemma_action_pos_unique(t, id, p, pp);
    if other != id {
        if exists|q: int| is_action_pos(s, other, q) {
            let q = choose|q: int| is_action_pos(s, other, q);
            assert(is_action_pos(t, other, q));
            let qq = choose|q: int| is_action_pos(t, other, q);
            lemma_action_pos_unique(t, other, q, qq);
        } else {
            if exists|q: int| is_action_pos(t, other, q) {
                let q = choose|q: int| is_action_pos(t, other, q);
                assert(q != p);
                assert forall|r: int| 0 <= r < q implies s[r].action_id@ != other by {
                    if r != p {
                        assert(t[r] == s[r]);
                    }
                }
                assert(is_action_pos(s, other, q));
            }
        }
    }
}

/// Appending the keys of an action not yet bound.
proof fn lemma_find_action_push(s: Seq<ActionKeys>, x: ActionKeys, other: Seq<char>)
    requires
        forall|q: int| 0 <= q < s.len() ==> s[q].action_id@ != x.action_id@,
    ensures
        find_action_keys(s.push(x), x.action_id@) == Some(x.keys@),
        other != x.action_id@ ==> find_action_keys(s.push(x), other) == find_action_keys(s, other),
{
    let t = s.push(x);
    assert(is_action_pos(t, x.action_id@, s.len() as int));
    let pp = choose|q: int| is_action_pos(t, x.action_id@, q);
    lemma_action_pos_unique(t, x.action_id@, s.len() as int, pp);
    if other != x.action_id@ {
        if exists|q: int| is_action_pos(s, other, q) {
            let q = choose|q: int| is_action_pos(s, other, q);
            assert(is_action_pos(t, other, q));
            let qq = choose|q: int| is_action_pos(t, other, q);
            lemma_action_pos_unique(t, other, q, qq);
        } else {
            if exists|q: int| is_action_pos(t, other, q) {
                let q = choose|q: int| is_action_pos(t, other, q);
                assert(q != s.len());
                assert forall|r: int| 0 <= r < q implies s[r].action_id@ != other by {
                    assert(t[r] == s[r]);
                }
                assert(is_action_pos(s, other, q));
            }
        }
    }
}

/// Whether `chords` are the parses of the descriptions `keys`.
pub open spec fn keys_parsed(keys: Seq<Seq<char>>, chords: Seq<KeyChord>) -> bool {
    &&& chords.len() == keys.len()
    &&& forall|k: int| 0 <= k < keys.len() ==> parse_key_spec(#[trigger] keys[k]) == Some(chords[k])
}

impl Keybindings {
    /// The chords bound to action `action_id` in `mode`.
    pub fn get_keys_for_action(&self, mode: Mode, action_id: &str) -> (r: Option<&Vec<KeyChord>>)
        ensures
            match r {
                Some(v) => self.lookup(mode, action_id@) == Some(v@),
                None => self.lookup(mode, action_id@) is None,
            },
    {
        match mode_position(&self.mode_bindings, mode) {
            Some(p) => {
                proof {
                    let pp = choose|q: int| is_mode_pos(self.mode_bindings@, mode, q);
                    lemma_mode_pos_unique(self.mode_bindings@, mode, p as int, pp);
                }
                let actions = &self.mode_bindings[p].actions;
                match action_position(actions, action_id) {
                    Some(a) => {
                        proof {
                            let aa = choose|q: int| is_action_pos(actions@, action_id@, q);
                            lemma_action_pos_unique(actions@, action_id@, a as int, aa);
                        }
                        Some(&actions[a].keys)
                    },
                    None => None,
                }
            },
            None => None,
        }
    }

    /// Position of the bindings of `mode`, added empty when missing.
    fn mode_entry(&mut self, mode: Mode) -> (p: usize)
        ensures
            is_mode_pos(final(self).mode_bindings@, mode, p as int),
            forall|m: Mode, id: Seq<char>| #[trigger] final(self).lookup(m, id) == old(self).lookup(m, id),
    {
        match mode_position(&self.mode_bindings, mode) {
            Some(p) => p,
            None => {
                let ghost s = self.mode_bindings@;
                let x = ModeBindings { mode, actions: Vec::new() };
                self.mode_bindings.push(x);
                proof {
                    assert forall|m: Mode, id: Seq<char>| #[trigger] self.lookup(m, id) == old(self).lookup(m, id) by {
                        lemma_find_mode_push(s, x, m);
                        if m == mode {
                            assert(x.actions@ =~= Seq::<ActionKeys>::empty());
                            if exists|q: int| is_action_pos(x.actions@, id, q) {
                                assert(false);
                            }
                        }
                    }
                    assert(is_mode_pos(self.mode_bindings@, mode, s.len() as int));
                }
                self.mode_bindings.len() - 1
            },
        }
    }

    /// Binds `keys` to action `action_id` in `mode`, replacing its previous keys.
    pub fn set_keys_for_action(&mut self, mode: Mode, action_id: String, keys: Vec<KeyChord>)
        ensures
            final(self).lookup(mode, action_id@) == Some(keys@),
            forall|m: Mode, id: Seq<char>|
                (m != mode || id != action_id@) ==> #[trigger] final(self).lookup(m, id)
                    == old(self).lookup(m, id),
    {
        let p = self.mode_entry(mode);
        let ghost kb_mid = *self;
        let ghost mid = self.mode_bindings@;
        let mut entry = ModeBindings { mode, actions: Vec::new() };
        std::mem::swap(&mut entry, &mut self.mode_bindings[p]);
        let ghost acts = entry.actions@;
        assert(acts == mid[p as int].actions@);
        let pos = action_position(&entry.actions, action_id.as_str());
        let ghost id = action_id@;
        let new_keys = ActionKeys { action_id, keys };
        let ghost nk = new_keys;
        match pos {
            Some(a) => {
                entry.actions.set(a, new_keys);
                proof {
                    assert forall|other: Seq<char>| other != id implies #[trigger] find_action_keys(entry.actions@, other) == find_action_keys(acts, other) by {
                        lemma_find_action_update(acts, a as int, nk, id, other);
                    }
                    lemma_find_action_update(acts, a as int, nk, id, id);
                }
            },
            None => {
                entry.actions.push(new_keys);
                proof {
                    assert forall|other: Seq<char>| other != id implies #[trigger] find_action_keys(entry.actions@, other) == find_action_keys(acts, other) by {
                        lemma_find_action_push(acts, nk, other);
                    }
                    lemma_find_action_push(acts, nk, id);
                }
            },
        }
        let ghost new_entry = entry;
        self.mode_bindings.set(p, entry);
        proof {
            assert(self.mode_bindings@ =~= mid.update(p as int, new_entry));
            let pp = choose|q: int| is_mode_pos(mid, mode, q);
            lemma_mode_pos_unique(mid, mode, p as int, pp);
            assert(find_mode(mid, mode) == Some(acts));
            assert forall|m: Mode, i: Seq<char>|
                (m != mode || i != id) implies #[trigger] self.lookup(m, i) == old(self).lookup(m, i) by {
                lemma_find_mode_update(mid, p as int, new_entry, mode, m);
                assert(kb_mid.lookup(m, i) == old(self).lookup(m, i));
                if m == mode {
                    assert(find_action_keys(new_entry.actions@, i) == find_action_keys(acts, i));
                }
            }
            lemma_find_mode_update(mid, p as int, new_entry, mode, mode);
        }
    }

    /// Adds `key` to the keys of action `action_id` in `mode`.
    pub fn add_key_for_action(&mut self, mode: Mode, action_id: String, key: KeyChord)
        ensures
            final(self).lookup(mode, action_id@) == Some(
                match old(self).lookup(mode, action_id@) {
                    Some(ks) => ks,
                    None => Seq::<KeyChord>::empty(),
                }.push(key),
            ),
            forall|m: Mode, id: Seq<char>|
                (m != mode || id != action_id@) ==> #[trigger] final(self).lookup(m, id)
                    == old(self).lookup(m, id),
    {
        let mut keys: Vec<KeyChord> = match self.get_keys_for_action(mode, action_id.as_str()) {
            Some(v) => clone_chords(v),
            None => Vec::new(),
        };
        keys.push(key);
        self.set_keys_for_action(mode, action_id, keys);
    }

    /// An action of `mode` whose keys include `key`: the first one in binding order.
    #[verifier::loop_isolation(false)]
    pub fn get_action_for_key(&self, mode: Mode, key: &KeyChord) -> (r: Option<String>)
        ensures
            match r {
                Some(a) => exists|acts: Seq<ActionKeys>, p: int|
                    find_mode(self.mode_bindings@, mode) == Some(acts) && #[trigger] first_with_key(
                        acts,
                        *key,
                        p,
                    ) && acts[p].action_id@ == a@,
                None => forall|acts: Seq<ActionKeys>, p: int|
                    find_mode(self.mode_bindings@, mode) == Some(acts) && 0 <= p < acts.len()
                        ==> !(#[trigger] acts[p].keys@.contains(*key)),
            },
    {
        match mode_position(&self.mode_bindings, mode) {
            Some(p) => {
                proof {
                    let pp = choose|q: int| is_mode_pos(self.mode_bindings@, mode, q);
                    lemma_mode_pos_unique(self.mode_bindings@, mode, p as int, pp);
                }
                let actions = &self.mode_bindings[p].actions;
                let mut i: usize = 0;
                while i < actions.len()
                    invariant
                        i <= actions@.len(),
                        forall|q: int| 0 <= q < i ==> !actions@[q].keys@.contains(*key),
                    decreases actions.len() - i,
                {
                    if chords_contain(&actions[i].keys, key) {
                        let id = actions[i].action_id.clone();
                        proof {
                            assert(find_mode(self.mode_bindings@, mode) == Some(actions@));
                            assert(actions@[i as int].action_id@ == id@);
                            assert(actions@[i as int].keys@.contains(*key));
                            assert(first_with_key(actions@, *key, i as int));
                        }
                        return Some(id);
                    }
                    i = i + 1;
                }
                None
            },
            None => None,
        }
    }

    /// Keybindings from a configuration: the configuration is checked, then each action
    /// of the built-in table takes the keys the configuration gives it, else its default keys.
    pub fn from_config(config: Vec<ModeConfig>) -> (r: Result<Keybindings, String>)
        ensures
            r is Ok <==> config_valid(config@),
            r matches Ok(kb) ==> built_from(kb, config@),
            r matches Err(e) ==> explains_invalid_config(config@, e@),
    {
        match validate_config(&config) {
            Ok(()) => {},
            Err(e) => {
                return Err(e);
            },
        }
        proof {
            lemma_chosen_keys_parse(config@);
        }
        build_mode_bindings(config)
    }
}

/// Whether `p` is the first action whose keys hold `key`.
pub open spec fn first_with_key(acts: Seq<ActionKeys>, key: KeyChord, p: int) -> bool {
    &&& 0 <= p < acts.len()
    &&& acts[p].keys@.contains(key)
    &&& forall|q: int| 0 <= q < p ==> !acts[q].keys@.contains(key)
}

/// Whether a list of chords holds `key`.
pub fn chords_contain(v: &Vec<KeyChord>, key: &KeyChord) -> (r: bool)
    ensures
        r == v@.contains(*key),
{
    let mut i: usize = 0;
    while i < v.len()
        invariant
            i <= v@.len(),
            forall|q: int| 0 <= q < i ==> v@[q] != *key,
        decreases v.len() - i,
    {
        if v[i] == *key {
            assert(v@[i as int] == *key);
            return true;
        }
        i = i + 1;
    }
    false
}

/// A copy of a list of chords.
pub fn clone_chords(v: &Vec<KeyChord>) -> (r: Vec<KeyChord>)
    ensures
        r@ == v@,
{
    let mut r: Vec<KeyChord> = Vec::new();
    let mut i: usize = 0;
    while i < v.len()
        invariant
            i <= v@.len(),
            r@ == v@.take(i as int),
        decreases v.len() - i,
    {
        r.push(v[i]);
        assert(v@.take(i as int + 1) =~= v@.take(i as int).push(v@[i as int]));
        i = i + 1;
    }
    assert(v@.take(i as int) =~= v@);
    r
}

/// Whether `p` is the first position of a mode named `name` in a configuration.
pub open spec fn is_config_mode_pos(c: Seq<ModeConfig>, name: Seq<char>, p: int) -> bool {
    &&& 0 <= p < c.len()
    &&& c[p].mode@ == name
    &&& forall|q: int| 0 <= q < p ==> c[q].mode@ != name
}

/// Whether `p` is the first position of action `id` among configured bindings.
pub open spec fn is_config_action_pos(a: Seq<ActionBinding>, id: Seq<char>, p: int) -> bool {
    &&& 0 <= p < a.len()
    &&& a[p].action_id@ == id
    &&& forall|q: int| 0 <= q < p ==> a[q].action_id@ != id
}

/// The binding a configuration gives action `id` of the mode named `name`, else `default`.
pub open spec fn chosen_binding(
    c: Seq<ModeConfig>,
    name: Seq<char>,
    id: Seq<char>,
    default: DefaultKeybinding,
) -> DefaultKeybinding {
    if exists|p: int| is_config_mode_pos(c, name, p) {
        let acts = c[choose|p: int| is_config_mode_pos(c, name, p)].actions@;
        if exists|q: int| is_config_action_pos(acts, id, q) {
            acts[choose|q: int| is_config_action_pos(acts, id, q)].binding
        } else {
            default
        }
    } else {
        default
    }
}

/// The name of the `m`-th mode of the built-in table.
pub open spec fn default_mode_name(m: int) -> Seq<char> {
    if m == 0 {
        "normal"@
    } else {
        "edit"@
    }
}

/// The `m`-th mode of the built-in table.
pub open spec fn default_mode(m: int) -> Mode {
    if m == 0 {
        Mode::Normal
    } else {
        Mode::Edit
    }
}

/// Number of actions of the `m`-th mode of the built-in table.
pub open spec fn default_len(m: int) -> int {
    if m == 0 {
        default_normal_len()
    } else {
        default_edit_len()
    }
}

/// Entry `j` of the `m`-th mode of the built-in table.
pub open spec fn default_entry(m: int, j: int) -> (Seq<char>, DefaultKeybinding) {
    if m == 0 {
        default_normal_entry(j)
    } else {
        default_edit_entry(j)
    }
}

/// The key descriptions action `j` of mode `m` ends up with under configuration `c`.
pub open spec fn chosen_keys(c: Seq<ModeConfig>, m: int, j: int) -> Seq<Seq<char>> {
    chosen_binding(c, default_mode_name(m), default_entry(m, j).0, default_entry(m, j).1).keys()
}

/// Whether every chosen key description parses.
pub open spec fn chosen_all_parse(c: Seq<ModeConfig>) -> bool {
    forall|m: int, j: int, k: int|
        0 <= m < 2 && 0 <= j < default_len(m) && 0 <= k < chosen_keys(c, m, j).len()
            ==> parse_key_spec(#[trigger] chosen_keys(c, m, j)[k]) is Some
}

/// Whether `kb` holds, for both modes of the built-in table and each of its actions in
/// order, the parsed chosen keys.
pub open spec fn built_from(kb: Keybindings, c: Seq<ModeConfig>) -> bool {
    &&& kb.mode_bindings@.len() == 2
    &&& forall|m: int|
        0 <= m < 2 ==> {
            &&& (#[trigger] kb.mode_bindings@[m]).mode == default_mode(m)
            &&& kb.mode_bindings@[m].actions@.len() == default_len(m)
            &&& forall|j: int|
                0 <= j < default_len(m) ==> {
                    &&& (#[trigger] kb.mode_bindings@[m].actions@[j]).action_id@ == default_entry(m, j).0
                    &&& keys_parsed(chosen_keys(c, m, j), kb.mode_bindings@[m].actions@[j].keys@)
                }
        }
}

/// Once a configuration is valid, every chosen key parses.
pub proof fn lemma_chosen_keys_parse(c: Seq<ModeConfig>)
    requires
        config_valid(c),
    ensures
        chosen_all_parse(c),
{
    lemma_default_normal_keys_parse();
    lemma_default_edit_keys_parse();
    assert forall|m: int, j: int, k: int|
        0 <= m < 2 && 0 <= j < default_len(m) && 0 <= k < chosen_keys(c, m, j).len()
        implies parse_key_spec(#[trigger] chosen_keys(c, m, j)[k]) is Some by {
        let name = default_mode_name(m);
        let id = default_entry(m, j).0;
        if exists|p: int| is_config_mode_pos(c, name, p) {
            let p = choose|p: int| is_config_mode_pos(c, name, p);
            let acts = c[p].actions@;
            if exists|q: int| is_config_action_pos(acts, id, q) {
                let q = choose|q: int| is_config_action_pos(acts, id, q);
                assert(parse_key_spec(c[p].actions@[q].binding.keys()[k]) is Some);
            } else {
                if m == 0 {
                    assert(parse_key_spec(default_normal_entry(j).1.keys()[k]) is Some);
                } else {
                    assert(parse_key_spec(default_edit_entry(j).1.keys()[k]) is Some);
                }
            }
        } else {
            if m == 0 {
                assert(parse_key_spec(default_normal_entry(j).1.keys()[k]) is Some);
            } else {
                assert(parse_key_spec(default_edit_entry(j).1.keys()[k]) is Some);
            }
        }
    }
}

/// Position of the mode named `name` in a configuration.
fn config_mode_position(c: &Vec<ModeConfig>, name: &str) -> (r: Option<usize>)
    ensures
        match r {
            Some(p) => is_config_mode_pos(c@, name@, p as int),
            None => forall|q: int| 0 <= q < c@.len() ==> c@[q].mode@ != name@,
        },
{
    let mut i: usize = 0;
    while i < c.len()
        invariant
            i <= c@.len(),
            forall|q: int| 0 <= q < i ==> c@[q].mode@ != name@,
        decreases c.len() - i,
    {
        if str_eq(c[i].mode.as_str(), name) {
            return Some(i);
        }
        i = i + 1;
    }
    None
}

/// Position of action `id` among configured bindings.
fn config_action_position(a: &Vec<ActionBinding>, id: &str) -> (r: Option<usize>)
    ensures
        match r {
            Some(p) => is_config_action_pos(a@, id@, p as int),
            None => forall|q: int| 0 <= q < a@.len() ==> a@[q].action_id@ != id@,
        },
{
    let mut i: usize = 0;
    while i < a.len()
        invariant
            i <= a@.len(),
            forall|q: int| 0 <= q < i ==> a@[q].action_id@ != id@,
        decreases a.len() - i,
    {
        if str_eq(a[i].action_id.as_str(), id) {
            return Some(i);
        }
        i = i + 1;
    }
    None
}

/// The message for a key description that does not parse.
pub open spec fn invalid_key_message(key: Seq<char>) -> Seq<char> {
    "Invalid key chord: "@ + key
}

/// Builds the bindings of both modes of the built-in table, each action taking the keys
/// the configuration gives it, else its default keys.
#[verifier::loop_isolation(false)]
pub fn build_mode_bindings(config: Vec<ModeConfig>) -> (r: Result<Keybindings, String>)
    ensures
        r is Ok <==> chosen_all_parse(config@),
        r matches Ok(kb) ==> built_from(kb, config@),
        r matches Err(e) ==> exists|m: int, j: int, k: int|
            0 <= m < 2 && 0 <= j < default_len(m) && 0 <= k < chosen_keys(config@, m, j).len()
                && parse_key_spec(#[trigger] chosen_keys(config@, m, j)[k]) is None && e@
                == invalid_key_message(chosen_keys(config@, m, j)[k]),
{
    let defaults = default_keybindings_config();
    let mut mode_bindings: Vec<ModeBindings> = Vec::new();
    let mut m: usize = 0;
    while m < 2
        invariant
            m <= 2,
            mode_bindings@.len() == m,
            forall|mm: int, j: int, k: int|
                0 <= mm < m && 0 <= j < default_len(mm) && 0 <= k < chosen_keys(config@, mm, j).len()
                    ==> parse_key_spec(#[trigger] chosen_keys(config@, mm, j)[k]) is Some,
            forall|mm: int|
                0 <= mm < m ==> {
                    &&& (#[trigger] mode_bindings@[mm]).mode == default_mode(mm)
                    &&& mode_bindings@[mm].actions@.len() == default_len(mm)
                    &&& forall|j: int|
                        0 <= j < default_len(mm) ==> {
                            &&& (#[trigger] mode_bindings@[mm].actions@[j]).action_id@ == default_entry(mm, j).0
                            &&& keys_parsed(chosen_keys(config@, mm, j), mode_bindings@[mm].actions@[j].keys@)
                        }
                },
        decreases 2 - m,
    {
        let mode_str = &defaults[m].mode;
        let mode = match parse_mode(mode_str.as_str()) {
            Ok(mode) => mode,
            Err(e) => {
                return Err(e);
            },
        };
        proof {
            reveal_strlit("normal");
            reveal_strlit("edit");
            assert("edit"@.len() == 4);
            assert("normal"@.len() == 6);
            if m == 0 {
                assert(mode_str@ == "normal"@);
                assert(parse_mode_spec(mode_str@) == Some(Mode::Normal));
            } else {
                assert(mode_str@ == "edit"@);
                assert(parse_mode_spec(mode_str@) == Some(Mode::Edit));
            }
        }
        assert(mode == default_mode(m as int));
        let config_pos = config_mode_position(&config, mode_str.as_str());
        let default_actions = &defaults[m].actions;
        let mut action_map: Vec<ActionKeys> = Vec::new();
        let mut j: usize = 0;
        while j < default_actions.len()
            invariant
                j <= default_actions@.len(),
                default_actions@.len() == default_len(m as int),
                action_map@.len() == j,
                forall|jj: int, k: int|
                    0 <= jj < j && 0 <= k < chosen_keys(config@, m as int, jj).len()
                        ==> parse_key_spec(#[trigger] chosen_keys(config@, m as int, jj)[k]) is Some,
                forall|jj: int|
                    0 <= jj < j ==> {
                        &&& (#[trigger] action_map@[jj]).action_id@ == default_entry(m as int, jj).0
                        &&& keys_parsed(chosen_keys(config@, m as int, jj), action_map@[jj].keys@)
                    },
            decreases default_actions.len() - j,
        {
            let default_binding = &default_actions[j];
            assert(action_entry(default_actions@[j as int]) == default_entry(m as int, j as int));
            let binding: DefaultKeybinding = match config_pos {
                Some(p) => {
                    match config_action_position(&config[p].actions, default_binding.action_id.as_str()) {
                        Some(q) => config[p].actions[q].binding,
                        None => default_binding.binding,
                    }
                },
                None => default_binding.binding,
            };
            proof {
                let name = default_mode_name(m as int);
                let id = default_entry(m as int, j as int).0;
                match config_pos {
                    Some(p) => {
                        let pp = choose|q: int| is_config_mode_pos(config@, name, q);
                        assert(is_config_mode_pos(config@, name, p as int));
                        assert(is_config_mode_pos(config@, name, pp));
                        assert(p == pp) by {
                            if p < pp {
                                assert(config@[p as int].mode@ == name);
                            } else if pp < p {
                                assert(config@[pp].mode@ == name);
                            }
                        }
                        let acts = config@[p as int].actions@;
                        if exists|q: int| is_config_action_pos(acts, id, q) {
                            let q = choose|q: int| is_config_action_pos(acts, id, q);
                            let q2 = choose|q: int| is_config_action_pos(acts, id, q);
                            assert(q == q2);
                        }
                    },
                    None => {
                        if exists|p: int| is_config_mode_pos(config@, name, p) {
                            let p = choose|p: int| is_config_mode_pos(config@, name, p);
                            assert(config@[p].mode@ == name);
                        }
                    },
                }
                assert(binding.keys() == chosen_keys(config@, m as int, j as int));
            }
            let keys = binding.to_vec();
            let mut chords: Vec<KeyChord> = Vec::new();
            let mut k: usize = 0;
            while k < keys.len()
                invariant
                    k <= keys@.len(),
                    keys@.len() == binding.keys().len(),
                    forall|kk: int| 0 <= kk < keys@.len() ==> #[trigger] keys@[kk]@ == binding.keys()[kk],
                    chords@.len() == k,
                    forall|kk: int| 0 <= kk < k ==> parse_key_spec(#[trigger] binding.keys()[kk]) == Some(chords@[kk]),
                decreases keys.len() - k,
            {
                match parse_key_chord(keys[k].as_str()) {
                    Some(chord) => {
                        chords.push(chord);
                    },
                    None => {
                        let mut e = owned("Invalid key chord: ");
                        push_str(&mut e, keys[k].as_str());
                        proof {
                            assert(parse_key_spec(chosen_keys(config@, m as int, j as int)[k as int]) is None);
                        }
                        return Err(e);
                    },
                }
                k = k + 1;
            }
            action_map.push(ActionKeys { action_id: default_binding.action_id.clone(), keys: chords });
            j = j + 1;
        }
        mode_bindings.push(ModeBindings { mode, actions: action_map });
        m = m + 1;
    }
    Ok(Keybindings { mode_bindings })
}

impl Keybindings {
    /// The built-in keybindings, which the built-in configuration always yields.
    pub fn default_bindings() -> (r: Keybindings)
        ensures
            exists|c: Seq<ModeConfig>| is_default_config(c) && built_from(r, c),
    {
        let config = default_keybindings_config();
        let ghost c = config@;
        proof {
            lemma_default_config_valid(config@);
        }
        match Keybindings::from_config(config) {
            Ok(k) => {
                assert(is_default_config(c) && built_from(k, c));
                k
            },
            Err(_) => {
                proof {
                    assert(false);
                }
                Keybindings { mode_bindings: Vec::new() }
            },
        }
    }
}

/// Whether `c` is the built-in configuration.
pub open spec fn is_default_config(c: Seq<ModeConfig>) -> bool {
    &&& c.len() == 2
    &&& c[0].mode@ == "normal"@
    &&& c[1].mode@ == "edit"@
    &&& c[0].actions@.len() == default_normal_len()
    &&& c[1].actions@.len() == default_edit_len()
    &&& forall|j: int|
        0 <= j < default_normal_len() ==> #[trigger] action_entry(c[0].actions@[j])
            == default_normal_entry(j)
    &&& forall|j: int|
        0 <= j < default_edit_len() ==> #[trigger] action_entry(c[1].actions@[j])
            == default_edit_entry(j)
}

/// The built-in configuration is valid: its mode names are known and all its key
/// descriptions parse.
pub proof fn lemma_default_config_valid(c: Seq<ModeConfig>)
    requires
        is_default_config(c),
    ensures
        config_valid(c),
{
    lemma_default_normal_keys_parse();
    lemma_default_edit_keys_parse();
    assert forall|i: int| 0 <= i < c.len() implies {
        &&& parse_mode_spec(#[trigger] c[i].mode@) is Some
        &&& forall|j: int, k: int|
            0 <= j < c[i].actions@.len() && 0 <= k < c[i].actions@[j].binding.keys().len()
                ==> parse_key_spec(#[trigger] c[i].actions@[j].binding.keys()[k]) is Some
    } by {
        reveal_strlit("normal");
        reveal_strlit("edit");
        assert forall|j: int, k: int|
            0 <= j < c[i].actions@.len() && 0 <= k < c[i].actions@[j].binding.keys().len()
            implies parse_key_spec(#[trigger] c[i].actions@[j].binding.keys()[k]) is Some by {
            if i == 0 {
                assert(action_entry(c[0].actions@[j]) == default_normal_entry(j));
                assert(parse_key_spec(default_normal_entry(j).1.keys()[k]) is Some);
            } else {
                assert(i == 1);
                assert(action_entry(c[1].actions@[j]) == default_edit_entry(j));
                assert(parse_key_spec(default_edit_entry(j).1.keys()[k]) is Some);
            }
        }
    }
}

impl Default for Keybindings {
    fn default() -> (r: Keybindings)
        ensures
            exists|c: Seq<ModeConfig>| is_default_config(c) && built_from(r, c),
    {
        Keybindings::default_bindings()
    }
}
} // verus!
