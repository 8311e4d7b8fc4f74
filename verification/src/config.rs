use vstd::prelude::*;
use crate::keybindings::{built_from, is_default_config, Keybindings, ModeConfig};
use crate::keys::KeyChord;
use crate::mode::Mode;
use crate::text::owned;
use crate::theme::{theme_of_fields, Theme};

verus! {

/// The language model the client talks to.
#[derive(Debug)]
pub struct Model {
    pub provider: String,
    pub name: String,
}

/// The settings of the client.
#[derive(Debug)]
pub struct Config {
    pub theme: Theme,
    pub keybindings: Keybindings,
    pub model: Model,
}

/// The settings a fresh client starts with: the default keybindings, the default theme
/// (blue highlight, dark gray secondary) and the local gemma3n:2b model through ollama.
pub open spec fn is_default_settings(r: Config) -> bool {
    &&& exists|c: Seq<ModeConfig>| is_default_config(c) && built_from(r.keybindings, c)
    &&& exists|d: Seq<(String, String)>|
        d.len() == 2 && d[0].0@ == "highlight_color"@ && d[0].1@ == "blue"@ && d[1].0@
            == "secondary_color"@ && d[1].1@ == "dark_gray"@ && r.theme == theme_of_fields(d)
    &&& r.model.provider@ == "ollama"@
    &&& r.model.name@ == "gemma3n:2b"@
}

impl Default for Config {
    fn default() -> (r: Config)
        ensures
            is_default_settings(r),
    {
        Config {
            theme: Theme::default(),
            keybindings: Keybindings::default(),
            model: Model { provider: owned("ollama"), name: owned("gemma3n:2b") },
        }
    }
}

impl Config {
    /// The first chord bound to an action in a mode.
    pub fn get_key_for_action(&self, mode: Mode, action_id: &str) -> (r: Option<&KeyChord>)
        ensures
            match r {
                Some(k) => exists|ks: Seq<KeyChord>|
                    self.keybindings.lookup(mode, action_id@) == Some(ks) && ks.len() > 0 && ks[0]
                        == *k,
                None => match self.keybindings.lookup(mode, action_id@) {
                    Some(ks) => ks.len() == 0,
                    None => true,
                },
            },
    {
        match self.keybindings.get_keys_for_action(mode, action_id) {
            Some(keys) => {
                if keys.len() > 0 {
                    Some(&keys[0])
                } else {
                    None
                }
            },
            None => None,
        }
    }

    /// The chords bound to an action in a mode.
    pub fn get_keys_for_action(&self, mode: Mode, action_id: &str) -> (r: Option<&Vec<KeyChord>>)
        ensures
            match r {
                Some(v) => self.keybindings.lookup(mode, action_id@) == Some(v@),
                None => self.keybindings.lookup(mode, action_id@) is None,
            },
    {
        self.keybindings.get_keys_for_action(mode, action_id)
    }

    /// Binds `keys` to an action in a mode.
    pub fn set_keys_for_action(&mut self, mode: Mode, action_id: String, keys: Vec<KeyChord>)
        ensures
            final(self).keybindings.lookup(mode, action_id@) == Some(keys@),
            forall|m: Mode, id: Seq<char>|
                (m != mode || id != action_id@) ==> #[trigger] final(self).keybindings.lookup(m, id)
                    == old(self).keybindings.lookup(m, id),
            final(self).theme == old(self).theme,
            final(self).model == old(self).model,
    {
        self.keybindings.set_keys_for_action(mode, action_id, keys);
    }
}

} // verus!
