use vstd::prelude::*;
use crate::actions::{
    available_in_mode, essential_entries, essential_ids, registered_schemas, schema_with_id,
    ActionRegistry, ActionSchema, CommonAction, CommonActionSchema, UIAction,
};
use crate::config::Config;
use crate::keybindings::{find_mode, is_mode_pos, ActionKeys, Keybindings, ModeBindings};
use crate::keys::KeyChord;
use crate::mode::Mode;

verus! {

/// The action of the last action (in binding order) whose keys hold `c`.
pub open spec fn key_action(acts: Seq<ActionKeys>, c: KeyChord) -> Option<Seq<char>>
    decreases acts.len(),
{
    if acts.len() == 0 {
        None
    } else if acts.last().keys@.contains(c) {
        Some(acts.last().action_id@)
    } else {
        key_action(acts.drop_last(), c)
    }
}

/// The action a chord triggers in `mode` under the given keybindings.
pub open spec fn bound_action(kb: Keybindings, mode: Mode, c: KeyChord) -> Option<Seq<char>> {
    match find_mode(kb.mode_bindings@, mode) {
        Some(acts) => key_action(acts, c),
        None => None,
    }
}

/// The pairs of chord and action that the actions give, in binding order.
pub open spec fn flatten_actions(acts: Seq<ActionKeys>) -> Seq<(KeyChord, Seq<char>)>
    decreases acts.len(),
{
    if acts.len() == 0 {
        seq![]
    } else {
        flatten_actions(acts.drop_last()) + acts.last().keys@.map_values(
            |c: KeyChord| (c, acts.last().action_id@),
        )
    }
}

/// The action of the last pair for chord `c`.
pub open spec fn entry_lookup(e: Seq<(KeyChord, Seq<char>)>, c: KeyChord) -> Option<Seq<char>>
    decreases e.len(),
{
    if e.len() == 0 {
        None
    } else if e.last().0 == c {
        Some(e.last().1)
    } else {
        entry_lookup(e.drop_last(), c)
    }
}

proof fn lemma_entry_lookup_append(a: Seq<(KeyChord, Seq<char>)>, b: Seq<(KeyChord, Seq<char>)>, c: KeyChord)
    ensures
        entry_lookup(a + b, c) == match entry_lookup(b, c) {
            Some(x) => Some(x),
            None => entry_lookup(a, c),
        },
    decreases b.len(),
{
    if b.len() == 0 {
        assert(a + b =~= a);
    } else {
        assert((a + b).drop_last() =~= a + b.drop_last());
        lemma_entry_lookup_append(a, b.drop_last(), c);
    }
}

proof fn lemma_entry_lookup_single_action(keys: Seq<KeyChord>, id: Seq<char>, c: KeyChord)
    ensures
        entry_lookup(keys.map_values(|k: KeyChord| (k, id)), c) == if keys.contains(c) {
            Some(id)
        } else {
            None
        },
    decreases keys.len(),
{
    let e = keys.map_values(|k: KeyChord| (k, id));
    if keys.len() > 0 {
        assert(e.drop_last() =~= keys.drop_last().map_values(|k: KeyChord| (k, id)));
        lemma_entry_lookup_single_action(keys.drop_last(), id, c);
        if keys.last() == c {
            assert(keys.contains(c));
        } else {
            if keys.contains(c) {
                let i = choose|i: int| 0 <= i < keys.len() && keys[i] == c;
                assert(keys.drop_last()[i] == c);
            }
            if keys.drop_last().contains(c) {
                let i = choose|i: int| 0 <= i < keys.drop_last().len() && keys.drop_last()[i] == c;
                assert(keys[i] == c);
            }
        }
    }
}

/// The pairs of the actions give the same action for each chord as the actions themselves.
pub proof fn lemma_flatten_lookup(acts: Seq<ActionKeys>, c: KeyChord)
    ensures
        entry_lookup(flatten_actions(acts), c) == key_action(acts, c),
    decreases acts.len(),
{
    if acts.len() > 0 {
        lemma_flatten_lookup(acts.drop_last(), c);
        let l = acts.last();
        lemma_entry_lookup_append(
            flatten_actions(acts.drop_last()),
            l.keys@.map_values(|k: KeyChord| (k, l.action_id@)),
            c,
        );
        lemma_entry_lookup_single_action(l.keys@, l.action_id@, c);
    }
}

/// Which action each chord triggers, mode by mode.
#[derive(Debug)]
pub struct KeyMapping {
    pub mode_mappings: Vec<(Mode, Vec<(KeyChord, String)>)>,
}

/// The pairs of a mode's mapping as plain values.
pub open spec fn entries_view(e: Seq<(KeyChord, String)>) -> Seq<(KeyChord, Seq<char>)> {
    e.map_values(|p: (KeyChord, String)| (p.0, p.1@))
}

/// Whether `p` is the first position of the mapping of `mode`.
pub open spec fn is_mapping_pos(s: Seq<(Mode, Vec<(KeyChord, String)>)>, mode: Mode, p: int) -> bool {
    &&& 0 <= p < s.len()
    &&& s[p].0 == mode
    &&& forall|q: int| 0 <= q < p ==> s[q].0 != mode
}

impl KeyMapping {
    /// The action a chord triggers in `mode`.
    pub open spec fn action_for(self, mode: Mode, c: KeyChord) -> Option<Seq<char>> {
        if exists|p: int| is_mapping_pos(self.mode_mappings@, mode, p) {
            entry_lookup(
                entries_view(self.mode_mappings@[choose|p: int| is_mapping_pos(self.mode_mappings@, mode, p)].1@),
                c,
            )
        } else {
            None
        }
    }

    /// The chord-to-action mapping of the configured keybindings.
    #[verifier::loop_isolation(false)]
    pub fn from_config(config: &Config) -> (r: KeyMapping)
        ensures
            forall|mode: Mode, c: KeyChord| #[trigger] r.action_for(mode, c) == bound_action(config.keybindings, mode, c),
    {
        let mb = &config.keybindings.mode_bindings;
        let mut mode_mappings: Vec<(Mode, Vec<(KeyChord, String)>)> = Vec::new();
        let mut i: usize = 0;
        while i < mb.len()
            invariant
                i <= mb@.len(),
                mode_mappings@.len() == i,
                forall|ii: int|
                    0 <= ii < i ==> (#[trigger] mode_mappings@[ii]).0 == mb@[ii].mode && entries_view(
                        mode_mappings@[ii].1@,
                    ) == flatten_actions(mb@[ii].actions@),
            decreases mb.len() - i,
        {
            let acts = &mb[i].actions;
            let mut entries: Vec<(KeyChord, String)> = Vec::new();
            let mut j: usize = 0;
            assert(acts@.take(0) =~= Seq::<ActionKeys>::empty());
            assert(entries_view(entries@) =~= Seq::<(KeyChord, Seq<char>)>::empty());
            while j < acts.len()
                invariant
                    j <= acts@.len(),
                    entries_view(entries@) == flatten_actions(acts@.take(j as int)),
                decreases acts.len() - j,
            {
                let keys = &acts[j].keys;
                let ghost before = entries_view(entries@);
                let mut k: usize = 0;
                while k < keys.len()
                    invariant
                        k <= keys@.len(),
                        entries_view(entries@) == before + keys@.take(k as int).map_values(
                            |c: KeyChord| (c, acts@[j as int].action_id@),
                        ),
                    decreases keys.len() - k,
                {
                    let ghost prev = entries@;
                    entries.push((keys[k], acts[j].action_id.clone()));
                    proof {
                        assert(entries_view(entries@) =~= entries_view(prev).push((keys@[k as int], acts@[j as int].action_id@)));
                        assert(keys@.take(k as int + 1).map_values(|c: KeyChord| (c, acts@[j as int].action_id@))
                            =~= keys@.take(k as int).map_values(|c: KeyChord| (c, acts@[j as int].action_id@)).push(
                            (keys@[k as int], acts@[j as int].action_id@)));
                    }
                    k = k + 1;
                }
                proof {
                    assert(keys@.take(k as int) =~= keys@);
                    assert(acts@.take(j as int + 1).drop_last() =~= acts@.take(j as int));
                }
                j = j + 1;
            }
            assert(acts@.take(j as int) =~= acts@);
            mode_mappings.push((mb[i].mode, entries));
            i = i + 1;
        }
        let r = KeyMapping { mode_mappings };
        proof {
            assert forall|mode: Mode, c: KeyChord| #[trigger] r.action_for(mode, c) == bound_action(config.keybindings, mode, c) by {
                if exists|p: int| is_mode_pos(mb@, mode, p) {
                    let p = choose|p: int| is_mode_pos(mb@, mode, p);
                    assert(is_mapping_pos(r.mode_mappings@, mode, p));
                    let q = choose|q: int| is_mapping_pos(r.mode_mappings@, mode, q);
                    assert(p == q) by {
                        if q < p {
                            assert(r.mode_mappings@[q].0 == mode);
                        } else if p < q {
                            assert(r.mode_mappings@[p].0 == mode);
                        }
                    }
                    lemma_flatten_lookup(mb@[p].actions@, c);
                } else {
                    if exists|q: int| is_mapping_pos(r.mode_mappings@, mode, q) {
                        let q = choose|q: int| is_mapping_pos(r.mode_mappings@, mode, q);
                        assert(r.mode_mappings@[q].0 == mb@[q].mode);
                        assert forall|t: int| 0 <= t < q implies mb@[t].mode != mode by {
                            assert(r.mode_mappings@[t].0 == mb@[t].mode);
                        }
                        assert(is_mode_pos(mb@, mode, q));
                    }
                }
            }
        }
        r
    }

    /// The action a chord triggers in `mode`.
    #[verifier::loop_isolation(false)]
    pub fn get_action_id(&self, mode: Mode, key: KeyChord) -> (r: Option<String>)
        ensures
            match r {
                Some(a) => self.action_for(mode, key) == Some(a@),
                None => self.action_for(mode, key) is None,
            },
    {
        let mut i: usize = 0;
        while i < self.mode_mappings.len()
            invariant
                i <= self.mode_mappings@.len(),
                forall|q: int| 0 <= q < i ==> self.mode_mappings@[q].0 != mode,
            decreases self.mode_mappings.len() - i,
        {
            if self.mode_mappings[i].0 == mode {
                proof {
                    assert(is_mapping_pos(self.mode_mappings@, mode, i as int));
                    let p = choose|p: int| is_mapping_pos(self.mode_mappings@, mode, p);
                    assert(p == i) by {
                        if p < i {
                            assert(self.mode_mappings@[p].0 == mode);
                        }
                    }
                }
                let entries = &self.mode_mappings[i].1;
                let mut k = entries.len();
                assert(entries_view(entries@).take(k as int) =~= entries_view(entries@));
                while k > 0
                    invariant
                        k <= entries@.len(),
                        entry_lookup(entries_view(entries@), key) == entry_lookup(
                            entries_view(entries@).take(k as int),
                            key,
                        ),
                    decreases k,
                {
                    let ghost ev = entries_view(entries@).take(k as int);
                    assert(ev.drop_last() =~= entries_view(entries@).take(k as int - 1));
                    k = k - 1;
                    if entries[k].0 == key {
                        let a = entries[k].1.clone();
                        proof {
                            assert(ev.last() == (entries@[k as int].0, entries@[k as int].1@));
                        }
                        return Some(a);
                    }
                }
                assert(entries_view(entries@).take(0) =~= Seq::<(KeyChord, Seq<char>)>::empty());
                return None;
            }
            i = i + 1;
        }
        None
    }
}

/// The action a schema stands for in `mode` (help opens for the current mode).
pub open spec fn action_for_schema(schema: ActionSchema, mode: Mode) -> UIAction {
    match schema {
        ActionSchema::Common(CommonActionSchema::Quit) => UIAction::Common(CommonAction::Quit),
        ActionSchema::Common(CommonActionSchema::ShowHelp) => UIAction::Common(CommonAction::ShowHelp(mode)),
        ActionSchema::Normal(s) => UIAction::NormalMode(s.action_of()),
        ActionSchema::Edit(s) => UIAction::EditMode(s.action_of()),
    }
}

/// Turns key presses into actions.
pub struct InputHandler {
    key_mapping: KeyMapping,
    action_registry: ActionRegistry,
}

impl InputHandler {
    /// The chord-to-action mapping in use.
    pub closed spec fn mapping(self) -> KeyMapping {
        self.key_mapping
    }

    /// The schemas known.
    pub closed spec fn registry(self) -> Seq<ActionSchema> {
        self.action_registry@
    }

    /// The action a chord leads to in `mode`.
    pub open spec fn action_for_input(self, key: KeyChord, mode: Mode) -> Option<UIAction> {
        match self.mapping().action_for(mode, key) {
            Some(id) => match schema_with_id(self.registry(), id) {
                Some(s) => Some(action_for_schema(s, mode)),
                None => None,
            },
            None => None,
        }
    }

    /// A handler for the configuration's bindings and every registered schema.
    pub fn new(config: &Config) -> (r: InputHandler)
        ensures
            forall|mode: Mode, c: KeyChord| #[trigger] r.mapping().action_for(mode, c) == bound_action(config.keybindings, mode, c),
            r.registry() == registered_schemas(),
    {
        InputHandler { key_mapping: KeyMapping::from_config(config), action_registry: ActionRegistry::new() }
    }

    /// The action a key press leads to in `current_mode`, if any.
    pub fn handle_input(&self, key: KeyChord, current_mode: Mode) -> (r: Option<UIAction>)
        ensures
            r == self.action_for_input(key, current_mode),
    {
        match self.key_mapping.get_action_id(current_mode, key) {
            Some(action_id) => match self.action_registry.get_schema(action_id.as_str()) {
                Some(schema) => self.schema_to_action(schema, current_mode),
                None => None,
            },
            None => None,
        }
    }

    /// Whether a key press is text typed into the editor: in edit mode, a key bound to no action.
    pub fn should_handle_as_raw_input(&self, key: KeyChord, current_mode: Mode) -> (r: bool)
        ensures
            r == (current_mode == Mode::Edit && self.mapping().action_for(current_mode, key) is None),
    {
        current_mode == Mode::Edit && self.key_mapping.get_action_id(current_mode, key).is_none()
    }

    fn schema_to_action(&self, schema: &ActionSchema, current_mode: Mode) -> (r: Option<UIAction>)
        ensures
            r == Some(action_for_schema(*schema, current_mode)),
    {
        match schema {
            ActionSchema::Common(common_schema) => {
                let action = match common_schema {
                    CommonActionSchema::Quit => CommonAction::Quit,
                    CommonActionSchema::ShowHelp => CommonAction::ShowHelp(current_mode),
                };
                Some(UIAction::Common(action))
            },
            ActionSchema::Normal(normal_schema) => Some(UIAction::NormalMode(normal_schema.to_action())),
            ActionSchema::Edit(edit_schema) => Some(UIAction::EditMode(edit_schema.to_action())),
        }
    }

    /// The essential schemas of a mode, for the help line.
    pub fn get_essential_schemas(&self, mode: Mode) -> (r: Vec<(&'static str, &ActionSchema)>)
        ensures
            r@.len() == essential_entries(self.registry(), essential_ids(mode), mode).len(),
            forall|k: int|
                0 <= k < r@.len() ==> (#[trigger] r@[k]).0@ == essential_entries(
                    self.registry(),
                    essential_ids(mode),
                    mode,
                )[k].0 && *r@[k].1 == essential_entries(self.registry(), essential_ids(mode), mode)[k].1,
    {
        self.action_registry.get_essential_schemas_for_mode(mode)
    }
}

} // verus!
