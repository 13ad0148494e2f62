//! Key bindings: which action a key of the host keyboard triggers. Keys are
//! named by number; the front end picks the numbers of its keyboard.

use crate::joypad::JoypadInput;
use std::collections::HashMap;
use vstd::prelude::*;

verus! {

broadcast use {vstd::std_specs::hash::group_hash_axioms, vstd::std_specs::hash::axiom_spec_keys_iter};

/// A key of the host keyboard.
pub type KeyCode = u32;

pub const KEY_ENTER: KeyCode = 13;

pub const KEY_ESCAPE: KeyCode = 27;

pub const KEY_SPACE: KeyCode = 32;

pub const KEY_ARROW_UP: KeyCode = 38;

pub const KEY_A: KeyCode = 65;

pub const KEY_D: KeyCode = 68;

pub const KEY_I: KeyCode = 73;

pub const KEY_J: KeyCode = 74;

pub const KEY_S: KeyCode = 83;

pub const KEY_W: KeyCode = 87;

/// What a key press or release does.
#[derive(Clone, Debug, Copy, PartialEq, Eq, Structural)]
pub enum Action {
    Joypad(JoypadInput),
    Control(EmuControl),
}

/// Emulation controls.
#[derive(Clone, Debug, Copy, PartialEq, Eq, Structural)]
pub enum EmuControl {
    Pause,
    Reset,
}

/// The bindings a list of pairs makes, a later pair for a key replacing an
/// earlier one.
pub open spec fn bindings_of(pairs: Seq<(KeyCode, Action)>) -> Map<KeyCode, Action>
    decreases pairs.len(),
{
    if pairs.len() == 0 {
        Map::empty()
    } else {
        let last = pairs.last();
        bindings_of(pairs.drop_last()).insert(last.0, last.1)
    }
}

/// The bindings without those of `action`.
pub open spec fn without_action(m: Map<KeyCode, Action>, action: Action) -> Map<KeyCode, Action> {
    Map::new(|k: KeyCode| m.contains_key(k) && m[k] != action, |k: KeyCode| m[k])
}

/// The bindings of a fresh configuration: W, S, A, D for the d-pad, J and
/// I for A and B, Enter for Start and Space for Select.
pub open spec fn default_bindings() -> Map<KeyCode, Action> {
    map![
        KEY_W => Action::Joypad(JoypadInput::Up),
        KEY_S => Action::Joypad(JoypadInput::Down),
        KEY_A => Action::Joypad(JoypadInput::Left),
        KEY_D => Action::Joypad(JoypadInput::Right),
        KEY_J => Action::Joypad(JoypadInput::A),
        KEY_I => Action::Joypad(JoypadInput::B),
        KEY_ENTER => Action::Joypad(JoypadInput::Start),
        KEY_SPACE => Action::Joypad(JoypadInput::Select)
    ]
}

/// Key bindings.
pub struct Keybinds {
    bindings: HashMap<KeyCode, Action>,
}

impl View for Keybinds {
    type V = Map<KeyCode, Action>;

    closed spec fn view(&self) -> Map<KeyCode, Action> {
        self.bindings@
    }
}

impl Default for Keybinds {
    /// The default key configuration.
    fn default() -> (k: Keybinds)
        ensures
            k@ == default_bindings(),
    {
        let mut bindings: HashMap<KeyCode, Action> = HashMap::new();
        bindings.insert(KEY_W, Action::Joypad(JoypadInput::Up));
        bindings.insert(KEY_S, Action::Joypad(JoypadInput::Down));
        bindings.insert(KEY_A, Action::Joypad(JoypadInput::Left));
        bindings.insert(KEY_D, Action::Joypad(JoypadInput::Right));
        bindings.insert(KEY_J, Action::Joypad(JoypadInput::A));
        bindings.insert(KEY_I, Action::Joypad(JoypadInput::B));
        bindings.insert(KEY_ENTER, Action::Joypad(JoypadInput::Start));
        bindings.insert(KEY_SPACE, Action::Joypad(JoypadInput::Select));
        let k = Keybinds { bindings };
        assert(k@ =~= default_bindings());
        k
    }
}

impl Keybinds {
    /// The configuration made of the given pairs; for a key given twice
    /// the later pair counts.
    pub fn new(bindings: Vec<(KeyCode, Action)>) -> (k: Keybinds)
        ensures
            k@ == bindings_of(bindings@),
    {
        let mut map: HashMap<KeyCode, Action> = HashMap::new();
        let mut i: usize = 0;
        assert(map@ =~= bindings_of(bindings@.take(0)));
        while i < bindings.len()
            invariant
                i <= bindings.len(),
                map@ == bindings_of(bindings@.take(i as int)),
            decreases bindings.len() - i,
        {
            let (key, action) = bindings[i];
            map.insert(key, action);
            i = i + 1;
            assert(bindings@.take(i as int).drop_last() =~= bindings@.take(i - 1));
        }
        assert(bindings@.take(i as int) =~= bindings@);
        Keybinds { bindings: map }
    }

    /// The action a key is bound to.
    pub fn translate(&self, key: KeyCode) -> (a: Option<Action>)
        ensures
            a == (if self@.contains_key(key) {
                Some(self@[key])
            } else {
                None
            }),
    {
        match self.bindings.get(&key) {
            Some(a) => Some(*a),
            None => None,
        }
    }

    /// Binds a key to an action; the keys bound to that action before are
    /// unbound, so that one action has one key.
    pub fn remap(&mut self, key: KeyCode, action: Action)
        ensures
            final(self)@ == without_action(old(self)@, action).insert(key, action),
    {
        let ghost m0 = self@;
        // the keys bound to this action
        let mut doomed: Vec<KeyCode> = Vec::new();
        for k in it: self.bindings.keys()
            invariant
                self@ == m0,
                it.seq().unref().to_set() == m0.dom(),
                forall|j: int|
                    0 <= j < doomed@.len() ==> m0.contains_key(#[trigger] doomed@[j]) && m0[doomed@[j]]
                        == action,
                forall|j: int|
                    0 <= j < it.index() && m0[#[trigger] it.seq().unref()[j]] == action
                        ==> doomed@.contains(it.seq().unref()[j]),
                it.index() == it.seq().len() ==> forall|x: KeyCode|
                    m0.contains_key(x) && m0[x] == action ==> #[trigger] doomed@.contains(x),
        {
            let ghost idx = it.index();
            let ghost old_doomed = doomed@;
            assert(it.seq().unref()[idx] == *k);
            assert(it.seq().unref().contains(*k));
            assert(it.seq().unref().to_set().contains(*k));
            assert(m0.contains_key(*k));
            match self.bindings.get(k) {
                Some(v) => {
                    if *v == action {
                        doomed.push(*k);
                        assert(doomed@[doomed@.len() - 1] == *k);
                    }
                },
                None => {},
            }
            assert forall|x: KeyCode| old_doomed.contains(x) implies doomed@.contains(x) by {
                let i = choose|i: int| 0 <= i < old_doomed.len() && old_doomed[i] == x;
                assert(doomed@[i] == x);
            }
            assert forall|x: KeyCode|
                idx + 1 == it.seq().len() && m0.contains_key(x) && m0[x]
                    == action implies #[trigger] doomed@.contains(x) by {
                assert(it.seq().unref().to_set().contains(x));
                let j = choose|j: int| 0 <= j < it.seq().unref().len() && it.seq().unref()[j] == x;
                if j < idx {
                    assert(m0[it.seq().unref()[j]] == action);
                    assert(old_doomed.contains(x));
                }
            }
        }
        let mut i: usize = 0;
        while i < doomed.len()
            invariant
                i <= doomed.len(),
                forall|j: int|
                    0 <= j < doomed@.len() ==> m0.contains_key(#[trigger] doomed@[j]) && m0[doomed@[j]]
                        == action,
                forall|k: KeyCode| m0.contains_key(k) && m0[k] == action ==> doomed@.contains(k),
                forall|j: int| 0 <= j < i ==> !self@.contains_key(#[trigger] doomed@[j]),
                forall|k: KeyCode|
                    #[trigger] self@.contains_key(k) ==> m0.contains_key(k) && self@[k] == m0[k],
                forall|k: KeyCode|
                    m0.contains_key(k) && m0[k] != action ==> #[trigger] self@.contains_key(k),
            decreases doomed.len() - i,
        {
            let k = doomed[i];
            let ghost before = self@;
            self.bindings.remove(&k);
            assert(self@ == before.remove(k));
            i = i + 1;
        }
        proof {
            assert forall|k: KeyCode| #[trigger] self@.contains_key(k) <==> without_action(
                m0,
                action,
            ).contains_key(k) by {
                if m0.contains_key(k) && m0[k] == action {
                    assert(doomed@.contains(k));
                    let j = choose|j: int| 0 <= j < doomed@.len() && doomed@[j] == k;
                    assert(!self@.contains_key(doomed@[j]));
                }
            }
            assert(self@ =~= without_action(m0, action));
        }
        self.bindings.insert(key, action);
    }

    /// Unbinds a key.
    pub fn unmap(&mut self, key: KeyCode)
        ensures
            final(self)@ == old(self)@.remove(key),
    {
        self.bindings.remove(&key);
    }

    /// All the bindings.
    pub fn get_bindings(&self) -> (b: &HashMap<KeyCode, Action>)
        ensures
            b@ == self@,
    {
        &self.bindings
    }
}

/// After a remap the key gives the action and no other key does.
pub proof fn lemma_remap_unique(m: Map<KeyCode, Action>, key: KeyCode, action: Action, other: KeyCode)
    requires
        other != key,
    ensures
        without_action(m, action).insert(key, action)[key] == action,
        without_action(m, action).insert(key, action).contains_key(other) ==> without_action(
            m,
            action,
        ).insert(key, action)[other] != action,
        m.contains_key(other) && m[other] != action ==> without_action(m, action).insert(
            key,
            action,
        )[other] == m[other],
{
}

} // verus!
