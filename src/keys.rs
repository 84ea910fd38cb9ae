use vstd::prelude::*;

verus! {

/// The logical keys the daemon follows.
#[derive(Clone, Copy, Debug, PartialEq, Eq, Structural, Hash)]
pub enum Key {
    Modifier,
    Up,
    Down,
    Left,
    Right,
    LeftClick,
    RightClick,
}

/// Whether a key is held.
#[derive(Clone, Copy, Debug, PartialEq, Eq, Structural, Hash)]
pub enum KeyState {
    Up,
    Down,
}

/// The direction key that cancels `key`, if `key` is a direction.
pub open spec fn opposing(key: Key) -> Option<Key> {
    match key {
        Key::Up => Some(Key::Down),
        Key::Down => Some(Key::Up),
        Key::Right => Some(Key::Left),
        Key::Left => Some(Key::Right),
        _ => None,
    }
}

/// The opposite direction of a direction key; `None` for the other keys.
pub fn get_opposing_key(key: &Key) -> (r: Option<Key>)
    ensures
        r == opposing(*key),
{
    match key {
        Key::Up => Some(Key::Down),
        Key::Down => Some(Key::Up),
        Key::Right => Some(Key::Left),
        Key::Left => Some(Key::Right),
        _ => None,
    }
}

/// What a key transition does to the set of held keys. Pressing a direction
/// first releases its opposite; releasing any key clears the whole set,
/// because the window manager does not always report the release of a key
/// whose binding changed while it was held.
pub open spec fn transition(keys: Set<Key>, key: Key, down: bool) -> Set<Key> {
    if down {
        match opposing(key) {
            Some(o) => keys.remove(o).insert(key),
            None => keys.insert(key),
        }
    } else {
        Set::empty()
    }
}

/// Pressing a direction key after its opposite leaves the new key held and
/// the opposite released, whatever else is held.
pub proof fn lemma_press_releases_opposite(keys: Set<Key>, first: Key, second: Key)
    requires
        opposing(first) == Some(second),
    ensures
        transition(transition(keys, first, true), second, true).contains(second),
        !transition(transition(keys, first, true), second, true).contains(first),
{
    assert(opposing(second) == Some(first));
}

/// Releasing any key leaves no key held.
pub proof fn lemma_release_clears(keys: Set<Key>, key: Key)
    ensures
        transition(keys, key, false) == Set::<Key>::empty(),
{
}

/// A set of keys, one flag per key.
#[derive(Clone, Copy, Debug, PartialEq, Eq, Structural)]
pub struct KeySet {
    modifier: bool,
    up: bool,
    down: bool,
    left: bool,
    right: bool,
    left_click: bool,
    right_click: bool,
}

impl KeySet {
    pub closed spec fn has(&self, key: Key) -> bool {
        match key {
            Key::Modifier => self.modifier,
            Key::Up => self.up,
            Key::Down => self.down,
            Key::Left => self.left,
            Key::Right => self.right,
            Key::LeftClick => self.left_click,
            Key::RightClick => self.right_click,
        }
    }

    pub open spec fn view(&self) -> Set<Key> {
        Set::new(|k: Key| self.has(k))
    }

    /// Two key sets are equal exactly when they hold the same keys.
    pub proof fn lemma_view_injective(a: KeySet, b: KeySet)
        ensures
            (a == b) == (a@ == b@),
    {
        if a@ == b@ {
            assert(a.has(Key::Modifier) == b@.contains(Key::Modifier));
            assert(a.has(Key::Up) == b@.contains(Key::Up));
            assert(a.has(Key::Down) == b@.contains(Key::Down));
            assert(a.has(Key::Left) == b@.contains(Key::Left));
            assert(a.has(Key::Right) == b@.contains(Key::Right));
            assert(a.has(Key::LeftClick) == b@.contains(Key::LeftClick));
            assert(a.has(Key::RightClick) == b@.contains(Key::RightClick));
        }
    }

    pub fn new() -> (r: KeySet)
        ensures
            r@ == Set::<Key>::empty(),
    {
        let r = KeySet {
            modifier: false,
            up: false,
            down: false,
            left: false,
            right: false,
            left_click: false,
            right_click: false,
        };
        assert(r@ =~= Set::<Key>::empty());
        r
    }

    pub fn contains(&self, key: Key) -> (r: bool)
        ensures
            r == self@.contains(key),
    {
        match key {
            Key::Modifier => self.modifier,
            Key::Up => self.up,
            Key::Down => self.down,
            Key::Left => self.left,
            Key::Right => self.right,
            Key::LeftClick => self.left_click,
            Key::RightClick => self.right_click,
        }
    }

    fn set(&mut self, key: Key, held: bool)
        ensures
            forall|k: Key| #[trigger]
                final(self).has(k) == if k == key {
                    held
                } else {
                    old(self).has(k)
                },
    {
        match key {
            Key::Modifier => self.modifier = held,
            Key::Up => self.up = held,
            Key::Down => self.down = held,
            Key::Left => self.left = held,
            Key::Right => self.right = held,
            Key::LeftClick => self.left_click = held,
            Key::RightClick => self.right_click = held,
        }
    }

    pub fn insert(&mut self, key: Key)
        ensures
            final(self)@ == old(self)@.insert(key),
    {
        self.set(key, true);
        assert(self@ =~= old(self)@.insert(key));
    }

    pub fn remove(&mut self, key: Key)
        ensures
            final(self)@ == old(self)@.remove(key),
    {
        self.set(key, false);
        assert(self@ =~= old(self)@.remove(key));
    }

    pub fn clear(&mut self)
        ensures
            final(self)@ == Set::<Key>::empty(),
    {
        *self = KeySet::new();
    }
}

/// What the daemon knows of the window manager: the active mode and the keys
/// held down.
#[derive(Debug)]
pub struct State {
    pub mode: String,
    pub down_keys: KeySet,
}

impl Clone for State {
    fn clone(&self) -> (r: State)
        ensures
            r == *self,
    {
        State { mode: self.mode.clone(), down_keys: self.down_keys }
    }
}

impl PartialEq for State {
    fn eq(&self, other: &State) -> (r: bool)
        ensures
            r == (self.mode@ == other.mode@ && self.down_keys@ == other.down_keys@),
    {
        proof {
            KeySet::lemma_view_injective(self.down_keys, other.down_keys);
        }
        self.mode == other.mode && self.down_keys == other.down_keys
    }
}

impl vstd::std_specs::cmp::PartialEqSpecImpl for State {
    open spec fn obeys_eq_spec() -> bool {
        true
    }

    open spec fn eq_spec(&self, other: &State) -> bool {
        self.mode@ == other.mode@ && self.down_keys@ == other.down_keys@
    }
}

impl State {
    /// The state at start-up: no key held, empty mode.
    pub fn new() -> (r: State)
        ensures
            r.mode@ == Seq::<char>::empty(),
            r.down_keys@ == Set::<Key>::empty(),
    {
        State { mode: String::new(), down_keys: KeySet::new() }
    }

    pub fn get_key_state(&self, key: &Key) -> (r: KeyState)
        ensures
            r == (if self.down_keys@.contains(*key) {
                KeyState::Down
            } else {
                KeyState::Up
            }),
    {
        if self.down_keys.contains(*key) {
            KeyState::Down
        } else {
            KeyState::Up
        }
    }

    /// Applies one key transition; the mode is left as it was.
    pub fn apply_key_transition(&mut self, key: Key, down: bool)
        ensures
            final(self).down_keys@ == transition(old(self).down_keys@, key, down),
            final(self).mode == old(self).mode,
    {
        if down {
            match get_opposing_key(&key) {
                Some(o) => self.down_keys.remove(o),
                None => {},
            }
            self.down_keys.insert(key);
        } else {
            self.down_keys.clear();
        }
    }

    /// Replaces the active mode; the held keys are left as they were.
    pub fn apply_mode_change(&mut self, new_mode: String)
        ensures
            final(self).mode == new_mode,
            final(self).down_keys == old(self).down_keys,
    {
        self.mode = new_mode;
    }
}

} // verus!
