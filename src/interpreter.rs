use vstd::prelude::*;
use crate::config::{Config, parse_binding_key, symbol_key};
use crate::keys::{Key, State, transition};

verus! {

/// One binding event as the window manager reports it.
#[derive(Debug, Clone)]
pub struct BindingRecord {
    /// The key symbol of the binding, if it is a symbol binding.
    pub symbol: Option<String>,
    /// The command the binding runs.
    pub command: String,
    /// The modifiers held when the binding fired.
    pub modifiers: Vec<String>,
}

/// The command that the daemon's own bindings run when a key is pressed.
pub open spec fn press_marker() -> Seq<char> {
    "nop press"@
}

/// The command that the daemon's own bindings run when a key is released.
pub open spec fn release_marker() -> Seq<char> {
    "nop release"@
}

pub fn press_command() -> (r: String)
    ensures
        r@ == press_marker(),
{
    String::from_str("nop press")
}

pub fn release_command() -> (r: String)
    ensures
        r@ == release_marker(),
{
    String::from_str("nop release")
}

/// The set of held modifiers is exactly the one configured modifier.
pub open spec fn modifiers_exactly(modifiers: Seq<String>, mod_key: Seq<char>) -> bool {
    modifiers.map_values(|s: String| s@).to_set() == set![mod_key]
}

/// The key transition a binding event asks for: its symbol must name a
/// configured key and its command must be one of the two markers.
pub open spec fn bound_transition(config: &Config, event: &BindingRecord) -> Option<(Key, bool)> {
    match event.symbol {
        Some(s) => match symbol_key(config, s@) {
            Some(k) => if event.command@ == press_marker() {
                Some((k, true))
            } else if event.command@ == release_marker() {
                Some((k, false))
            } else {
                None
            },
            None => None,
        },
        None => None,
    }
}

/// The held keys after a binding event: first the modifier, when one is
/// configured, then the bound key.
pub open spec fn event_keys(config: &Config, keys: Set<Key>, event: &BindingRecord) -> Set<Key> {
    let after_mod = if config.mod_key@.len() > 0 {
        transition(keys, Key::Modifier, modifiers_exactly(event.modifiers@, config.mod_key@))
    } else {
        keys
    };
    match bound_transition(config, event) {
        Some((k, down)) => transition(after_mod, k, down),
        None => after_mod,
    }
}

/// A release event for a bound key leaves no key held, whatever was held
/// before.
pub proof fn lemma_release_event_clears(config: &Config, keys: Set<Key>, event: &BindingRecord)
    requires
        bound_transition(config, event) matches Some((_, down)) && !down,
    ensures
        event_keys(config, keys, event) == Set::<Key>::empty(),
{
}

/// When a modifier is configured and the event reports any other modifier
/// held, the modifier counts as released, even if it is held too.
pub proof fn lemma_extra_modifier_releases(config: &Config, keys: Set<Key>, event: &BindingRecord, i: int)
    requires
        config.mod_key@.len() > 0,
        0 <= i < event.modifiers@.len(),
        event.modifiers@[i]@ != config.mod_key@,
    ensures
        !modifiers_exactly(event.modifiers@, config.mod_key@),
        !event_keys(config, keys, event).contains(Key::Modifier),
{
    let names = event.modifiers@.map_values(|s: String| s@);
    assert(names[i] == event.modifiers@[i]@);
    assert(names.to_set().contains(names[i]));
    assert(!set![config.mod_key@].contains(names[i]));
}

/// A mouse button the daemon clicks.
#[derive(Clone, Copy, Debug, PartialEq, Eq, Structural)]
pub enum Button {
    /// The primary button, `button1`.
    Left,
    /// The secondary button, `button3`.
    Right,
}

/// Press or release one mouse button.
#[derive(Clone, Copy, Debug, PartialEq, Eq, Structural)]
pub struct ButtonCommand {
    pub button: Button,
    pub press: bool,
}

/// The button command a key transition causes: click keys press and release
/// their button, the other keys cause none.
pub open spec fn click_for(key: Key, down: bool) -> Option<ButtonCommand> {
    match key {
        Key::LeftClick => Some(ButtonCommand { button: Button::Left, press: down }),
        Key::RightClick => Some(ButtonCommand { button: Button::Right, press: down }),
        _ => None,
    }
}

/// The window-manager command text of a button command.
pub open spec fn button_command_text(c: ButtonCommand) -> Seq<char> {
    match (c.button, c.press) {
        (Button::Left, true) => "seat - cursor press button1"@,
        (Button::Left, false) => "seat - cursor release button1"@,
        (Button::Right, true) => "seat - cursor press button3"@,
        (Button::Right, false) => "seat - cursor release button3"@,
    }
}

impl ButtonCommand {
    /// The command text to send to the window manager.
    pub fn text(&self) -> (r: String)
        ensures
            r@ == button_command_text(*self),
    {
        match (self.button, self.press) {
            (Button::Left, true) => String::from_str("seat - cursor press button1"),
            (Button::Left, false) => String::from_str("seat - cursor release button1"),
            (Button::Right, true) => String::from_str("seat - cursor press button3"),
            (Button::Right, false) => String::from_str("seat - cursor release button3"),
        }
    }
}

/// The button command for a key transition, if the key is a click key.
pub fn handle_mouse_key(key: &Key, key_down: bool) -> (r: Option<ButtonCommand>)
    ensures
        r == click_for(*key, key_down),
{
    match key {
        Key::LeftClick => Some(ButtonCommand { button: Button::Left, press: key_down }),
        Key::RightClick => Some(ButtonCommand { button: Button::Right, press: key_down }),
        _ => None,
    }
}

/// Applies a key transition to the state and returns the button command it
/// causes.
pub fn handle_bound_key(state: &mut State, key: &Key, key_down: bool) -> (r: Option<
    ButtonCommand,
>)
    ensures
        final(state).down_keys@ == transition(old(state).down_keys@, *key, key_down),
        final(state).mode == old(state).mode,
        r == click_for(*key, key_down),
{
    state.apply_key_transition(*key, key_down);
    handle_mouse_key(key, key_down)
}

/// Whether the held modifiers are exactly `{mod_key}`.
pub fn modifiers_match(modifiers: &Vec<String>, mod_key: &String) -> (r: bool)
    ensures
        r == modifiers_exactly(modifiers@, mod_key@),
{
    let ghost names = modifiers@.map_values(|s: String| s@);
    if modifiers.len() == 0 {
        assert(!names.to_set().contains(mod_key@));
        assert(set![mod_key@].contains(mod_key@));
        return false;
    }
    let mut i: usize = 0;
    while i < modifiers.len()
        invariant
            0 <= i <= modifiers@.len(),
            names == modifiers@.map_values(|s: String| s@),
            forall|j: int| 0 <= j < i ==> #[trigger] names[j] == mod_key@,
        decreases modifiers.len() - i,
    {
        if !(modifiers[i] == *mod_key) {
            assert(names.to_set().contains(names[i as int]));
            assert(!set![mod_key@].contains(names[i as int]));
            return false;
        }
        i = i + 1;
    }
    assert(names.to_set() =~= set![mod_key@]) by {
        assert(names[0] == mod_key@);
        assert(names.contains(mod_key@));
    }
    true
}

/// What a binding event amounted to.
#[derive(Clone, Copy, Debug, PartialEq, Eq, Structural)]
pub enum BindingOutcome {
    /// The event has no symbol, or its symbol names no configured key.
    Unbound,
    /// The symbol names a key, but the binding runs a command other than the
    /// daemon's markers: the binding was not registered by the daemon.
    ForeignCommand,
    /// The key transition was applied; the button command to send, if any.
    Applied { button: Option<ButtonCommand> },
}

pub open spec fn binding_outcome(config: &Config, event: &BindingRecord) -> BindingOutcome {
    match event.symbol {
        Some(s) => match symbol_key(config, s@) {
            Some(_) => match bound_transition(config, event) {
                Some((k, down)) => BindingOutcome::Applied { button: click_for(k, down) },
                None => BindingOutcome::ForeignCommand,
            },
            None => BindingOutcome::Unbound,
        },
        None => BindingOutcome::Unbound,
    }
}

/// Interprets one binding event: updates the held keys and returns the
/// button command to send, if any, or why the event was not applied. The
/// mode is left as it was.
pub fn handle_binding_event(state: &mut State, config: &Config, event: &BindingRecord) -> (r:
    BindingOutcome)
    ensures
        final(state).down_keys@ == event_keys(config, old(state).down_keys@, event),
        final(state).mode == old(state).mode,
        r == binding_outcome(config, event),
{
    if !config.mod_key.as_str().is_empty() {
        let mod_down = modifiers_match(&event.modifiers, &config.mod_key);
        let _ = handle_bound_key(state, &Key::Modifier, mod_down);
    }
    let bound_key = match &event.symbol {
        Some(s) => parse_binding_key(config, s.as_str()),
        None => None,
    };
    match bound_key {
        Some(key) => {
            let press = press_command();
            let release = release_command();
            if event.command == press {
                BindingOutcome::Applied { button: handle_bound_key(state, &key, true) }
            } else if event.command == release {
                BindingOutcome::Applied { button: handle_bound_key(state, &key, false) }
            } else {
                BindingOutcome::ForeignCommand
            }
        },
        None => BindingOutcome::Unbound,
    }
}

} // verus!
