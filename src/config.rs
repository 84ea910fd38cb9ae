use vstd::prelude::*;
use crate::keys::Key;

verus! {

/// Settings fixed at start-up and shared by every part of the daemon.
#[derive(Debug, Clone, PartialEq, Eq)]
pub struct Config {
    /// The mode in which movement is active; `None` for every mode.
    pub required_mode: Option<String>,
    pub key_combo_enter_mode: String,
    pub key_combo_exit_mode: String,
    /// The modifier that must be held alone for movement; empty for none.
    pub mod_key: String,
    pub left_key: String,
    pub right_key: String,
    pub up_key: String,
    pub down_key: String,
    pub left_click_key: String,
    pub right_click_key: String,
    /// Time between two ticks of the motion scheduler, in nanoseconds.
    pub tick_interval_ns: u64,
    /// Cursor speed in pixels per second.
    pub cursor_velocity: u32,
    /// Leave the window manager's key bindings as they are.
    pub skip_configuration: bool,
}

/// Why a configuration is refused.
#[derive(Debug, Clone, Copy, PartialEq, Eq, Structural)]
pub enum ConfigError {
    /// Two logical keys are bound to the same key name.
    DuplicateKeyName,
}

/// The configured key names, in the order up, down, left, right,
/// left click, right click.
pub open spec fn key_names(config: &Config) -> Seq<Seq<char>> {
    seq![
        config.up_key@,
        config.down_key@,
        config.left_key@,
        config.right_key@,
        config.left_click_key@,
        config.right_click_key@,
    ]
}

/// The name-to-key table is injective.
pub open spec fn key_names_distinct(config: &Config) -> bool {
    forall|i: int, j: int|
        0 <= i < j < 6 ==> #[trigger] key_names(config)[i] != #[trigger] key_names(config)[j]
}

/// The key that a symbol names. Where two keys share a name, the later one in
/// `key_names` order wins.
pub open spec fn symbol_key(config: &Config, symbol: Seq<char>) -> Option<Key> {
    if symbol == config.right_click_key@ {
        Some(Key::RightClick)
    } else if symbol == config.left_click_key@ {
        Some(Key::LeftClick)
    } else if symbol == config.right_key@ {
        Some(Key::Right)
    } else if symbol == config.left_key@ {
        Some(Key::Left)
    } else if symbol == config.down_key@ {
        Some(Key::Down)
    } else if symbol == config.up_key@ {
        Some(Key::Up)
    } else {
        None
    }
}

/// The configured name of a key other than the modifier.
pub open spec fn key_name(config: &Config, key: Key) -> Seq<char> {
    match key {
        Key::Up => config.up_key@,
        Key::Down => config.down_key@,
        Key::Left => config.left_key@,
        Key::Right => config.right_key@,
        Key::LeftClick => config.left_click_key@,
        Key::RightClick => config.right_click_key@,
        Key::Modifier => config.mod_key@,
    }
}

/// With distinct names, a symbol resolves to a key exactly when it is that
/// key's configured name.
pub proof fn lemma_symbol_key_injective(config: &Config, symbol: Seq<char>, key: Key)
    requires
        key_names_distinct(config),
        key != Key::Modifier,
    ensures
        (symbol_key(config, symbol) == Some(key)) == (symbol == key_name(config, key)),
{
    let n = key_names(config);
    assert(n[0] != n[1] && n[0] != n[2] && n[0] != n[3] && n[0] != n[4] && n[0] != n[5]);
    assert(n[1] != n[2] && n[1] != n[3] && n[1] != n[4] && n[1] != n[5]);
    assert(n[2] != n[3] && n[2] != n[4] && n[2] != n[5]);
    assert(n[3] != n[4] && n[3] != n[5]);
    assert(n[4] != n[5]);
}

/// Resolves a binding's symbol to the key it is configured for.
pub fn parse_binding_key(config: &Config, symbol: &str) -> (r: Option<Key>)
    ensures
        r == symbol_key(config, symbol@),
{
    let s = symbol.to_owned();
    if s == config.right_click_key {
        Some(Key::RightClick)
    } else if s == config.left_click_key {
        Some(Key::LeftClick)
    } else if s == config.right_key {
        Some(Key::Right)
    } else if s == config.left_key {
        Some(Key::Left)
    } else if s == config.down_key {
        Some(Key::Down)
    } else if s == config.up_key {
        Some(Key::Up)
    } else {
        None
    }
}

/// Checks that no two logical keys share a configured name.
pub fn check_key_names(config: &Config) -> (r: Result<(), ConfigError>)
    ensures
        r is Ok <==> key_names_distinct(config),
        r is Err ==> r == Err::<(), ConfigError>(ConfigError::DuplicateKeyName),
{
    let names: Vec<String> = vec![
        config.up_key.clone(),
        config.down_key.clone(),
        config.left_key.clone(),
        config.right_key.clone(),
        config.left_click_key.clone(),
        config.right_click_key.clone(),
    ];
    assert(names@.map_values(|s: String| s@) =~= key_names(config));
    let mut i: usize = 0;
    while i < names.len()
        invariant
            names@.len() == 6,
            names@.map_values(|s: String| s@) == key_names(config),
            0 <= i <= 6,
            forall|a: int, b: int|
                0 <= a < i && a < b < 6 ==> #[trigger] key_names(config)[a] != #[trigger] key_names(
                    config,
                )[b],
        decreases names.len() - i,
    {
        let mut j: usize = i + 1;
        while j < names.len()
            invariant
                names@.len() == 6,
                names@.map_values(|s: String| s@) == key_names(config),
                0 <= i < 6,
                i < j <= 6,
                forall|a: int, b: int|
                    0 <= a < i && a < b < 6 ==> #[trigger] key_names(config)[a]
                        != #[trigger] key_names(config)[b],
                forall|b: int| i < b < j ==> key_names(config)[i as int] != #[trigger] key_names(config)[b],
            decreases names.len() - j,
        {
            assert(names@.map_values(|s: String| s@)[i as int] == names@[i as int]@);
            assert(names@.map_values(|s: String| s@)[j as int] == names@[j as int]@);
            if names[i] == names[j] {
                return Err(ConfigError::DuplicateKeyName);
            }
            j = j + 1;
        }
        i = i + 1;
    }
    Ok(())
}

} // verus!
