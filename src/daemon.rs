use vstd::prelude::*;
use crate::config::{Config, ConfigError, check_key_names, key_names, key_names_distinct};
use crate::interpreter::{press_command, press_marker, release_command, release_marker};
use crate::keys::{Key, State};
use crate::motion::Scheduler;

verus! {

/// The text of each string in a sequence.
pub open spec fn texts(v: Seq<String>) -> Seq<Seq<char>> {
    v.map_values(|s: String| s@)
}

pub open spec fn quoted_mode(mode: Seq<char>) -> Seq<char> {
    "mode \""@ + mode + "\""@
}

/// What goes before a binding command so that it applies in the required
/// mode only.
pub open spec fn mode_prefix(config: &Config) -> Seq<char> {
    match config.required_mode {
        Some(m) => quoted_mode(m@) + " "@,
        None => Seq::empty(),
    }
}

/// The commands that bind the key combinations entering and leaving the
/// required mode.
pub open spec fn mode_commands(config: &Config) -> Seq<Seq<char>> {
    match config.required_mode {
        Some(m) => seq![
            "unbindsym "@ + config.key_combo_enter_mode@,
            "bindsym "@ + config.key_combo_enter_mode@ + " "@ + quoted_mode(m@),
            quoted_mode(m@) + " unbindsym "@ + config.key_combo_exit_mode@,
            quoted_mode(m@) + " bindsym "@ + config.key_combo_exit_mode@ + " mode default"@,
        ],
        None => seq![],
    }
}

/// A key name together with the configured modifier, if any.
pub open spec fn key_combo(config: &Config, name: Seq<char>) -> Seq<char> {
    if config.mod_key@.len() == 0 {
        name
    } else {
        config.mod_key@ + "+"@ + name
    }
}

/// The commands that bind one key combination to the press and release
/// markers, after removing what was bound to it before.
pub open spec fn key_commands(prefix: Seq<char>, combo: Seq<char>) -> Seq<Seq<char>> {
    seq![
        prefix + "unbindsym "@ + combo,
        prefix + "unbindsym --release "@ + combo,
        prefix + "bindsym --no-repeat "@ + combo + " "@ + press_marker(),
        prefix + "bindsym --release "@ + combo + " "@ + release_marker(),
    ]
}

/// The binding commands for each name, once per name: a name that came
/// earlier is not bound again.
pub open spec fn commands_for_names(config: &Config, names: Seq<Seq<char>>) -> Seq<Seq<char>>
    decreases names.len(),
{
    if names.len() == 0 {
        seq![]
    } else if names.drop_last().contains(names.last()) {
        commands_for_names(config, names.drop_last())
    } else {
        commands_for_names(config, names.drop_last()) + key_commands(
            mode_prefix(config),
            key_combo(config, names.last()),
        )
    }
}

/// The commands that register the daemon's key bindings with the window
/// manager; none when the configuration asks to leave them alone.
pub open spec fn setup_commands(config: &Config) -> Seq<Seq<char>> {
    if config.skip_configuration {
        seq![]
    } else {
        mode_commands(config) + commands_for_names(config, key_names(config))
    }
}

fn push_text(out: &mut Vec<String>, s: String)
    ensures
        texts(final(out)@) == texts(old(out)@).push(s@),
{
    out.push(s);
    assert(texts(out@) =~= texts(old(out)@).push(s@));
}

fn quote_mode(mode: &String) -> (r: String)
    ensures
        r@ == quoted_mode(mode@),
{
    String::from_str("mode \"").concat(mode.as_str()).concat("\"")
}

fn push_mode_commands(out: &mut Vec<String>, config: &Config)
    ensures
        texts(final(out)@) == texts(old(out)@) + mode_commands(config),
{
    match &config.required_mode {
        Some(m) => {
            let enter = config.key_combo_enter_mode.as_str();
            let exit = config.key_combo_exit_mode.as_str();
            push_text(out, String::from_str("unbindsym ").concat(enter));
            let quoted = quote_mode(m);
            push_text(
                out,
                String::from_str("bindsym ").concat(enter).concat(" ").concat(quoted.as_str()),
            );
            push_text(out, quote_mode(m).concat(" unbindsym ").concat(exit));
            push_text(out, quote_mode(m).concat(" bindsym ").concat(exit).concat(" mode default"));
        },
        None => {},
    }
    assert(texts(out@) =~= texts(old(out)@) + mode_commands(config));
}

fn build_mode_prefix(config: &Config) -> (r: String)
    ensures
        r@ == mode_prefix(config),
{
    match &config.required_mode {
        Some(m) => quote_mode(m).concat(" "),
        None => String::new(),
    }
}

fn build_key_combo(config: &Config, name: &String) -> (r: String)
    ensures
        r@ == key_combo(config, name@),
{
    if config.mod_key.as_str().is_empty() {
        name.clone()
    } else {
        config.mod_key.clone().concat("+").concat(name.as_str())
    }
}

fn push_key_commands(out: &mut Vec<String>, prefix: &String, combo: &String)
    ensures
        texts(final(out)@) == texts(old(out)@) + key_commands(prefix@, combo@),
{
    let c = combo.as_str();
    push_text(out, prefix.clone().concat("unbindsym ").concat(c));
    push_text(out, prefix.clone().concat("unbindsym --release ").concat(c));
    push_text(
        out,
        prefix.clone().concat("bindsym --no-repeat ").concat(c).concat(" ").concat(
            press_command().as_str(),
        ),
    );
    push_text(
        out,
        prefix.clone().concat("bindsym --release ").concat(c).concat(" ").concat(
            release_command().as_str(),
        ),
    );
    assert(texts(out@) =~= texts(old(out)@) + key_commands(prefix@, combo@));
}

/// The commands that register the daemon's key bindings.
pub fn setup_sway_config(config: &Config) -> (r: Vec<String>)
    ensures
        texts(r@) == setup_commands(config),
{
    let mut out: Vec<String> = Vec::new();
    if config.skip_configuration {
        assert(texts(out@) =~= seq![]);
        return out;
    }
    assert(texts(out@) =~= seq![]);
    push_mode_commands(&mut out, config);
    let prefix = build_mode_prefix(config);
    let names: Vec<String> = vec![
        config.up_key.clone(),
        config.down_key.clone(),
        config.left_key.clone(),
        config.right_key.clone(),
        config.left_click_key.clone(),
        config.right_click_key.clone(),
    ];
    assert(texts(names@) =~= key_names(config));
    let mut i: usize = 0;
    while i < names.len()
        invariant
            0 <= i <= names@.len(),
            texts(names@) == key_names(config),
            prefix@ == mode_prefix(config),
            texts(out@) == mode_commands(config) + commands_for_names(
                config,
                texts(names@).take(i as int),
            ),
        decreases names.len() - i,
    {
        let ghost seen_names = texts(names@).take(i as int);
        let mut seen = false;
        let mut j: usize = 0;
        while j < i
            invariant
                0 <= j <= i < names@.len(),
                texts(names@) == key_names(config),
                seen_names == texts(names@).take(i as int),
                seen == exists|k: int| 0 <= k < j && #[trigger] seen_names[k] == names@[i as int]@,
            decreases i - j,
        {
            if names[j] == names[i] {
                assert(seen_names[j as int] == names@[i as int]@);
                seen = true;
            }
            j = j + 1;
        }
        assert(seen == seen_names.contains(names@[i as int]@));
        if !seen {
            let combo = build_key_combo(config, &names[i]);
            push_key_commands(&mut out, &prefix, &combo);
        }
        assert(texts(names@).take(i + 1).drop_last() =~= seen_names);
        assert(texts(names@).take(i + 1).last() == names@[i as int]@);
        i = i + 1;
    }
    assert(texts(names@).take(6) =~= texts(names@));
    out
}

/// A daemon ready to start: the shared state, the scheduler, and the
/// commands that register its key bindings.
pub struct Daemon {
    pub state: State,
    pub scheduler: Scheduler,
    pub setup_commands: Vec<String>,
}

/// Checks the configuration and prepares the daemon: no key held, no
/// previous tick, and the binding commands to send before the event
/// receiver and the scheduler start.
pub fn run(config: &Config) -> (r: Result<Daemon, ConfigError>)
    ensures
        r is Ok <==> key_names_distinct(config),
        r matches Err(e) ==> e == ConfigError::DuplicateKeyName,
        r matches Ok(d) ==> {
            &&& d.state.mode@ == Seq::<char>::empty()
            &&& d.state.down_keys@ == Set::<Key>::empty()
            &&& d.scheduler.previous is None
            &&& texts(d.setup_commands@) == setup_commands(config)
        },
{
    match check_key_names(config) {
        Err(e) => Err(e),
        Ok(()) => Ok(
            Daemon {
                state: State::new(),
                scheduler: Scheduler::new(),
                setup_commands: setup_sway_config(config),
            },
        ),
    }
}

} // verus!
