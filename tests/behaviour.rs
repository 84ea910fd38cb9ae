use unmoved_mover::config::{check_key_names, parse_binding_key, Config, ConfigError};
use unmoved_mover::daemon::{run, setup_sway_config};
use unmoved_mover::interpreter::{
    handle_binding_event, modifiers_match, BindingOutcome, BindingRecord, Button, ButtonCommand,
};
use unmoved_mover::keys::{get_opposing_key, Key, KeySet, KeyState, State};
use unmoved_mover::motion::{get_action, sleep_duration, Scheduler, TickAction};

const MS: u64 = 1_000_000;

fn config(mod_key: &str, required_mode: Option<&str>) -> Config {
    Config {
        required_mode: required_mode.map(|m| m.to_string()),
        key_combo_enter_mode: "Shift+Mod1+u".to_string(),
        key_combo_exit_mode: "Escape".to_string(),
        mod_key: mod_key.to_string(),
        left_key: "j".to_string(),
        right_key: "l".to_string(),
        up_key: "i".to_string(),
        down_key: "k".to_string(),
        left_click_key: "u".to_string(),
        right_click_key: "o".to_string(),
        tick_interval_ns: 10 * MS,
        cursor_velocity: 500,
        skip_configuration: false,
    }
}

fn event(symbol: Option<&str>, command: &str, modifiers: &[&str]) -> BindingRecord {
    BindingRecord {
        symbol: symbol.map(|s| s.to_string()),
        command: command.to_string(),
        modifiers: modifiers.iter().map(|m| m.to_string()).collect(),
    }
}

fn state_with(mode: &str, keys: &[Key]) -> State {
    let mut down_keys = KeySet::new();
    for k in keys {
        down_keys.insert(*k);
    }
    State { mode: mode.to_string(), down_keys }
}

fn held(state: &State) -> Vec<Key> {
    [
        Key::Modifier,
        Key::Up,
        Key::Down,
        Key::Left,
        Key::Right,
        Key::LeftClick,
        Key::RightClick,
    ]
    .into_iter()
    .filter(|k| state.down_keys.contains(*k))
    .collect()
}

fn moved(r: Option<TickAction>) -> (i32, i32) {
    match r {
        Some(TickAction::MoveCursor { dx_px, dy_px }) => (dx_px, dy_px),
        None => panic!("expected a move"),
    }
}

#[test]
fn pressing_down_after_up_releases_up() {
    let c = config("", None);
    let mut s = State::new();
    handle_binding_event(&mut s, &c, &event(Some("i"), "nop press", &[]));
    assert_eq!(held(&s), vec![Key::Up]);
    handle_binding_event(&mut s, &c, &event(Some("k"), "nop press", &[]));
    assert_eq!(held(&s), vec![Key::Down]);
}

#[test]
fn pressing_right_after_left_releases_left() {
    let c = config("", None);
    let mut s = state_with("", &[Key::Left, Key::Up]);
    handle_binding_event(&mut s, &c, &event(Some("l"), "nop press", &[]));
    assert_eq!(held(&s), vec![Key::Up, Key::Right]);
}

#[test]
fn diagonal_up_right_moves_by_travel_over_sqrt2() {
    let c = config("", None);
    let s = state_with("", &[Key::Up, Key::Right]);
    // 10 ms at 500 px/s is 5 px; 5 / sqrt(2) = 3.54 rounds to 4.
    let r = get_action(&c, &s, &Some(s.clone()), 10 * MS);
    assert_eq!(moved(r), (4, -4));
}

#[test]
fn diagonal_one_second_at_thousand() {
    let mut c = config("", None);
    c.cursor_velocity = 1000;
    let s = state_with("", &[Key::Down, Key::Left]);
    // 1000 / sqrt(2) = 707.1
    let r = get_action(&c, &s, &Some(s.clone()), 1000 * MS);
    assert_eq!(moved(r), (-707, 707));
}

#[test]
fn no_keys_held_gives_no_move() {
    let c = config("", None);
    let s = state_with("", &[]);
    assert_eq!(get_action(&c, &s, &Some(s.clone()), 10 * MS), None);
    assert_eq!(get_action(&c, &s, &None, 10 * MS), None);
}

#[test]
fn wrong_mode_gives_no_move() {
    let c = config("", Some("Cursor"));
    let s = state_with("default", &[Key::Up]);
    assert_eq!(get_action(&c, &s, &Some(s.clone()), 10 * MS), None);
    let s = state_with("Cursor", &[Key::Up]);
    assert_eq!(moved(get_action(&c, &s, &Some(s.clone()), 10 * MS)), (0, -5));
}

#[test]
fn modifier_not_held_gives_no_move() {
    let c = config("Mod1", None);
    let s = state_with("", &[Key::Right]);
    assert_eq!(get_action(&c, &s, &Some(s.clone()), 10 * MS), None);
    let s = state_with("", &[Key::Modifier, Key::Right]);
    assert_eq!(moved(get_action(&c, &s, &Some(s.clone()), 10 * MS)), (5, 0));
}

#[test]
fn straight_move_rounds_halves_up() {
    let mut c = config("", None);
    c.cursor_velocity = 250;
    let s = state_with("", &[Key::Left]);
    // 10 ms at 250 px/s is 2.5 px.
    assert_eq!(moved(get_action(&c, &s, &Some(s.clone()), 10 * MS)), (-3, 0));
}

#[test]
fn changed_state_moves_by_nothing() {
    let c = config("", None);
    let s = state_with("", &[Key::Down]);
    let before = state_with("", &[Key::Up]);
    assert_eq!(moved(get_action(&c, &s, &Some(before), 10 * MS)), (0, 0));
    assert_eq!(moved(get_action(&c, &s, &None, 10 * MS)), (0, 0));
}

#[test]
fn huge_travel_is_capped() {
    let mut c = config("", None);
    c.cursor_velocity = u32::MAX;
    let s = state_with("", &[Key::Right]);
    assert_eq!(moved(get_action(&c, &s, &Some(s.clone()), u64::MAX)), (i32::MAX, 0));
    let s = state_with("", &[Key::Right, Key::Down]);
    assert_eq!(
        moved(get_action(&c, &s, &Some(s.clone()), u64::MAX)),
        (i32::MAX, i32::MAX)
    );
}

#[test]
fn extra_modifier_releases_modifier() {
    let c = config("Mod1", None);
    let mut s = state_with("", &[Key::Modifier]);
    handle_binding_event(&mut s, &c, &event(Some("i"), "nop press", &["Mod1", "Shift"]));
    assert_eq!(s.get_key_state(&Key::Modifier), KeyState::Up);
    assert_eq!(held(&s), vec![Key::Up]);
}

#[test]
fn exact_modifier_holds_modifier() {
    let c = config("Mod1", None);
    let mut s = State::new();
    handle_binding_event(&mut s, &c, &event(Some("i"), "nop press", &["Mod1"]));
    assert_eq!(s.get_key_state(&Key::Modifier), KeyState::Down);
    assert_eq!(held(&s), vec![Key::Modifier, Key::Up]);
}

#[test]
fn modifier_set_comparison() {
    let m = "Mod1".to_string();
    let v = |xs: &[&str]| xs.iter().map(|x| x.to_string()).collect::<Vec<String>>();
    assert!(modifiers_match(&v(&["Mod1"]), &m));
    assert!(modifiers_match(&v(&["Mod1", "Mod1"]), &m));
    assert!(!modifiers_match(&v(&["Mod1", "Shift"]), &m));
    assert!(!modifiers_match(&v(&[]), &m));
    assert!(!modifiers_match(&v(&["Shift"]), &m));
}

#[test]
fn release_clears_all_keys() {
    let c = config("", None);
    let mut s = state_with("", &[Key::Up]);
    handle_binding_event(&mut s, &c, &event(Some("i"), "nop release", &[]));
    assert_eq!(held(&s), vec![]);
    let mut s = state_with("", &[Key::Up, Key::Left]);
    handle_binding_event(&mut s, &c, &event(Some("k"), "nop release", &[]));
    assert_eq!(held(&s), vec![]);
}

#[test]
fn foreign_command_and_unknown_symbol_are_ignored() {
    let c = config("", None);
    let mut s = state_with("Cursor", &[Key::Up]);
    assert_eq!(
        handle_binding_event(&mut s, &c, &event(Some("i"), "exec foot", &[])),
        BindingOutcome::ForeignCommand
    );
    assert_eq!(held(&s), vec![Key::Up]);
    assert_eq!(
        handle_binding_event(&mut s, &c, &event(Some("z"), "nop release", &[])),
        BindingOutcome::Unbound
    );
    assert_eq!(
        handle_binding_event(&mut s, &c, &event(None, "nop release", &[])),
        BindingOutcome::Unbound
    );
    assert_eq!(held(&s), vec![Key::Up]);
    assert_eq!(s.mode, "Cursor");
}

#[test]
fn click_keys_give_button_commands() {
    let c = config("", None);
    let mut s = State::new();
    let r = handle_binding_event(&mut s, &c, &event(Some("u"), "nop press", &[]));
    let press = ButtonCommand { button: Button::Left, press: true };
    assert_eq!(r, BindingOutcome::Applied { button: Some(press) });
    assert_eq!(press.text(), "seat - cursor press button1");
    let r = handle_binding_event(&mut s, &c, &event(Some("o"), "nop release", &[]));
    let release = ButtonCommand { button: Button::Right, press: false };
    assert_eq!(r, BindingOutcome::Applied { button: Some(release) });
    let r = handle_binding_event(&mut s, &c, &event(Some("i"), "nop press", &[]));
    assert_eq!(r, BindingOutcome::Applied { button: None });
    assert_eq!(release.text(), "seat - cursor release button3");
}

#[test]
fn move_command_text() {
    assert_eq!(
        TickAction::MoveCursor { dx_px: 4, dy_px: -4 }.command(),
        "seat - cursor move 4 -4"
    );
    assert_eq!(
        TickAction::MoveCursor { dx_px: 0, dy_px: 120 }.command(),
        "seat - cursor move 0 120"
    );
}

#[test]
fn sleep_is_never_negative() {
    assert_eq!(sleep_duration(10 * MS, 15 * MS), 0);
    assert_eq!(sleep_duration(10 * MS, 10 * MS), 0);
    assert_eq!(sleep_duration(10 * MS, 4 * MS), 6 * MS);
}

#[test]
fn scheduler_uses_elapsed_only_for_unchanged_state() {
    let c = config("", None);
    let mut sched = Scheduler::new();
    let s = state_with("", &[Key::Right]);
    assert_eq!(moved(sched.tick(&c, s.clone(), 10 * MS)), (0, 0));
    assert_eq!(moved(sched.tick(&c, s.clone(), 10 * MS)), (5, 0));
    let t = state_with("", &[Key::Down]);
    assert_eq!(moved(sched.tick(&c, t.clone(), 10 * MS)), (0, 0));
    assert_eq!(moved(sched.tick(&c, t, 20 * MS)), (0, 10));
}

#[test]
fn key_names_resolve() {
    let c = config("", None);
    assert_eq!(parse_binding_key(&c, "i"), Some(Key::Up));
    assert_eq!(parse_binding_key(&c, "k"), Some(Key::Down));
    assert_eq!(parse_binding_key(&c, "j"), Some(Key::Left));
    assert_eq!(parse_binding_key(&c, "l"), Some(Key::Right));
    assert_eq!(parse_binding_key(&c, "u"), Some(Key::LeftClick));
    assert_eq!(parse_binding_key(&c, "o"), Some(Key::RightClick));
    assert_eq!(parse_binding_key(&c, "x"), None);
    let mut d = c.clone();
    d.up_key = "k".to_string();
    assert_eq!(parse_binding_key(&d, "k"), Some(Key::Down));
}

#[test]
fn opposing_keys() {
    assert_eq!(get_opposing_key(&Key::Up), Some(Key::Down));
    assert_eq!(get_opposing_key(&Key::Left), Some(Key::Right));
    assert_eq!(get_opposing_key(&Key::LeftClick), None);
    assert_eq!(get_opposing_key(&Key::Modifier), None);
}

#[test]
fn duplicate_key_names_are_refused() {
    let mut c = config("Mod1", None);
    assert_eq!(check_key_names(&c), Ok(()));
    c.right_click_key = "i".to_string();
    assert_eq!(check_key_names(&c), Err(ConfigError::DuplicateKeyName));
    assert!(matches!(run(&c), Err(ConfigError::DuplicateKeyName)));
}

#[test]
fn run_prepares_empty_state_and_bindings() {
    let c = config("Mod1", Some("Cursor"));
    let d = run(&c).unwrap_or_else(|_| panic!("configuration refused"));
    assert_eq!(d.state.mode, "");
    assert_eq!(held(&d.state), vec![]);
    assert!(d.scheduler.previous.is_none());
    assert_eq!(d.setup_commands.len(), 28);
    assert_eq!(d.setup_commands[0], "unbindsym Shift+Mod1+u");
    assert_eq!(d.setup_commands[1], "bindsym Shift+Mod1+u mode \"Cursor\"");
    assert_eq!(d.setup_commands[2], "mode \"Cursor\" unbindsym Escape");
    assert_eq!(d.setup_commands[3], "mode \"Cursor\" bindsym Escape mode default");
    assert_eq!(d.setup_commands[4], "mode \"Cursor\" unbindsym Mod1+i");
    assert_eq!(d.setup_commands[5], "mode \"Cursor\" unbindsym --release Mod1+i");
    assert_eq!(d.setup_commands[6], "mode \"Cursor\" bindsym --no-repeat Mod1+i nop press");
    assert_eq!(d.setup_commands[7], "mode \"Cursor\" bindsym --release Mod1+i nop release");
    assert_eq!(d.setup_commands[27], "mode \"Cursor\" bindsym --release Mod1+o nop release");
}

#[test]
fn setup_without_mode_or_modifier() {
    let c = config("", None);
    let cmds = setup_sway_config(&c);
    assert_eq!(cmds.len(), 24);
    assert_eq!(cmds[0], "unbindsym i");
    assert_eq!(cmds[2], "bindsym --no-repeat i nop press");
    let mut c = c.clone();
    c.skip_configuration = true;
    assert!(setup_sway_config(&c).is_empty());
}

#[test]
fn mode_change_keeps_keys() {
    let mut s = state_with("default", &[Key::Up]);
    s.apply_mode_change("Cursor".to_string());
    assert_eq!(s.mode, "Cursor");
    assert_eq!(held(&s), vec![Key::Up]);
}

#[test]
fn setup_binds_a_repeated_name_once() {
    let mut c = config("", None);
    c.down_key = "i".to_string();
    let cmds = setup_sway_config(&c);
    assert_eq!(cmds.len(), 20);
    assert_eq!(cmds.iter().filter(|x| x.as_str() == "unbindsym i").count(), 1);
    assert_eq!(cmds[4], "unbindsym j");
}
