use vstd::prelude::*;
use crate::config::Config;
use crate::keys::{Key, State};

verus! {

pub open spec fn nanos_per_second() -> int {
    1_000_000_000
}

/// The largest step on one axis: the largest `i32`.
pub open spec fn max_step() -> int {
    0x7fff_ffff
}

/// The nearest integer to `p / q`, halves rounded up (for `p >= 0`, `q > 0`).
pub open spec fn round_div(p: int, q: int) -> int {
    (2 * p + q) / (2 * q)
}

/// `n` is the nearest integer to `p / (q * sqrt(2))`: squaring both sides of
/// `n - 1/2 <= p / (q * sqrt(2)) < n + 1/2` keeps the comparison in integers.
pub open spec fn rounds_over_sqrt2(n: int, p: int, q: int) -> bool {
    &&& n >= 0
    &&& (n == 0 || (2 * n - 1) * (2 * n - 1) * q * q <= 2 * p * p)
    &&& 2 * p * p < (2 * n + 1) * (2 * n + 1) * q * q
}

/// `m` is the step on each moving axis for a travel of `p / 10^9` pixels:
/// the travel itself on a straight move, the travel over `sqrt(2)` on a
/// diagonal one, rounded to the nearest pixel and capped at `max_step()`.
pub open spec fn step_ok(m: int, p: int, diagonal: bool) -> bool {
    let q = nanos_per_second();
    if diagonal {
        ||| (m < max_step() && rounds_over_sqrt2(m, p, q))
        ||| (m == max_step() && (2 * m - 1) * (2 * m - 1) * q * q <= 2 * p * p)
    } else {
        m == if round_div(p, q) < max_step() {
            round_div(p, q)
        } else {
            max_step()
        }
    }
}

/// Movement is enabled: the configured modifier, if any, is held, and the
/// required mode, if any, is active.
pub open spec fn gate_open(config: &Config, state: &State) -> bool {
    &&& (config.mod_key@.len() == 0 || state.down_keys@.contains(Key::Modifier))
    &&& match config.required_mode {
        Some(m) => state.mode@ == m@,
        None => true,
    }
}

pub open spec fn held(keys: Set<Key>, key: Key) -> int {
    if keys.contains(key) {
        1
    } else {
        0
    }
}

/// The direction of travel; `y` grows downwards.
pub open spec fn direction(keys: Set<Key>) -> (int, int) {
    (held(keys, Key::Right) - held(keys, Key::Left), held(keys, Key::Down) - held(keys, Key::Up))
}

/// The time the displacement covers: the elapsed time when the state is the
/// one of the previous tick, nothing otherwise.
pub open spec fn effective_elapsed(current: &State, previous: Option<State>, elapsed_ns: u64) -> int {
    match previous {
        Some(p) => if p.mode@ == current.mode@ && p.down_keys@ == current.down_keys@ {
            elapsed_ns as int
        } else {
            0
        },
        None => 0,
    }
}

/// `(dx, dy)` moves along `(x, y)` by the step that `step_ok` gives for `p`.
pub open spec fn displacement_ok(dx: int, dy: int, x: int, y: int, p: int) -> bool {
    let m = if x != 0 {
        if dx < 0 {
            -dx
        } else {
            dx
        }
    } else {
        if dy < 0 {
            -dy
        } else {
            dy
        }
    };
    dx == x * m && dy == y * m && step_ok(m, p, x != 0 && y != 0)
}

/// What the scheduler does in one tick.
#[derive(Clone, Copy, Debug, PartialEq, Eq, Structural)]
pub enum TickAction {
    /// Move the cursor by a relative offset in pixels.
    MoveCursor { dx_px: i32, dy_px: i32 },
}

/// The action of one tick: none when movement is disabled or no direction
/// is held, otherwise a move over the effective elapsed time at the
/// configured velocity.
pub open spec fn action_ok(
    config: &Config,
    current: &State,
    previous: Option<State>,
    elapsed_ns: u64,
    r: Option<TickAction>,
) -> bool {
    let dir = direction(current.down_keys@);
    let p = effective_elapsed(current, previous, elapsed_ns) * config.cursor_velocity;
    match r {
        None => !gate_open(config, current) || dir == (0int, 0int),
        Some(TickAction::MoveCursor { dx_px, dy_px }) => {
            &&& gate_open(config, current)
            &&& dir != (0int, 0int)
            &&& displacement_ok(dx_px as int, dy_px as int, dir.0, dir.1, p)
        },
    }
}

/// One decimal digit.
pub open spec fn digit_char(d: int) -> char {
    seq!['0', '1', '2', '3', '4', '5', '6', '7', '8', '9'][d]
}

/// The decimal digits of a natural number, most significant first.
pub open spec fn decimal_digits(n: nat) -> Seq<char>
    decreases n,
{
    if n < 10 {
        seq![digit_char(n as int)]
    } else {
        decimal_digits(n / 10).push(digit_char((n % 10) as int))
    }
}

/// The decimal form of an integer, with a leading `-` when negative.
pub open spec fn decimal(n: int) -> Seq<char> {
    if n < 0 {
        seq!['-'] + decimal_digits((-n) as nat)
    } else {
        decimal_digits(n as nat)
    }
}

/// The window-manager command that moves the cursor by `(dx, dy)`.
pub open spec fn move_command_text(dx: int, dy: int) -> Seq<char> {
    "seat - cursor move "@ + decimal(dx) + " "@ + decimal(dy)
}

/// Relies on `ToString` through `Display for i32`: the decimal form, with a
/// leading `-` for negative values and no padding.
#[verifier::external_body]
fn i32_text(n: i32) -> (r: String)
    ensures
        r@ == decimal(n as int),
{
    n.to_string()
}

impl TickAction {
    /// The command text to send to the window manager.
    pub fn command(&self) -> (r: String)
        ensures
            match *self {
                TickAction::MoveCursor { dx_px, dy_px } => r@ == move_command_text(
                    dx_px as int,
                    dy_px as int,
                ),
            },
    {
        match self {
            TickAction::MoveCursor { dx_px, dy_px } => {
                let x = i32_text(*dx_px);
                let y = i32_text(*dy_px);
                String::from_str("seat - cursor move ").concat(x.as_str()).concat(" ").concat(
                    y.as_str(),
                )
            },
        }
    }
}

const NANOS_PER_SECOND: u128 = 1_000_000_000;

const MAX_STEP: u64 = 0x7fff_ffff;

/// Travel above which a diagonal step is capped; its square fits in `u128`.
const DIAGONAL_CAP: u128 = 0x4000_0000_0000_0000;

/// The rounded straight step for a travel of `p / 10^9` pixels.
fn axis_step(p: u128) -> (m: i32)
    requires
        p <= 0xffff_ffff_ffff_ffff_ffff_ffff,
    ensures
        m >= 0,
        step_ok(m as int, p as int, false),
{
    let r = (2 * p + NANOS_PER_SECOND) / (2 * NANOS_PER_SECOND);
    if r < MAX_STEP as u128 {
        r as i32
    } else {
        MAX_STEP as i32
    }
}

/// Whether `(2n - 1)^2 * q^2 <= 2 p^2`, that is `n - 1/2 <= p / (q sqrt(2))`.
fn at_least_half_below(n: u64, p: u128) -> (r: bool)
    requires
        1 <= n <= MAX_STEP,
        p < DIAGONAL_CAP,
    ensures
        r == ((2 * n - 1) * (2 * n - 1) * nanos_per_second() * nanos_per_second() <= 2 * p * p),
{
    let a: u128 = (2 * n - 1) as u128;
    assert(a * a < 0x1_0000_0000_0000_0000) by (nonlinear_arith)
        requires
            a < 0x1_0000_0000,
    ;
    let a2: u128 = a * a;
    assert(a2 * 1_000_000_000_000_000_000 < 0x1000_0000_0000_0000_0000_0000_0000_0000)
        by (nonlinear_arith)
        requires
            a2 < 0x1_0000_0000_0000_0000,
    ;
    let lhs: u128 = a2 * (NANOS_PER_SECOND * NANOS_PER_SECOND);
    assert(p * p < 0x1000_0000_0000_0000_0000_0000_0000_0000) by (nonlinear_arith)
        requires
            p < 0x4000_0000_0000_0000,
    ;
    let rhs: u128 = 2 * (p * p);
    assert(lhs as int == a * a * nanos_per_second() * nanos_per_second()) by (nonlinear_arith)
        requires
            lhs == a2 * 1_000_000_000_000_000_000,
            a2 == a * a,
            nanos_per_second() == 1_000_000_000,
    ;
    assert(rhs as int == 2 * p * p) by (nonlinear_arith)
        requires
            rhs == 2 * (p * p),
    ;
    lhs <= rhs
}

/// The rounded diagonal step for a travel of `p / 10^9` pixels.
fn diagonal_step(p: u128) -> (m: i32)
    requires
        p <= 0xffff_ffff_ffff_ffff_ffff_ffff,
    ensures
        m >= 0,
        step_ok(m as int, p as int, true),
{
    let ghost q = nanos_per_second();
    if p >= DIAGONAL_CAP {
        let ghost a: int = 2 * max_step() - 1;
        assert(a * q <= p);
        assert((a * q) * (a * q) <= p * p) by (nonlinear_arith)
            requires
                0 <= a * q <= p,
        ;
        assert(a * a * q * q == (a * q) * (a * q)) by (nonlinear_arith);
        assert(a * a * q * q <= 2 * p * p) by (nonlinear_arith)
            requires
                a * a * q * q <= p * p,
        ;
        assert(step_ok(max_step(), p as int, true));
        return MAX_STEP as i32;
    }
    let mut lo: u64 = 0;
    let mut hi: u64 = MAX_STEP + 1;
    while hi - lo > 1
        invariant
            p < DIAGONAL_CAP,
            lo < hi <= MAX_STEP + 1,
            lo == 0 || (2 * lo - 1) * (2 * lo - 1) * q * q <= 2 * p * p,
            hi == MAX_STEP + 1 || 2 * p * p < (2 * hi - 1) * (2 * hi - 1) * q * q,
            q == nanos_per_second(),
        decreases hi - lo,
    {
        let mid: u64 = lo + (hi - lo) / 2;
        if at_least_half_below(mid, p) {
            lo = mid;
        } else {
            hi = mid;
        }
    }
    assert(hi == lo + 1);
    assert(2 * hi - 1 == 2 * lo + 1);
    lo as i32
}

/// Decides the action of one tick from the current snapshot, the previous
/// tick's snapshot and the time since the previous tick began.
pub fn get_action(
    config: &Config,
    current_state: &State,
    previous_state: &Option<State>,
    elapsed_ns: u64,
) -> (r: Option<TickAction>)
    ensures
        action_ok(config, current_state, *previous_state, elapsed_ns, r),
        !gate_open(config, current_state) ==> r is None,
        direction(current_state.down_keys@) == (0int, 0int) ==> r is None,
        ({
            let keys = current_state.down_keys@;
            gate_open(config, current_state) && *previous_state == Some(*current_state)
                && keys.contains(Key::Up) && keys.contains(Key::Right)
                && !keys.contains(Key::Down) && !keys.contains(Key::Left)
                ==> (r matches Some(TickAction::MoveCursor { dx_px, dy_px }) && dy_px == -dx_px
                    && step_ok(dx_px as int, elapsed_ns * config.cursor_velocity, true))
        }),
{
    let elapsed: u64 = match previous_state {
        Some(prev) => if *prev == *current_state {
            elapsed_ns
        } else {
            0
        },
        None => 0,
    };
    if !config.mod_key.as_str().is_empty() && !current_state.down_keys.contains(Key::Modifier) {
        return None;
    }
    match &config.required_mode {
        Some(m) => {
            if !(*m == current_state.mode) {
                return None;
            }
        },
        None => {},
    }
    let keys = &current_state.down_keys;
    let right: i32 = if keys.contains(Key::Right) { 1 } else { 0 };
    let left: i32 = if keys.contains(Key::Left) { 1 } else { 0 };
    let down: i32 = if keys.contains(Key::Down) { 1 } else { 0 };
    let up: i32 = if keys.contains(Key::Up) { 1 } else { 0 };
    let x: i32 = right - left;
    let y: i32 = down - up;
    if x == 0 && y == 0 {
        return None;
    }
    assert(elapsed as int * config.cursor_velocity as int <= 0xffff_ffff_ffff_ffff_ffff_ffff)
        by (nonlinear_arith)
        requires
            elapsed <= 0xffff_ffff_ffff_ffff,
            config.cursor_velocity <= 0xffff_ffff,
    ;
    let p: u128 = elapsed as u128 * config.cursor_velocity as u128;
    let m: i32 = if x != 0 && y != 0 {
        diagonal_step(p)
    } else {
        axis_step(p)
    };
    let dx_px: i32 = if x > 0 {
        m
    } else if x < 0 {
        -m
    } else {
        0
    };
    let dy_px: i32 = if y > 0 {
        m
    } else if y < 0 {
        -m
    } else {
        0
    };
    Some(TickAction::MoveCursor { dx_px, dy_px })
}

/// The motion scheduler's memory between ticks.
pub struct Scheduler {
    /// The snapshot the previous tick worked on.
    pub previous: Option<State>,
}

impl Scheduler {
    pub fn new() -> (r: Scheduler)
        ensures
            r.previous is None,
    {
        Scheduler { previous: None }
    }

    /// Runs one tick on a snapshot taken `elapsed_ns` after the previous
    /// tick began, and remembers the snapshot for the next tick.
    pub fn tick(&mut self, config: &Config, current: State, elapsed_ns: u64) -> (r: Option<
        TickAction,
    >)
        ensures
            action_ok(config, &current, old(self).previous, elapsed_ns, r),
            final(self).previous == Some(current),
    {
        let r = get_action(config, &current, &self.previous, elapsed_ns);
        self.previous = Some(current);
        r
    }
}

/// How long to sleep after a tick whose work took `work_ns`: the rest of the
/// tick interval, and nothing once the interval is used up.
pub fn sleep_duration(tick_interval_ns: u64, work_ns: u64) -> (r: u64)
    ensures
        r == if work_ns >= tick_interval_ns {
            0
        } else {
            tick_interval_ns - work_ns
        },
{
    if work_ns >= tick_interval_ns {
        0
    } else {
        tick_interval_ns - work_ns
    }
}

} // verus!
