use vstd::prelude::*;
use crate::presets::Step;

verus! {

/// Spin limit, in thousandths: the spin stays within (-1, 1).
pub const SPIN_LIMIT_MILLI: i32 = 999;

/// Spin change per key press, in thousandths.
pub const SPIN_STEP_MILLI: i32 = 50;

/// Spin a* the disk starts with, in thousandths (prograde 0.82).
pub const DEFAULT_SPIN_MILLI: i32 = 820;

/// Smallest outer disk radius reachable by key presses, in Schwarzschild radii.
pub const MIN_OUTER_RADIUS_RS: u32 = 4;

/// Largest outer disk radius reachable by key presses, in Schwarzschild radii.
pub const MAX_OUTER_RADIUS_RS: u32 = 30;

/// Outer disk radius the disk starts with, in Schwarzschild radii.
pub const DEFAULT_OUTER_RADIUS_RS: u32 = 15;

/// Runtime-adjustable black hole and accretion disk parameters.
#[derive(Clone, Copy, Debug, PartialEq, Eq)]
pub struct DiskConfig {
    /// Dimensionless Kerr spin a*, in thousandths; positive is prograde.
    pub spin_milli: i32,
    /// Outer disk radius, in Schwarzschild radii.
    pub r_outer_rs: u32,
}

impl DiskConfig {
    /// The spin lies in [-0.999, 0.999] and the outer radius in [4, 30] r_s.
    pub open spec fn within_limits(self) -> bool {
        &&& -SPIN_LIMIT_MILLI <= self.spin_milli <= SPIN_LIMIT_MILLI
        &&& MIN_OUTER_RADIUS_RS <= self.r_outer_rs <= MAX_OUTER_RADIUS_RS
    }
}

impl Default for DiskConfig {
    fn default() -> (r: Self)
        ensures
            r.spin_milli == DEFAULT_SPIN_MILLI,
            r.r_outer_rs == DEFAULT_OUTER_RADIUS_RS,
            r.within_limits(),
    {
        DiskConfig { spin_milli: DEFAULT_SPIN_MILLI, r_outer_rs: DEFAULT_OUTER_RADIUS_RS }
    }
}

/// Which of the disk keys (Q, E, Z, X) were pressed this frame.
#[derive(Clone, Copy, Debug, PartialEq, Eq)]
pub struct DiskKeys {
    /// Q: spin down by 0.05.
    pub spin_down: bool,
    /// E: spin up by 0.05.
    pub spin_up: bool,
    /// Z: outer radius down by 1 r_s.
    pub radius_down: bool,
    /// X: outer radius up by 1 r_s.
    pub radius_up: bool,
}

/// `value` held within `[lo, hi]`.
pub open spec fn clamp_spec(value: int, lo: int, hi: int) -> int {
    if value < lo {
        lo
    } else if value > hi {
        hi
    } else {
        value
    }
}

/// The spin after one step of 0.05, held within [-0.999, 0.999].
pub open spec fn step_spin_spec(spin_milli: i32, step: Step) -> i32 {
    let moved: int = match step {
        Step::Down => spin_milli - SPIN_STEP_MILLI,
        Step::Up => spin_milli + SPIN_STEP_MILLI,
    };
    clamp_spec(moved, -SPIN_LIMIT_MILLI as int, SPIN_LIMIT_MILLI as int) as i32
}

/// The outer radius after one step of 1 r_s: a step down never goes below
/// 4 r_s, a step up never above 30 r_s.
pub open spec fn step_outer_radius_spec(r_outer_rs: u32, step: Step) -> u32 {
    match step {
        Step::Down => if r_outer_rs - 1 < MIN_OUTER_RADIUS_RS { MIN_OUTER_RADIUS_RS } else { (r_outer_rs - 1) as u32 },
        Step::Up => if r_outer_rs + 1 > MAX_OUTER_RADIUS_RS { MAX_OUTER_RADIUS_RS } else { (r_outer_rs + 1) as u32 },
    }
}

/// The configuration after this frame's key presses, applied in the order
/// Q, E, Z, X.
pub open spec fn update_disk_spec(config: DiskConfig, keys: DiskKeys) -> DiskConfig {
    let s1 = if keys.spin_down { step_spin_spec(config.spin_milli, Step::Down) } else { config.spin_milli };
    let s2 = if keys.spin_up { step_spin_spec(s1, Step::Up) } else { s1 };
    let r1 = if keys.radius_down { step_outer_radius_spec(config.r_outer_rs, Step::Down) } else { config.r_outer_rs };
    let r2 = if keys.radius_up { step_outer_radius_spec(r1, Step::Up) } else { r1 };
    DiskConfig { spin_milli: s2, r_outer_rs: r2 }
}

/// The spin after one step of 0.05 (a Q or E press), held within [-0.999, 0.999].
pub fn step_spin(spin_milli: i32, step: Step) -> (r: i32)
    ensures
        r == step_spin_spec(spin_milli, step),
        -SPIN_LIMIT_MILLI <= r <= SPIN_LIMIT_MILLI,
        ({
            let moved: int = if step == Step::Down { spin_milli - 50 } else { spin_milli + 50 };
            &&& -999 <= moved <= 999 ==> r == moved
            &&& moved < -999 ==> r == -999
            &&& moved > 999 ==> r == 999
        }),
{
    let moved: i64 = match step {
        Step::Down => spin_milli as i64 - SPIN_STEP_MILLI as i64,
        Step::Up => spin_milli as i64 + SPIN_STEP_MILLI as i64,
    };
    if moved < -(SPIN_LIMIT_MILLI as i64) {
        -SPIN_LIMIT_MILLI
    } else if moved > SPIN_LIMIT_MILLI as i64 {
        SPIN_LIMIT_MILLI
    } else {
        moved as i32
    }
}

/// The outer radius after one step of 1 r_s (a Z or X press).
pub fn step_outer_radius(r_outer_rs: u32, step: Step) -> (r: u32)
    ensures
        r == step_outer_radius_spec(r_outer_rs, step),
        step == Step::Down && r_outer_rs >= 5 ==> r == r_outer_rs - 1,
        step == Step::Down && r_outer_rs < 5 ==> r == 4,
        step == Step::Up && r_outer_rs < 30 ==> r == r_outer_rs + 1,
        step == Step::Up && r_outer_rs >= 30 ==> r == 30,
{
    match step {
        Step::Down => if r_outer_rs < MIN_OUTER_RADIUS_RS + 1 { MIN_OUTER_RADIUS_RS } else { r_outer_rs - 1 },
        Step::Up => if r_outer_rs > MAX_OUTER_RADIUS_RS - 1 { MAX_OUTER_RADIUS_RS } else { r_outer_rs + 1 },
    }
}

/// Applies this frame's disk keys. Returns the new configuration and whether
/// any disk key was pressed, in which case the caller resizes the black hole
/// to the new horizon and restarts accumulation.
pub fn update_disk_config(config: DiskConfig, keys: DiskKeys) -> (r: (DiskConfig, bool))
    ensures
        r.0 == update_disk_spec(config, keys),
        r.1 == (keys.spin_down || keys.spin_up || keys.radius_down || keys.radius_up),
        !keys.spin_down && !keys.spin_up ==> r.0.spin_milli == config.spin_milli,
        keys.spin_down && !keys.spin_up ==> r.0.spin_milli == step_spin_spec(config.spin_milli, Step::Down),
        !keys.spin_down && keys.spin_up ==> r.0.spin_milli == step_spin_spec(config.spin_milli, Step::Up),
        keys.spin_down && keys.spin_up ==> r.0.spin_milli == step_spin_spec(
            step_spin_spec(config.spin_milli, Step::Down),
            Step::Up,
        ),
        !keys.radius_down && !keys.radius_up ==> r.0.r_outer_rs == config.r_outer_rs,
        keys.radius_down && !keys.radius_up ==> r.0.r_outer_rs == step_outer_radius_spec(config.r_outer_rs, Step::Down),
        !keys.radius_down && keys.radius_up ==> r.0.r_outer_rs == step_outer_radius_spec(config.r_outer_rs, Step::Up),
        keys.radius_down && keys.radius_up ==> r.0.r_outer_rs == step_outer_radius_spec(
            step_outer_radius_spec(config.r_outer_rs, Step::Down),
            Step::Up,
        ),
{
    let mut next: DiskConfig = config;
    let mut changed: bool = false;
    if keys.spin_down {
        next.spin_milli = step_spin(next.spin_milli, Step::Down);
        changed = true;
    }
    if keys.spin_up {
        next.spin_milli = step_spin(next.spin_milli, Step::Up);
        changed = true;
    }
    if keys.radius_down {
        next.r_outer_rs = step_outer_radius(next.r_outer_rs, Step::Down);
        changed = true;
    }
    if keys.radius_up {
        next.r_outer_rs = step_outer_radius(next.r_outer_rs, Step::Up);
        changed = true;
    }
    (next, changed)
}

/// One key press moves the spin by 0.05 and the outer radius by 1 r_s, held
/// at the limits.
pub proof fn lemma_step_sizes(spin_milli: i32, r_outer_rs: u32)
    ensures
        -949 <= spin_milli <= 999 ==> step_spin_spec(spin_milli, Step::Down) == spin_milli - 50,
        -999 <= spin_milli <= 949 ==> step_spin_spec(spin_milli, Step::Up) == spin_milli + 50,
        spin_milli < -949 ==> step_spin_spec(spin_milli, Step::Down) == -999,
        spin_milli > 949 ==> step_spin_spec(spin_milli, Step::Up) == 999,
        r_outer_rs >= 5 ==> step_outer_radius_spec(r_outer_rs, Step::Down) == r_outer_rs - 1,
        r_outer_rs < 5 ==> step_outer_radius_spec(r_outer_rs, Step::Down) == 4,
        r_outer_rs < 30 ==> step_outer_radius_spec(r_outer_rs, Step::Up) == r_outer_rs + 1,
        r_outer_rs >= 30 ==> step_outer_radius_spec(r_outer_rs, Step::Up) == 30,
{
}

/// Key presses keep a configuration within its limits.
pub proof fn lemma_update_keeps_limits(config: DiskConfig, keys: DiskKeys)
    requires
        config.within_limits(),
    ensures
        update_disk_spec(config, keys).within_limits(),
{
}

/// Away from the limits, a step down and a step up cancel each other.
pub proof fn lemma_steps_cancel(config: DiskConfig)
    requires
        -SPIN_LIMIT_MILLI + SPIN_STEP_MILLI <= config.spin_milli <= SPIN_LIMIT_MILLI - SPIN_STEP_MILLI,
        MIN_OUTER_RADIUS_RS < config.r_outer_rs < MAX_OUTER_RADIUS_RS,
    ensures
        step_spin_spec(step_spin_spec(config.spin_milli, Step::Down), Step::Up) == config.spin_milli,
        step_spin_spec(step_spin_spec(config.spin_milli, Step::Up), Step::Down) == config.spin_milli,
        step_outer_radius_spec(step_outer_radius_spec(config.r_outer_rs, Step::Down), Step::Up) == config.r_outer_rs,
        step_outer_radius_spec(step_outer_radius_spec(config.r_outer_rs, Step::Up), Step::Down) == config.r_outer_rs,
{
}

/// Without a key press the configuration stays as it is.
pub proof fn lemma_no_keys_no_change(config: DiskConfig)
    ensures
        update_disk_spec(config, DiskKeys { spin_down: false, spin_up: false, radius_down: false, radius_up: false })
            == config,
{
}

} // verus!
