//! The orbiting point light.
//!
//! The light's state is the position it started at, a color, and an orbit
//! phase: the angle it has accumulated about the world's vertical axis. Each
//! frame `advance` adds a step to the phase, kept normalized; the position
//! handed to the GPU is derived by rotating the starting position by the
//! phase. Holding the radius in the state rather than rotating a stored
//! position keeps the orbit exact: the distance from the axis is invariant by
//! construction, and a whole number of turns returns the light to where it
//! started.

use vstd::prelude::*;

verus! {

use crate::angle::{angle_norm, cos_fx, cos_spec, is_angle, norm_angle, sin_fx, sin_spec};
use crate::fixed::{div_fx, lemma_quot_bound, quot};
use crate::vec3::{vec3_bounded, Vec3Fx, Vec3V, POS_LIMIT};

/// The point light: starting position, orbit phase, and color.
#[derive(Debug, Clone, Copy, PartialEq, Eq, Structural)]
pub struct LightUniform {
    /// Position at phase zero, in milliunits.
    pub base: Vec3Fx,
    /// Accumulated orbit angle about the vertical axis, deci-degrees in
    /// `[0, TURN)`.
    pub phase: i64,
    /// Color, scaled by `SCALE`.
    pub color: Vec3Fx,
}

/// The mathematical value of a light.
pub ghost struct LightV {
    pub base: Vec3V,
    pub phase: int,
    pub color: Vec3V,
}

impl View for LightUniform {
    type V = LightV;

    open spec fn view(&self) -> LightV {
        LightV { base: self.base@, phase: self.phase as int, color: self.color@ }
    }
}

/// Well-formedness: normalized phase and a bounded starting position.
pub open spec fn light_wf(l: LightV) -> bool {
    &&& is_angle(l.phase)
    &&& vec3_bounded(l.base, POS_LIMIT as int)
}

/// The light after one `advance` by `step`: only the phase moves.
pub open spec fn advanced_spec(l: LightV, step: int) -> LightV {
    LightV { base: l.base, phase: angle_norm(l.phase + step), color: l.color }
}

/// The light after `n` advances by `step`.
pub open spec fn advanced_n_spec(l: LightV, step: int, n: nat) -> LightV
    decreases n,
{
    if n == 0 {
        l
    } else {
        advanced_spec(advanced_n_spec(l, step, (n - 1) as nat), step)
    }
}

/// The position the light presents: its starting position rotated about the
/// vertical axis by the accumulated phase.
pub open spec fn light_position_spec(l: LightV) -> Vec3V {
    Vec3V {
        x: quot(l.base.x * cos_spec(l.phase) + l.base.z * sin_spec(l.phase), 1000),
        y: l.base.y,
        z: quot(l.base.z * cos_spec(l.phase) - l.base.x * sin_spec(l.phase), 1000),
    }
}

/// The squared distance of the light from its rotation axis.
pub open spec fn axis_dist_sq(l: LightV) -> int {
    l.base.x * l.base.x + l.base.z * l.base.z
}

impl LightUniform {
    /// A light at `position` with `color`, yet to orbit.
    pub fn new(position: Vec3Fx, color: Vec3Fx) -> (r: LightUniform)
        requires
            vec3_bounded(position@, POS_LIMIT as int),
        ensures
            r@ == (LightV { base: position@, phase: 0, color: color@ }),
            light_wf(r@),
    {
        LightUniform { base: position, phase: 0, color }
    }

    /// Rotate the light about the vertical axis by `step` deci-degrees.
    pub fn advance(&mut self, step: i64)
        requires
            light_wf(old(self)@),
            -1_000_000_000 <= step <= 1_000_000_000,
        ensures
            final(self)@ == advanced_spec(old(self)@, step as int),
            light_wf(final(self)@),
    {
        self.phase = norm_angle(self.phase + step);
    }

    /// The current position of the light, in milliunits.
    pub fn position(&self) -> (r: Vec3Fx)
        requires
            light_wf(self@),
        ensures
            r@ == light_position_spec(self@),
            vec3_bounded(r@, 200_000_000),
    {
        let c = cos_fx(self.phase);
        let s = sin_fx(self.phase);
        proof {
            assert(-100_000_000_000 <= self@.base.x * c as int <= 100_000_000_000
                && -100_000_000_000 <= self@.base.z * c as int <= 100_000_000_000
                && -100_000_000_000 <= self@.base.x * s as int <= 100_000_000_000
                && -100_000_000_000 <= self@.base.z * s as int <= 100_000_000_000)
                by (nonlinear_arith)
                requires
                    vec3_bounded(self@.base, 100_000_000),
                    -1000 <= c <= 1000,
                    -1000 <= s <= 1000,
            ;
            lemma_quot_bound(
                self@.base.x * c as int + self@.base.z * s as int,
                1000,
                200_000_000,
            );
            lemma_quot_bound(
                self@.base.z * c as int - self@.base.x * s as int,
                1000,
                200_000_000,
            );
        }
        Vec3Fx {
            x: div_fx(self.base.x * c + self.base.z * s, 1000),
            y: self.base.y,
            z: div_fx(self.base.z * c - self.base.x * s, 1000),
        }
    }
}

/// Law: the distance from the rotation axis is invariant under `advance`,
/// for any angle step.
pub proof fn lemma_advance_keeps_axis_distance(l: LightV, step: int)
    ensures
        axis_dist_sq(advanced_spec(l, step)) == axis_dist_sq(l),
{
}

/// After `n` advances by `step`, the phase is the normalized accumulated
/// angle and nothing else has moved.
pub proof fn lemma_orbit_accumulates(l: LightV, step: int, n: nat)
    requires
        is_angle(l.phase),
    ensures
        advanced_n_spec(l, step, n).base == l.base,
        advanced_n_spec(l, step, n).color == l.color,
        advanced_n_spec(l, step, n).phase == angle_norm(l.phase + n * step),
    decreases n,
{
    if n == 0 {
        vstd::arithmetic::div_mod::lemma_small_mod(l.phase as nat, 3600);
        assert(n * step == 0) by (nonlinear_arith)
            requires
                n == 0,
        ;
    } else {
        lemma_orbit_accumulates(l, step, (n - 1) as nat);
        let prev = advanced_n_spec(l, step, (n - 1) as nat);
        let a = l.phase + (n - 1) * step;
        vstd::arithmetic::div_mod::lemma_fundamental_div_mod(a, 3600);
        vstd::arithmetic::div_mod::lemma_mod_multiples_vanish(a / 3600, a % 3600 + step, 3600);
        assert(a + step == l.phase + n * step) by (nonlinear_arith)
            requires
                a == l.phase + (n - 1) * step,
                n >= 1,
        ;
    }
}

/// Law: a whole number of turns brings the light back exactly. If `n` steps
/// of `step` deci-degrees accumulate to a multiple of a full turn, the state
/// after `n` advances equals the starting state, and so does the derived
/// position.
pub proof fn lemma_orbit_returns(l: LightV, step: int, n: nat)
    requires
        is_angle(l.phase),
        (n * step) % 3600 == 0,
    ensures
        advanced_n_spec(l, step, n) == l,
        light_position_spec(advanced_n_spec(l, step, n)) == light_position_spec(l),
    decreases n,
{
    lemma_orbit_accumulates(l, step, n);
    let t = n * step;
    vstd::arithmetic::div_mod::lemma_fundamental_div_mod(t, 3600);
    vstd::arithmetic::div_mod::lemma_mod_multiples_vanish(t / 3600, l.phase, 3600);
    vstd::arithmetic::div_mod::lemma_small_mod(l.phase as nat, 3600);
}

} // verus!
