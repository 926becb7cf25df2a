//! A stepper motor on four channels of a PCA9685.
//!
//! The motor's position is counted in micro-steps. A table, the curve, says
//! how much current a coil gets at each micro-step between two full steps.

use vstd::prelude::*;
use crate::pca9685_pwc::{duty_cycle_plan, Progress, Value, PCA9685};

verus! {

/// The channels of the first stepper's four coils, in the order in which
/// the coils take over from one another.
pub const STEPPER1_CHANNELS: [u8; 4] = [9, 11, 10, 12];

/// The way to turn.
#[derive(Copy, Clone, Debug, PartialEq, Eq, Structural)]
pub enum Direction {
    Forward,
    Backward,
}

/// How the coils are driven.
#[derive(Copy, Clone, Debug, PartialEq, Eq, Structural)]
pub enum Style {
    /// Full steps that rest on one coil.
    Single,
    /// Full steps that rest between two coils, both fully on.
    Double,
    /// Half steps, resting on one coil and between two in turn.
    Interleave,
    /// One micro-step at a time, the current following the curve.
    Microstep,
}

/// Whether `curve` is a quarter ramp for `micro_steps` micro-steps: one
/// entry for each micro-step and one more, from 0 up to 0xffff give or take
/// one, and never falling.
pub open spec fn is_quarter_ramp(curve: Seq<u16>, micro_steps: u16) -> bool {
    &&& micro_steps >= 1
    &&& curve.len() == micro_steps + 1
    &&& curve[0] == 0
    &&& curve[micro_steps as int] >= 0xfffe
    &&& forall|i: int| 0 <= i < micro_steps ==> curve[i] <= #[trigger] curve[i + 1]
}

/// `position` moved by `size` micro-steps in `direction`.
pub open spec fn moved(position: int, direction: Direction, size: int) -> int {
    if direction == Direction::Forward {
        position + size
    } else {
        position - size
    }
}

/// Where one step in `direction` takes a motor that stands at `position`.
///
/// A micro-step moves by one. Every other style works in half steps of
/// `micro_steps / 2`: from a position between two half steps the motor only
/// moves on to the nearest half step in `direction`; from a half step,
/// `Interleave` moves by a half step, and `Single` and `Double` by a half
/// step if that takes them to their kind of rest (`Single` from an odd half
/// step, `Double` from an even one), else by a full step.
pub open spec fn step_target(
    position: int,
    micro_steps: int,
    direction: Direction,
    style: Style,
) -> int {
    let half = micro_steps / 2;
    if style == Style::Microstep {
        moved(position, direction, 1)
    } else if position % half != 0 {
        if direction == Direction::Forward {
            position + (half - position % half)
        } else {
            position - position % half
        }
    } else if style == Style::Interleave {
        moved(position, direction, half)
    } else if (style == Style::Single && (position / half) % 2 == 1) || (style == Style::Double && (
    position / half) % 2 == 0) {
        moved(position, direction, half)
    } else {
        moved(position, direction, micro_steps)
    }
}

/// The coil that the motor is leaving at `position`.
pub open spec fn trailing_coil(position: int, micro_steps: int) -> int {
    (position / micro_steps) % 4
}

/// The coil that the motor is moving towards at `position`.
pub open spec fn leading_coil(position: int, micro_steps: int) -> int {
    (trailing_coil(position, micro_steps) + 1) % 4
}

/// Whether the motor rests between two coils: it is not micro-stepping, and
/// the curve gives both coils the same current, above zero.
pub open spec fn is_detent(
    curve: Seq<u16>,
    micro_steps: int,
    position: int,
    microstepping: bool,
) -> bool {
    let offset = position % micro_steps;
    !microstepping && curve[offset] == curve[micro_steps - offset] && curve[offset] > 0
}

/// The duty cycle of coil `coil` for a motor at `position`: the leading
/// coil gets the curve's value at the offset into the full step, the
/// trailing coil the value as far from the curve's end, both get `0xffff` at
/// a detent, and the other two coils get nothing.
pub open spec fn coil_duty(
    curve: Seq<u16>,
    micro_steps: int,
    position: int,
    microstepping: bool,
    coil: int,
) -> u16 {
    let offset = position % micro_steps;
    if coil == leading_coil(position, micro_steps) {
        if is_detent(curve, micro_steps, position, microstepping) {
            0xffffu16
        } else {
            curve[offset]
        }
    } else if coil == trailing_coil(position, micro_steps) {
        if is_detent(curve, micro_steps, position, microstepping) {
            0xffffu16
        } else {
            curve[micro_steps - offset]
        }
    } else {
        0u16
    }
}

/// The plan that sets the four coils to the duty cycles `duties`, coil 0
/// first, and then returns `value`.
pub open spec fn coil_plan(duties: [u16; 4], value: Value) -> Progress {
    duty_cycle_plan(STEPPER1_CHANNELS@[0], duties@[0]).followed_by(
        duty_cycle_plan(STEPPER1_CHANNELS@[1], duties@[1]).followed_by(
            duty_cycle_plan(STEPPER1_CHANNELS@[2], duties@[2]).followed_by(
                duty_cycle_plan(STEPPER1_CHANNELS@[3], duties@[3]).followed_by(
                    Progress::Finished(Ok(value)),
                ),
            ),
        ),
    )
}

/// The duty cycles of the four coils for a motor at `position`.
pub open spec fn coil_duties(
    curve: Seq<u16>,
    micro_steps: int,
    position: int,
    microstepping: bool,
) -> [u16; 4] {
    [
        coil_duty(curve, micro_steps, position, microstepping, 0),
        coil_duty(curve, micro_steps, position, microstepping, 1),
        coil_duty(curve, micro_steps, position, microstepping, 2),
        coil_duty(curve, micro_steps, position, microstepping, 3),
    ]
}

/// A quarter ramp never falls: an earlier entry is no larger than a later
/// one.
pub proof fn lemma_ramp_is_monotonic(curve: Seq<u16>, micro_steps: u16, i: int, j: int)
    requires
        is_quarter_ramp(curve, micro_steps),
        0 <= i <= j <= micro_steps,
    ensures
        curve[i] <= curve[j],
    decreases j - i,
{
    if i < j {
        lemma_ramp_is_monotonic(curve, micro_steps, i, j - 1);
        assert(curve[j - 1] <= curve[j - 1 + 1]);
    }
}

/// A step moves the motor the way it was asked to, by at least one
/// micro-step and at most a full step.
pub proof fn lemma_step_moves(position: int, micro_steps: int, direction: Direction, style: Style)
    requires
        micro_steps >= 1,
        style != Style::Microstep ==> micro_steps >= 2,
    ensures
        direction == Direction::Forward ==> 1 <= step_target(
            position,
            micro_steps,
            direction,
            style,
        ) - position <= micro_steps,
        direction == Direction::Backward ==> 1 <= position - step_target(
            position,
            micro_steps,
            direction,
            style,
        ) <= micro_steps,
{
    if style != Style::Microstep {
        let half = micro_steps / 2;
        vstd::arithmetic::div_mod::lemma_mod_bound(position, half);
    }
}

/// At every position two different coils lead and trail, and none of the
/// other two gets any current.
pub proof fn lemma_two_coils(
    curve: Seq<u16>,
    micro_steps: int,
    position: int,
    microstepping: bool,
    coil: int,
)
    requires
        micro_steps >= 1,
    ensures
        0 <= trailing_coil(position, micro_steps) < 4,
        0 <= leading_coil(position, micro_steps) < 4,
        leading_coil(position, micro_steps) != trailing_coil(position, micro_steps),
        coil != leading_coil(position, micro_steps) && coil != trailing_coil(position, micro_steps)
            ==> coil_duty(curve, micro_steps, position, microstepping, coil) == 0,
{
}

/// The remainder of `x` by `d`, never negative.
fn rem_floor(x: i64, d: i64) -> (r: i64)
    requires
        d > 0,
    ensures
        r == (x as int) % (d as int),
        0 <= r < d,
{
    proof {
        vstd::arithmetic::div_mod::lemma_mod_bound(x as int, d as int);
    }
    match x.checked_rem_euclid(d) {
        Some(r) => r,
        None => 0,
    }
}

/// The quotient of `x` by `d`, rounded down.
fn div_floor(x: i64, d: i64) -> (q: i64)
    requires
        d > 0,
    ensures
        q == (x as int) / (d as int),
{
    proof {
        vstd::arithmetic::div_mod::lemma_fundamental_div_mod(x as int, d as int);
        vstd::arithmetic::div_mod::lemma_mod_bound(x as int, d as int);
        let q = x as int / d as int;
        let r = x as int % d as int;
        assert(i64::MIN <= q <= i64::MAX) by (nonlinear_arith)
            requires
                d >= 1,
                x == d * q + r,
                0 <= r < d,
                i64::MIN <= x <= i64::MAX,
        ;
    }
    match x.checked_div_euclid(d) {
        Some(q) => q,
        None => 0,
    }
}

/// Checks that `curve` is a quarter ramp for `micro_steps` micro-steps.
pub fn check_quarter_ramp(curve: &Vec<u16>, micro_steps: u16) -> (ok: bool)
    ensures
        ok == is_quarter_ramp(curve@, micro_steps),
{
    if micro_steps == 0 || curve.len() != micro_steps as usize + 1 {
        return false;
    }
    if curve[0] != 0 || curve[micro_steps as usize] < 0xfffe {
        return false;
    }
    let mut i: usize = 0;
    while i < micro_steps as usize
        invariant
            i <= micro_steps,
            curve.len() == micro_steps + 1,
            forall|k: int| 0 <= k < i ==> curve@[k] <= #[trigger] curve@[k + 1],
        decreases micro_steps - i,
    {
        if curve[i] > curve[i + 1] {
            return false;
        }
        i += 1;
    }
    true
}

/// A stepper motor: its driver, its resolution, its curve and where it
/// stands.
#[derive(Debug, PartialEq, Eq)]
pub struct StepperMotor {
    pca: PCA9685,
    current_micro_step: i64,
    micro_steps: u16,
    curve: Vec<u16>,
}

impl StepperMotor {
    #[verifier::type_invariant]
    spec fn well_formed(self) -> bool {
        is_quarter_ramp(self.curve@, self.micro_steps)
    }

    /// The driver of the chip that the motor hangs on.
    pub closed spec fn driver(self) -> PCA9685 {
        self.pca
    }

    /// Where the motor stands, in micro-steps from where it started.
    pub closed spec fn position(self) -> int {
        self.current_micro_step as int
    }

    /// The number of micro-steps in a full step.
    pub closed spec fn resolution(self) -> u16 {
        self.micro_steps
    }

    /// The curve of coil currents.
    pub closed spec fn table(self) -> Seq<u16> {
        self.curve@
    }

    /// A motor at position 0 with `micro_steps` micro-steps to the full
    /// step, and the plan that energises its coils for that position. There
    /// is no motor, and no plan, unless `curve` is a quarter ramp for
    /// `micro_steps`.
    pub fn new(pca: PCA9685, micro_steps: u16, curve: Vec<u16>) -> (made: Option<
        (StepperMotor, Progress),
    >)
        ensures
            made is Some <==> is_quarter_ramp(curve@, micro_steps),
            made matches Some((motor, plan)) ==> {
                &&& motor.driver() == pca
                &&& motor.position() == 0
                &&& motor.resolution() == micro_steps
                &&& motor.table() == curve@
                &&& plan == coil_plan(
                    coil_duties(curve@, micro_steps as int, 0, false),
                    Value::Unit,
                )
            },
    {
        if !check_quarter_ramp(&curve, micro_steps) {
            return None;
        }
        let motor = StepperMotor { pca, current_micro_step: 0, micro_steps, curve };
        let plan = motor.update_coils(false, Value::Unit);
        Some((motor, plan))
    }

    /// The driver of the chip that the motor hangs on.
    pub fn pca(&self) -> (pca: &PCA9685)
        ensures
            *pca == self.driver(),
    {
        &self.pca
    }

    /// Where the motor stands, in micro-steps from where it started.
    pub fn current_micro_step(&self) -> (position: i64)
        ensures
            position == self.position(),
    {
        self.current_micro_step
    }

    /// The number of micro-steps in a full step.
    pub fn micro_steps(&self) -> (micro_steps: u16)
        ensures
            micro_steps == self.resolution(),
            micro_steps >= 1,
    {
        proof {
            use_type_invariant(self);
        }
        self.micro_steps
    }

    /// The curve of coil currents, which is a quarter ramp for the motor's
    /// resolution.
    pub fn curve(&self) -> (curve: &Vec<u16>)
        ensures
            curve@ == self.table(),
            is_quarter_ramp(curve@, self.resolution()),
    {
        proof {
            use_type_invariant(self);
        }
        &self.curve
    }

    /// Holds the motor: all four coils fully on. The rotor is locked, and
    /// the coils draw their full current.
    pub fn release(&self) -> (progress: Progress)
        ensures
            progress == coil_plan([0xffffu16, 0xffffu16, 0xffffu16, 0xffffu16], Value::Unit),
    {
        self.set_coils([0xffff, 0xffff, 0xffff, 0xffff], Value::Unit)
    }

    /// Lets the motor go: all four channels switched off, so that no coil
    /// draws current and the rotor turns freely.
    pub fn de_energize(&self) -> (progress: Progress)
        ensures
            progress == crate::pca9685_pwc::pwm_plan(STEPPER1_CHANNELS@[0], 0, 0).followed_by(
                crate::pca9685_pwc::pwm_plan(STEPPER1_CHANNELS@[1], 0, 0).followed_by(
                    crate::pca9685_pwc::pwm_plan(STEPPER1_CHANNELS@[2], 0, 0).followed_by(
                        crate::pca9685_pwc::pwm_plan(STEPPER1_CHANNELS@[3], 0, 0),
                    ),
                ),
            ),
    {
        let d = self.pca.set_pwm(STEPPER1_CHANNELS[3], 0, 0);
        let c = self.pca.set_pwm(STEPPER1_CHANNELS[2], 0, 0).chain(d);
        let b = self.pca.set_pwm(STEPPER1_CHANNELS[1], 0, 0).chain(c);
        self.pca.set_pwm(STEPPER1_CHANNELS[0], 0, 0).chain(b)
    }

    fn set_coils(&self, duties: [u16; 4], value: Value) -> (progress: Progress)
        ensures
            progress == coil_plan(duties, value),
    {
        let end = Progress::Finished(Ok(value));
        let d = self.pca.set_duty_cycle(STEPPER1_CHANNELS[3], duties[3]).chain(end);
        let c = self.pca.set_duty_cycle(STEPPER1_CHANNELS[2], duties[2]).chain(d);
        let b = self.pca.set_duty_cycle(STEPPER1_CHANNELS[1], duties[1]).chain(c);
        self.pca.set_duty_cycle(STEPPER1_CHANNELS[0], duties[0]).chain(b)
    }

    fn coil_duties(&self, microstepping: bool) -> (duties: [u16; 4])
        ensures
            duties == coil_duties(
                self.table(),
                self.resolution() as int,
                self.position(),
                microstepping,
            ),
    {
        proof {
            use_type_invariant(self);
        }
        let full: i64 = self.micro_steps as i64;
        let trailing: i64 = rem_floor(div_floor(self.current_micro_step, full), 4);
        let leading: i64 = rem_floor(trailing + 1, 4);
        let offset: i64 = rem_floor(self.current_micro_step, full);
        let mut lead: u16 = self.curve[offset as usize];
        let mut trail: u16 = self.curve[(full - offset) as usize];
        if !microstepping && lead == trail && lead > 0 {
            lead = 0xffff;
            trail = 0xffff;
        }
        [
            coil_value(0, leading, trailing, lead, trail),
            coil_value(1, leading, trailing, lead, trail),
            coil_value(2, leading, trailing, lead, trail),
            coil_value(3, leading, trailing, lead, trail),
        ]
    }

    fn update_coils(&self, microstepping: bool, value: Value) -> (progress: Progress)
        ensures
            progress == coil_plan(
                coil_duties(
                    self.table(),
                    self.resolution() as int,
                    self.position(),
                    microstepping,
                ),
                value,
            ),
    {
        let duties = self.coil_duties(microstepping);
        self.set_coils(duties, value)
    }

    /// Where one step would take the motor, as a number that cannot
    /// overflow.
    fn target(&self, direction: Direction, style: Style) -> (target: i128)
        requires
            style != Style::Microstep ==> self.resolution() >= 2,
        ensures
            target == step_target(self.position(), self.resolution() as int, direction, style),
    {
        let position: i64 = self.current_micro_step;
        let full: i64 = self.micro_steps as i64;
        let forward: bool = match direction {
            Direction::Forward => true,
            Direction::Backward => false,
        };
        let size: i64 = match style {
            Style::Microstep => 1,
            _ => {
                let half: i64 = full / 2;
                let beyond: i64 = rem_floor(position, half);
                let odd: bool = rem_floor(div_floor(position, half), 2) == 1;
                if beyond != 0 {
                    if forward {
                        half - beyond
                    } else {
                        beyond
                    }
                } else {
                    match style {
                        Style::Interleave => half,
                        Style::Single => if odd {
                            half
                        } else {
                            full
                        },
                        _ => if odd {
                            full
                        } else {
                            half
                        },
                    }
                }
            },
        };
        if forward {
            position as i128 + size as i128
        } else {
            position as i128 - size as i128
        }
    }

    /// Where one step in `direction` would take the motor, or `None` where
    /// no step can be taken: the style works in half steps and the motor has
    /// none (a resolution of 1), or the position would leave the range of the
    /// counter.
    pub fn next_position(&self, direction: Direction, style: Style) -> (next: Option<i64>)
        ensures
            next is Some <==> {
                &&& style != Style::Microstep ==> self.resolution() >= 2
                &&& i64::MIN <= step_target(
                    self.position(),
                    self.resolution() as int,
                    direction,
                    style,
                ) <= i64::MAX
            },
            next matches Some(p) ==> p == step_target(
                self.position(),
                self.resolution() as int,
                direction,
                style,
            ),
    {
        let halves: bool = match style {
            Style::Microstep => false,
            _ => true,
        };
        if halves && self.micro_steps < 2 {
            return None;
        }
        let target: i128 = self.target(direction, style);
        if target < i64::MIN as i128 || target > i64::MAX as i128 {
            None
        } else {
            Some(target as i64)
        }
    }

    /// Takes one step: moves the position to `step_target` and gives the
    /// plan that energises the coils for it. The plan returns the new
    /// position. [`StepperMotor::next_position`] tells whether the step can
    /// be taken.
    pub fn onestep(&mut self, direction: Direction, style: Style) -> (progress: Progress)
        requires
            style != Style::Microstep ==> old(self).resolution() >= 2,
            i64::MIN <= step_target(
                old(self).position(),
                old(self).resolution() as int,
                direction,
                style,
            ) <= i64::MAX,
        ensures
            final(self).position() == step_target(
                old(self).position(),
                old(self).resolution() as int,
                direction,
                style,
            ),
            final(self).resolution() == old(self).resolution(),
            final(self).table() == old(self).table(),
            final(self).driver() == old(self).driver(),
            progress == coil_plan(
                coil_duties(
                    final(self).table(),
                    final(self).resolution() as int,
                    final(self).position(),
                    style == Style::Microstep,
                ),
                Value::Position(final(self).position() as i64),
            ),
    {
        proof {
            use_type_invariant(&*self);
        }
        let microstepping: bool = match style {
            Style::Microstep => true,
            _ => false,
        };
        let target: i64 = self.target(direction, style) as i64;
        self.current_micro_step = target;
        self.update_coils(microstepping, Value::Position(target))
    }
}

fn coil_value(coil: i64, leading: i64, trailing: i64, lead: u16, trail: u16) -> (duty: u16)
    ensures
        duty == (if coil == leading {
            lead
        } else if coil == trailing {
            trail
        } else {
            0u16
        }),
{
    if coil == leading {
        lead
    } else if coil == trailing {
        trail
    } else {
        0
    }
}

} // verus!
