//! A DC motor on two channels of a PCA9685: one drives it forward, the other
//! in reverse.

use vstd::prelude::*;
use crate::error::Error;
use crate::pca9685_pwc::{duty_cycle_plan, pwm_plan, Progress, PCA9685};

verus! {

/// The forward and the reverse channel of the first motor terminal pair.
pub const MOTOR1: (u8, u8) = (9, 10);

/// The forward and the reverse channel of the second motor terminal pair.
pub const MOTOR2: (u8, u8) = (11, 12);

/// The forward and the reverse channel of the third motor terminal pair.
pub const MOTOR3: (u8, u8) = (3, 4);

/// The forward and the reverse channel of the fourth motor terminal pair.
pub const MOTOR4: (u8, u8) = (5, 6);

/// What a motor is asked to do.
#[derive(Copy, Clone, Debug, PartialEq, Eq, Structural)]
pub enum Throttle {
    /// Both channels switched off: the motor runs out.
    Coast,
    /// Both channels fully on: the motor is held.
    Brake,
    /// Forward with this duty cycle.
    Forward(u16),
    /// In reverse with this duty cycle.
    Reverse(u16),
}

/// The plan that puts `throttle` on the channel pair `motor`, the forward
/// channel first.
pub open spec fn throttle_plan(motor: (u8, u8), throttle: Throttle) -> Progress {
    match throttle {
        Throttle::Coast => pwm_plan(motor.0, 0, 0).followed_by(pwm_plan(motor.1, 0, 0)),
        Throttle::Brake => duty_cycle_plan(motor.0, 0xffff).followed_by(
            duty_cycle_plan(motor.1, 0xffff),
        ),
        Throttle::Forward(duty) => duty_cycle_plan(motor.0, duty).followed_by(
            duty_cycle_plan(motor.1, 0),
        ),
        Throttle::Reverse(duty) => duty_cycle_plan(motor.0, 0).followed_by(
            duty_cycle_plan(motor.1, duty),
        ),
    }
}

/// DC motors on one PCA9685.
#[derive(Debug, PartialEq, Eq)]
pub struct DCMotor {
    pub pca: PCA9685,
}

impl DCMotor {
    /// Create a new DC Motor.
    pub fn new(pca: PCA9685) -> (made: Result<DCMotor, Error>)
        ensures
            made == Ok::<DCMotor, Error>(DCMotor { pca }),
    {
        Ok(DCMotor { pca })
    }

    /// Puts `throttle` on the channel pair `motor`. A channel that the chip
    /// does not have ends the plan with `ChannelError` when its turn comes:
    /// the forward channel before anything is written, the reverse channel
    /// after the forward channel was written.
    pub fn set_throttle(&self, motor: (u8, u8), throttle: Throttle) -> (progress: Progress)
        ensures
            progress == throttle_plan(motor, throttle),
    {
        match throttle {
            Throttle::Coast => {
                let reverse = self.pca.set_pwm(motor.1, 0, 0);
                self.pca.set_pwm(motor.0, 0, 0).chain(reverse)
            },
            Throttle::Brake => self.set_cycles(motor, (0xffff, 0xffff)),
            Throttle::Forward(duty) => self.set_cycles(motor, (duty, 0)),
            Throttle::Reverse(duty) => self.set_cycles(motor, (0, duty)),
        }
    }

    fn set_cycles(&self, motor: (u8, u8), cycles: (u16, u16)) -> (progress: Progress)
        ensures
            progress == duty_cycle_plan(motor.0, cycles.0).followed_by(
                duty_cycle_plan(motor.1, cycles.1),
            ),
    {
        let reverse = self.pca.set_duty_cycle(motor.1, cycles.1);
        self.pca.set_duty_cycle(motor.0, cycles.0).chain(reverse)
    }
}

} // verus!
