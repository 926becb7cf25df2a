//! Decision logic of a cat feeder: the PCA9685 motor driver, the stepper and
//! DC motor control built on it, and the feeder's own state handling.

pub mod bus;
pub mod camera;
pub mod config;
pub mod dc_motor;
pub mod distance;
pub mod error;
pub mod http;
pub mod pca9685_pwc;
pub mod rfid_reader;
pub mod state;
pub mod stepper;
