//! The error of the motor controllers.

use vstd::prelude::*;
use vstd::std_specs::convert::FromSpecImpl;
use crate::pca9685_pwc;

verus! {

/// What can go wrong with a motor.
#[derive(Debug, PartialEq, Eq)]
pub enum Error {
    /// Errors that occur with the PCA chip.
    PCA9685Error(pca9685_pwc::Error),
}

impl From<pca9685_pwc::Error> for Error {
    fn from(err: pca9685_pwc::Error) -> (e: Error) {
        Error::PCA9685Error(err)
    }
}

impl FromSpecImpl<pca9685_pwc::Error> for Error {
    open spec fn obeys_from_spec() -> bool {
        true
    }

    open spec fn from_spec(err: pca9685_pwc::Error) -> Error {
        Error::PCA9685Error(err)
    }
}

} // verus!
