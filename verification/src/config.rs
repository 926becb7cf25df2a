//! The feeder's settings.

use vstd::prelude::*;

verus! {

/// Everything the feeder is configured with.
#[derive(Clone, Debug, PartialEq, Eq)]
pub struct Config {
    pub title: String,
    pub listen_port: String,
    pub images: Images,
    pub rfid: Rfid,
    pub distance: Distance,
}

/// How many pictures to keep, and their size.
#[derive(Clone, Copy, Debug, PartialEq, Eq, Structural)]
pub struct Images {
    /// How many pictures are kept.
    pub count: usize,
    /// The width of a picture in pixels.
    pub width: u16,
    /// The height of a picture in pixels.
    pub height: u16,
}

/// The tags that open the feeder.
#[derive(Clone, Debug, PartialEq, Eq)]
pub struct Rfid {
    pub valid_ids: Vec<String>,
}

/// When something counts as near, and how the distance is sampled.
#[derive(Clone, Copy, Debug, PartialEq, Eq, Structural)]
pub struct Distance {
    /// A reading of at least this much is inside the threshold.
    pub enter_threshold: u16,
    /// A reading below this is outside again.
    pub exit_threshold: u16,
    /// The pin on which the converter says that a reading is ready.
    pub alert_pin: u8,
    /// Milliseconds between two readings.
    pub interval: u64,
}

impl Images {
    /// Settings for `count` pictures of `width` by `height` pixels.
    pub fn new(count: usize, width: u16, height: u16) -> (images: Images)
        ensures
            images == (Images { count, width, height }),
    {
        Images { count, width, height }
    }
}

} // verus!
