//! What the camera task does with what it is told.

use vstd::prelude::*;
use crate::state::{Action, Event};

verus! {

/// What the camera task does next.
#[derive(Clone, Copy, Debug, PartialEq, Eq, Structural)]
pub enum Step {
    /// Take a picture.
    Capture,
    /// End the task.
    Stop,
    /// Go on waiting.
    Wait,
}

/// What to report once the cameras were counted: that there is a camera, if
/// there is at least one.
pub fn cameras_found(cameras: usize) -> (event: Option<Event>)
    ensures
        event == (if cameras >= 1 {
            Some(Event::HasCamera(true))
        } else {
            None
        }),
{
    if cameras < 1 {
        None
    } else {
        Some(Event::HasCamera(true))
    }
}

/// What an action means to the camera task: a request for a picture is
/// carried out, a shutdown ends the task, and nothing else concerns it.
pub fn picture_task(action: Option<Action>) -> (step: Step)
    ensures
        step == (match action {
            Some(Action::TakePicture) => Step::Capture,
            Some(Action::Shutdown) => Step::Stop,
            _ => Step::Wait,
        }),
{
    match action {
        Some(Action::TakePicture) => Step::Capture,
        Some(Action::Shutdown) => Step::Stop,
        _ => Step::Wait,
    }
}

/// What to report after a capture: the picture, if there is one.
pub fn picture_taken(picture: Option<Vec<u8>>) -> (event: Option<Event>)
    ensures
        event == (match picture {
            Some(image) => Some(Event::AddImage(image)),
            None => None,
        }),
{
    match picture {
        Some(image) => Some(Event::AddImage(image)),
        None => None,
    }
}

} // verus!
