//! The feeder's state, the events that change it and the actions that
//! follow.

use vstd::prelude::*;

verus! {

/// The feeder keeps this many pictures; a new one pushes the oldest out.
pub const MAX_PICTURES: usize = 80;

/// The state of the application.
#[derive(Debug, PartialEq, Eq)]
pub struct State {
    pub click_count: u32,
    pub distance: u16,
    pub in_threshold: bool,
    pub last_tag_read: Option<u32>,
    pub loop_count: u32,
    pub has_camera: bool,
    pub taking_picture: bool,
    pub pictures: Vec<Vec<u8>>,
}

/// Events that happen from the outside world. These are items that would
/// cause the state to be updated.
#[derive(Debug, PartialEq, Eq)]
pub enum Event {
    /// Increment the click counter.
    IncClick,
    /// Increment the loop counter.
    IncLoop,
    /// The last tag to be read.
    ReadTag(u32),
    /// There is a camera, or there is none.
    HasCamera(bool),
    /// Add an image to the list of images.
    AddImage(Vec<u8>),
    /// External request to take an image with the camera.
    TakeImageRequest,
    /// Request that an image be deleted from the list.
    DeleteImage(usize),
    /// Something came inside the configured distance.
    EnterDistanceThreshold(u16),
    /// Notification of the distance.
    Distance(u16),
    /// Something left the configured distance.
    ExitDistanceThreshold(u16),
    /// Everything is to shut down.
    Shutdown,
}

/// Actions are a response to the state being updated after an event. They
/// tell other parts of the application what to do.
#[derive(Clone, Copy, Debug, PartialEq, Eq, Structural)]
pub enum Action {
    /// Default action when the application is starting up.
    Startup,
    /// Capture an image with the camera.
    TakePicture,
    /// Shut down all tasks.
    Shutdown,
}

/// The pictures after `image` was added: the oldest leaves first if the
/// list is full.
pub open spec fn with_picture(pictures: Seq<Vec<u8>>, image: Vec<u8>) -> Seq<Vec<u8>> {
    if pictures.len() >= MAX_PICTURES {
        pictures.drop_first().push(image)
    } else {
        pictures.push(image)
    }
}

/// The pictures after the one at `id` was deleted, if there is one.
pub open spec fn without_picture(pictures: Seq<Vec<u8>>, id: usize) -> Seq<Vec<u8>> {
    if id < pictures.len() {
        pictures.remove(id as int)
    } else {
        pictures
    }
}

impl State {
    /// Whether a picture can be asked for now: there is a camera, and it is
    /// not already taking one.
    pub open spec fn camera_free(self) -> bool {
        self.has_camera && !self.taking_picture
    }

    /// Whether `event` asks for a picture if the camera is free.
    pub open spec fn triggers_picture(event: Event) -> bool {
        event is TakeImageRequest || event is EnterDistanceThreshold
            || event is ExitDistanceThreshold
    }

    /// The state at start: nothing counted, nothing read, no camera, no
    /// pictures.
    pub fn new() -> (state: State)
        ensures
            state.click_count == 0,
            state.distance == 0,
            !state.in_threshold,
            state.last_tag_read is None,
            state.loop_count == 0,
            !state.has_camera,
            !state.taking_picture,
            state.pictures@ == Seq::<Vec<u8>>::empty(),
    {
        State {
            click_count: 0,
            distance: 0,
            in_threshold: false,
            last_tag_read: None,
            loop_count: 0,
            has_camera: false,
            taking_picture: false,
            pictures: Vec::new(),
        }
    }

    /// The tag that was read last.
    pub fn last_tag_read(&self) -> (tag: Option<u32>)
        ensures
            tag == self.last_tag_read,
    {
        self.last_tag_read
    }

    /// Whether `event` can be taken in: a counter that is at its largest
    /// value cannot count one more.
    pub fn accepts(&self, event: &Event) -> (ok: bool)
        ensures
            ok == self.can_take(*event),
    {
        match event {
            Event::IncClick => self.click_count < u32::MAX,
            Event::IncLoop => self.loop_count < u32::MAX,
            _ => true,
        }
    }

    /// Whether `event` can be taken in.
    pub open spec fn can_take(self, event: Event) -> bool {
        &&& event is IncClick ==> self.click_count < u32::MAX
        &&& event is IncLoop ==> self.loop_count < u32::MAX
    }
}

/// Takes `event` into `state` and says what the rest of the application is
/// to do.
///
/// Each event changes only what it is about. A picture is asked for, and the
/// camera is marked busy, when a request or a crossing of the distance
/// threshold finds the camera free; the camera is free again once a picture
/// has arrived.
pub fn reducer(event: Event, state: &mut State) -> (action: Option<Action>)
    requires
        old(state).can_take(event),
    ensures
        final(state).click_count == old(state).click_count + (if event is IncClick {
            1int
        } else {
            0int
        }),
        final(state).loop_count == old(state).loop_count + (if event is IncLoop {
            1int
        } else {
            0int
        }),
        final(state).last_tag_read == (match event {
            Event::ReadTag(tag) => Some(tag),
            _ => old(state).last_tag_read,
        }),
        final(state).has_camera == (match event {
            Event::HasCamera(camera) => camera,
            _ => old(state).has_camera,
        }),
        final(state).distance == (match event {
            Event::EnterDistanceThreshold(d) | Event::Distance(d) | Event::ExitDistanceThreshold(
                d,
            ) => d,
            _ => old(state).distance,
        }),
        final(state).in_threshold == (match event {
            Event::EnterDistanceThreshold(_) => true,
            Event::ExitDistanceThreshold(_) => false,
            _ => old(state).in_threshold,
        }),
        final(state).taking_picture == (match event {
            Event::AddImage(_) => false,
            _ => old(state).taking_picture || (State::triggers_picture(event) && old(state).has_camera),
        }),
        final(state).pictures@ == (match event {
            Event::AddImage(image) => with_picture(old(state).pictures@, image),
            Event::DeleteImage(id) => without_picture(old(state).pictures@, id),
            _ => old(state).pictures@,
        }),
        action == (if event is Shutdown {
            Some(Action::Shutdown)
        } else if State::triggers_picture(event) && old(state).camera_free() {
            Some(Action::TakePicture)
        } else {
            None
        }),
{
    match event {
        Event::IncLoop => {
            state.loop_count = state.loop_count + 1;
            None
        },
        Event::IncClick => {
            state.click_count = state.click_count + 1;
            None
        },
        Event::ReadTag(tag) => {
            state.last_tag_read = Some(tag);
            None
        },
        Event::HasCamera(camera) => {
            state.has_camera = camera;
            None
        },
        Event::TakeImageRequest => request_picture(state),
        Event::AddImage(image) => {
            let picture_count = state.pictures.len();
            if picture_count >= MAX_PICTURES {
                let _ = state.pictures.remove(0);
            }
            state.pictures.push(image);
            state.taking_picture = false;
            None
        },
        Event::DeleteImage(id) => {
            if state.pictures.len() > id {
                let _ = state.pictures.remove(id);
            }
            None
        },
        Event::EnterDistanceThreshold(distance) => {
            state.distance = distance;
            state.in_threshold = true;
            request_picture(state)
        },
        Event::Distance(distance) => {
            state.distance = distance;
            None
        },
        Event::ExitDistanceThreshold(distance) => {
            state.distance = distance;
            state.in_threshold = false;
            request_picture(state)
        },
        Event::Shutdown => Some(Action::Shutdown),
    }
}

/// Asks for a picture if the camera is free, and marks it busy.
fn request_picture(state: &mut State) -> (action: Option<Action>)
    ensures
        final(state).taking_picture == (old(state).taking_picture || old(state).has_camera),
        action == (if old(state).camera_free() {
            Some(Action::TakePicture)
        } else {
            None
        }),
        final(state).click_count == old(state).click_count,
        final(state).loop_count == old(state).loop_count,
        final(state).last_tag_read == old(state).last_tag_read,
        final(state).has_camera == old(state).has_camera,
        final(state).distance == old(state).distance,
        final(state).in_threshold == old(state).in_threshold,
        final(state).pictures == old(state).pictures,
{
    if state.has_camera && !state.taking_picture {
        state.taking_picture = true;
        Some(Action::TakePicture)
    } else {
        None
    }
}

} // verus!
