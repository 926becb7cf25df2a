use cat_feeder::camera::{cameras_found, picture_taken, picture_task, Step};
use cat_feeder::config::{Config, Distance, Images, Rfid};
use cat_feeder::distance::evaluate_value;
use cat_feeder::state::{reducer, Action, Event, State, MAX_PICTURES};

fn with_camera() -> State {
    let mut state = State::new();
    assert_eq!(reducer(Event::HasCamera(true), &mut state), None);
    state
}

#[test]
fn new_state_is_empty() {
    let state = State::new();
    assert_eq!(state.click_count, 0);
    assert_eq!(state.distance, 0);
    assert!(!state.in_threshold);
    assert_eq!(state.last_tag_read(), None);
    assert_eq!(state.loop_count, 0);
    assert!(!state.has_camera);
    assert!(!state.taking_picture);
    assert!(state.pictures.is_empty());
}

#[test]
fn counters_count() {
    let mut state = State::new();
    assert_eq!(reducer(Event::IncClick, &mut state), None);
    assert_eq!(reducer(Event::IncClick, &mut state), None);
    assert_eq!(reducer(Event::IncLoop, &mut state), None);
    assert_eq!(state.click_count, 2);
    assert_eq!(state.loop_count, 1);
    let mut expected = State::new();
    expected.click_count = 2;
    expected.loop_count = 1;
    assert_eq!(state, expected);
}

#[test]
fn a_full_counter_takes_no_more() {
    let mut state = State::new();
    assert!(state.accepts(&Event::IncClick));
    assert!(state.accepts(&Event::IncLoop));
    state.click_count = u32::MAX;
    assert!(!state.accepts(&Event::IncClick));
    assert!(state.accepts(&Event::IncLoop));
    state.loop_count = u32::MAX;
    assert!(!state.accepts(&Event::IncLoop));
    assert!(state.accepts(&Event::Shutdown));
    assert!(state.accepts(&Event::AddImage(vec![1])));
    state.click_count = u32::MAX - 1;
    assert_eq!(reducer(Event::IncClick, &mut state), None);
    assert_eq!(state.click_count, u32::MAX);
}

#[test]
fn read_tag_is_remembered() {
    let mut state = State::new();
    assert_eq!(reducer(Event::ReadTag(1122867), &mut state), None);
    assert_eq!(state.last_tag_read(), Some(1122867));
    assert_eq!(reducer(Event::ReadTag(7), &mut state), None);
    assert_eq!(state.last_tag_read(), Some(7));
}

#[test]
fn take_image_request_needs_a_free_camera() {
    let mut state = State::new();
    assert_eq!(reducer(Event::TakeImageRequest, &mut state), None);
    assert!(!state.taking_picture);
    let mut state = with_camera();
    assert_eq!(reducer(Event::TakeImageRequest, &mut state), Some(Action::TakePicture));
    assert!(state.taking_picture);
    assert_eq!(reducer(Event::TakeImageRequest, &mut state), None);
    assert!(state.taking_picture);
    assert_eq!(reducer(Event::AddImage(vec![1, 2, 3]), &mut state), None);
    assert!(!state.taking_picture);
    assert_eq!(state.pictures, vec![vec![1, 2, 3]]);
    assert_eq!(reducer(Event::TakeImageRequest, &mut state), Some(Action::TakePicture));
}

#[test]
fn the_oldest_picture_makes_room() {
    let mut state = State::new();
    assert_eq!(MAX_PICTURES, 80);
    for i in 0..80u8 {
        assert_eq!(reducer(Event::AddImage(vec![i]), &mut state), None);
    }
    assert_eq!(state.pictures.len(), 80);
    assert_eq!(state.pictures[0], vec![0]);
    assert_eq!(reducer(Event::AddImage(vec![80]), &mut state), None);
    assert_eq!(state.pictures.len(), 80);
    assert_eq!(state.pictures[0], vec![1]);
    assert_eq!(state.pictures[79], vec![80]);
}

#[test]
fn delete_image_removes_the_one_named() {
    let mut state = State::new();
    for i in 0..3u8 {
        let _ = reducer(Event::AddImage(vec![i]), &mut state);
    }
    assert_eq!(reducer(Event::DeleteImage(1), &mut state), None);
    assert_eq!(state.pictures, vec![vec![0], vec![2]]);
    assert_eq!(reducer(Event::DeleteImage(2), &mut state), None);
    assert_eq!(state.pictures, vec![vec![0], vec![2]]);
    assert_eq!(reducer(Event::DeleteImage(0), &mut state), None);
    assert_eq!(reducer(Event::DeleteImage(0), &mut state), None);
    assert_eq!(reducer(Event::DeleteImage(0), &mut state), None);
    assert!(state.pictures.is_empty());
}

#[test]
fn crossing_the_threshold_takes_a_picture() {
    let mut state = with_camera();
    assert_eq!(reducer(Event::EnterDistanceThreshold(900), &mut state), Some(Action::TakePicture));
    assert_eq!(state.distance, 900);
    assert!(state.in_threshold);
    assert!(state.taking_picture);
    assert_eq!(reducer(Event::Distance(950), &mut state), None);
    assert_eq!(state.distance, 950);
    assert!(state.in_threshold);
    assert_eq!(reducer(Event::ExitDistanceThreshold(100), &mut state), None);
    assert_eq!(state.distance, 100);
    assert!(!state.in_threshold);
    let _ = reducer(Event::AddImage(vec![9]), &mut state);
    assert_eq!(reducer(Event::ExitDistanceThreshold(90), &mut state), Some(Action::TakePicture));
}

#[test]
fn crossing_the_threshold_without_a_camera_only_records() {
    let mut state = State::new();
    assert_eq!(reducer(Event::EnterDistanceThreshold(900), &mut state), None);
    assert!(state.in_threshold);
    assert!(!state.taking_picture);
    assert_eq!(reducer(Event::ExitDistanceThreshold(3), &mut state), None);
    assert!(!state.in_threshold);
    assert_eq!(state.distance, 3);
}

#[test]
fn shutdown_is_passed_on() {
    let mut state = with_camera();
    assert_eq!(reducer(Event::Shutdown, &mut state), Some(Action::Shutdown));
    assert_eq!(state, with_camera());
}

#[test]
fn has_camera_can_be_taken_back() {
    let mut state = with_camera();
    assert!(state.has_camera);
    assert_eq!(reducer(Event::HasCamera(false), &mut state), None);
    assert!(!state.has_camera);
    assert_eq!(reducer(Event::TakeImageRequest, &mut state), None);
}

fn thresholds() -> Distance {
    Distance { enter_threshold: 800, exit_threshold: 600, alert_pin: 21, interval: 250 }
}

#[test]
fn a_high_reading_outside_is_an_entry() {
    let mut inside = false;
    assert_eq!(evaluate_value(800, &thresholds(), &mut inside), Event::EnterDistanceThreshold(800));
    assert!(inside);
    assert_eq!(evaluate_value(900, &thresholds(), &mut inside), Event::Distance(900));
    assert!(inside);
}

#[test]
fn a_low_reading_inside_is_an_exit() {
    let mut inside = true;
    assert_eq!(evaluate_value(600, &thresholds(), &mut inside), Event::Distance(600));
    assert!(inside);
    assert_eq!(evaluate_value(599, &thresholds(), &mut inside), Event::ExitDistanceThreshold(599));
    assert!(!inside);
    assert_eq!(evaluate_value(10, &thresholds(), &mut inside), Event::Distance(10));
    assert!(!inside);
}

#[test]
fn readings_between_the_thresholds_change_nothing() {
    let mut inside = false;
    assert_eq!(evaluate_value(799, &thresholds(), &mut inside), Event::Distance(799));
    assert!(!inside);
    let mut inside = true;
    assert_eq!(evaluate_value(700, &thresholds(), &mut inside), Event::Distance(700));
    assert!(inside);
}

#[test]
fn config_holds_its_parts() {
    let images = Images::new(80, 640, 480);
    assert_eq!(images, Images { count: 80, width: 640, height: 480 });
    let config = Config {
        title: "Cat feeder".to_string(),
        listen_port: "0.0.0.0:1337".to_string(),
        images,
        rfid: Rfid { valid_ids: vec!["0A00112233".to_string()] },
        distance: thresholds(),
    };
    assert_eq!(config.images.count, 80);
    assert_eq!(config.rfid.valid_ids.len(), 1);
    assert_eq!(config.distance.interval, 250);
    assert_eq!(config.clone(), config);
}

#[test]
fn a_camera_is_reported_where_there_is_one() {
    assert_eq!(cameras_found(0), None);
    assert_eq!(cameras_found(1), Some(Event::HasCamera(true)));
    assert_eq!(cameras_found(3), Some(Event::HasCamera(true)));
}

#[test]
fn the_camera_task_follows_the_actions() {
    assert_eq!(picture_task(Some(Action::TakePicture)), Step::Capture);
    assert_eq!(picture_task(Some(Action::Shutdown)), Step::Stop);
    assert_eq!(picture_task(Some(Action::Startup)), Step::Wait);
    assert_eq!(picture_task(None), Step::Wait);
}

#[test]
fn a_picture_that_was_taken_is_added() {
    assert_eq!(picture_taken(Some(vec![1, 2])), Some(Event::AddImage(vec![1, 2])));
    assert_eq!(picture_taken(None), None);
    let mut state = State::new();
    let _ = reducer(Event::HasCamera(true), &mut state);
    assert_eq!(reducer(Event::TakeImageRequest, &mut state), Some(Action::TakePicture));
    assert_eq!(reducer(picture_taken(Some(vec![7])).unwrap(), &mut state), None);
    assert!(!state.taking_picture);
    assert_eq!(state.pictures, vec![vec![7]]);
}
