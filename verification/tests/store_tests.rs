use mousesniff::Database;
use mousesniff::MouseRawData;
use mousesniff::RawInputPlugin;
use mousesniff::store::InputEvent;

#[test]
fn fresh_store_is_empty() {
    let mut db = Database::with_start_time(1000);
    assert_eq!(db.get_log_start_time(), 1000);
    assert!(db.get_mouse_data().is_empty());
    assert!(!db.capture_active());
}

#[test]
fn clock_backed_store_starts_non_negative() {
    // The session clock never hands out a negative reading.
    let db = Database::new();
    assert!(db.get_log_start_time() >= 0);
}

#[test]
fn samples_are_stamped_against_session_start() {
    let mut db = Database::with_start_time(100);
    db.record_motion(1, 2, 150);
    db.record_motion(-3, 4, 260);
    let data = db.get_mouse_data();
    assert_eq!(data.len(), 2);
    assert_eq!(data[0], MouseRawData { t: 50, dx: 1, dy: 2 });
    assert_eq!(data[1], MouseRawData { t: 160, dx: -3, dy: 4 });
}

#[test]
fn drain_clears_the_store() {
    let mut db = Database::with_start_time(0);
    db.record_motion(9, 9, 5);
    assert_eq!(db.get_mouse_data().len(), 1);
    assert!(db.get_mouse_data().is_empty());
}

#[test]
fn pushed_samples_come_back_in_arrival_order() {
    let mut db = Database::with_start_time(0);
    for i in 0..5 {
        db.push_mouse_data(MouseRawData { t: i, dx: i as i32, dy: -(i as i32) });
    }
    let data = db.get_mouse_data();
    assert_eq!(data.len(), 5);
    for i in 0..5 {
        assert_eq!(data[i], MouseRawData { t: i as i64, dx: i as i32, dy: -(i as i32) });
    }
}

#[test]
fn restart_clears_samples_and_resets_clock() {
    // Draining immediately after a restart yields nothing, and the next
    // sample is stamped from the new start time, not the old one.
    let mut db = Database::with_start_time(1000);
    db.record_motion(1, 1, 1500);
    db.restart_at(5000);
    assert!(db.get_mouse_data().is_empty());
    assert_eq!(db.get_log_start_time(), 5000);
    db.record_motion(7, 8, 5100);
    let data = db.get_mouse_data();
    assert_eq!(data, vec![MouseRawData { t: 100, dx: 7, dy: 8 }]);
}

#[test]
fn clock_backed_restart_also_drains_empty() {
    let mut db = Database::new();
    db.record_motion_now(1, 2);
    db.restart();
    assert!(db.get_mouse_data().is_empty());
}

#[test]
fn start_capture_spawns_exactly_once() {
    let mut db = Database::with_start_time(0);
    assert!(db.start_capture());
    assert!(!db.start_capture());
    assert!(!db.start_capture());
    assert!(db.capture_active());
}

#[test]
fn restart_keeps_capture_running() {
    let mut db = Database::with_start_time(0);
    assert!(db.start_capture());
    db.restart_at(10);
    assert!(db.capture_active());
    assert!(!db.start_capture());
}

#[test]
fn recording_by_clock_stamps_non_negative_elapsed_time() {
    // Would fail if the clock wrapper handed back a fixed reading below
    // the session start or dropped the stamping altogether.
    let mut db = Database::with_start_time(0);
    assert!(db.record_motion_now(4, -4));
    let data = db.get_mouse_data();
    assert_eq!(data.len(), 1);
    assert!(data[0].t >= 0);
    assert_eq!((data[0].dx, data[0].dy), (4, -4));
}

#[test]
fn recording_rejects_a_session_started_after_the_clock() {
    // No clock reading is negative, so a store with a negative session
    // start must drop every event rather than stamp it wrongly.
    let mut db = Database::with_start_time(-1);
    assert!(!db.record_motion_now(1, 2));
    assert!(db.get_mouse_data().is_empty());
}

#[test]
fn plugin_drops_motion_on_a_negative_session_start() {
    let db = Database::with_start_time(-5);
    let mut plugin = RawInputPlugin::new(db);
    assert!(!plugin.on_event(&InputEvent::MouseMotion { dx: 1, dy: 1 }));
    let mut db = plugin.into_database();
    assert!(db.get_mouse_data().is_empty());
}

#[test]
fn plugin_records_mouse_motion_and_ignores_the_rest() {
    let db = Database::with_start_time(0);
    let mut plugin = RawInputPlugin::new(db);
    assert!(!plugin.on_event(&InputEvent::MouseMotion { dx: 11, dy: -12 }));
    assert!(!plugin.on_event(&InputEvent::Other));
    let mut db = plugin.into_database();
    let data = db.get_mouse_data();
    assert_eq!(data.len(), 1);
    assert_eq!((data[0].dx, data[0].dy), (11, -12));
}
