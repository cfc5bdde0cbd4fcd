use odin::bad_room::BadRoom;
use odin::controller::{DeviceAction, DeviceEntry, DeviceHolder};
use odin::dispatch::{parse_action, ActionType};
use odin::home::AppState;
use odin::sensors::{IRHandler, IRState};
use odin::timer::Timer;
use odin::web::WebController;
use odin::wire::SerialChannel;

fn lamp_state(h: &DeviceHolder, id: &str) -> (bool, u8) {
    match h.get(id).expect("device should exist") {
        DeviceEntry::SerialDimmer(d) => (d.is_on, d.brightness),
        DeviceEntry::Web(d) => (d.is_on, d.brightness),
        DeviceEntry::SerialSwitch(d) => (d.is_on, 100),
    }
}

#[test]
fn parse_action_recognizes_only_on_and_off() {
    assert_eq!(parse_action("on"), Some(ActionType::On));
    assert_eq!(parse_action("off"), Some(ActionType::Off));
    assert_eq!(parse_action("sideways"), None);
    assert_eq!(parse_action(""), None);
    assert_eq!(parse_action("ON"), None);
}

#[test]
fn is_all_off_needs_every_zone_quiet() {
    let mut s = IRState { front_door: false, bedroom_door: false, middle: false, living_room: false };
    assert!(s.is_all_off());
    s.middle = true;
    assert!(!s.is_all_off());
}

#[test]
fn front_door_lights_the_lamp_at_full_brightness() {
    let mut state = AppState::new();
    state.handle_switch("ir_sensor_front_door", "on", 1_000);
    assert_eq!(lamp_state(&state.devices, "corridor_lamp"), (true, 100));
    // A later zone does not change the brightness the first trigger chose.
    state.handle_switch("ir_sensor_middle", "on", 2_000);
    assert_eq!(lamp_state(&state.devices, "corridor_lamp"), (true, 100));
}

#[test]
fn other_zones_light_the_lamp_at_half_brightness() {
    let mut state = AppState::new();
    state.handle_switch("ir_sensor_middle", "on", 1_000);
    assert_eq!(lamp_state(&state.devices, "corridor_lamp"), (true, 50));
}

#[test]
fn no_lamp_off_is_scheduled_while_a_zone_is_active() {
    let mut state = AppState::new();
    state.handle_switch("ir_sensor_front_door", "on", 1_000);
    state.handle_switch("ir_sensor_middle", "on", 2_000);
    state.handle_switch("ir_sensor_front_door", "off", 3_000);
    assert_eq!(state.timer.pending.len(), 0);
}

#[test]
fn full_quiet_schedules_exactly_one_delayed_off() {
    let mut state = AppState::new();
    state.handle_switch("ir_sensor_front_door", "on", 1_000);
    state.handle_switch("ir_sensor_middle", "on", 2_000);
    state.handle_switch("ir_sensor_front_door", "off", 3_000);
    state.handle_switch("ir_sensor_middle", "off", 4_000);
    assert_eq!(state.timer.pending.len(), 1);
    let entry = &state.timer.pending[0];
    assert_eq!(entry.due_ms, 4_000 + 60_000);
    assert_eq!(entry.device_id, "corridor_lamp");
    assert_eq!(entry.action, DeviceAction::SetOn(false));
    // The delayed off fires once its quiet window has elapsed.
    state.tick(64_000);
    assert_eq!(lamp_state(&state.devices, "corridor_lamp").0, false);
    assert_eq!(state.timer.pending.len(), 0);
}

#[test]
fn delayed_off_is_not_cancelled_by_a_retrigger() {
    let mut state = AppState::new();
    state.handle_switch("ir_sensor_middle", "on", 1_000);
    state.handle_switch("ir_sensor_middle", "off", 2_000);
    assert_eq!(state.timer.pending.len(), 1);
    // Motion resumes inside the quiet window; the pending off still fires.
    state.handle_switch("ir_sensor_middle", "on", 10_000);
    assert_eq!(state.timer.pending.len(), 1);
    state.tick(62_000);
    assert_eq!(lamp_state(&state.devices, "corridor_lamp").0, false);
}

#[test]
fn unknown_switch_and_bad_action_change_nothing() {
    let mut state = AppState::new();
    let frames_before = state.serial.sent.len();
    let published_before = state.web_controller.published.len();
    state.handle_switch("no_such_switch", "on", 1_000);
    state.handle_switch("toilet", "sideways", 1_000);
    assert_eq!(state.serial.sent.len(), frames_before);
    assert_eq!(state.web_controller.published.len(), published_before);
    assert_eq!(state.timer.pending.len(), 0);
    assert_eq!(lamp_state(&state.devices, "toilet_lamp").0, false);
}

#[test]
fn bound_switch_toggles_its_device() {
    let mut state = AppState::new();
    state.handle_switch("toilet", "on", 1_000);
    assert_eq!(lamp_state(&state.devices, "toilet_lamp").0, true);
    state.handle_switch("toilet", "off", 2_000);
    assert_eq!(lamp_state(&state.devices, "toilet_lamp").0, false);
}

#[test]
fn double_switch_drives_both_devices() {
    let mut state = AppState::new();
    state.handle_switch("bedroom_2", "on", 1_000);
    assert_eq!(lamp_state(&state.devices, "bedroom_beam_bed_lamp").0, true);
    assert_eq!(lamp_state(&state.devices, "bedroom_beam_table_lamp").0, true);
}

#[test]
fn corridor_exit_drives_lamp_and_beam() {
    let mut state = AppState::new();
    state.handle_switch("exit_1", "on", 1_000);
    assert_eq!(lamp_state(&state.devices, "corridor_lamp"), (true, 100));
    assert_eq!(lamp_state(&state.devices, "corridor_beam_lamp").0, true);
    let last = state.web_controller.published.last().expect("a remote command");
    assert_eq!(last.id, "corridor_beam_lamp");
    assert!(last.is_on);
}

#[test]
fn leaving_home_lights_everything_low_and_schedules_restores() {
    let mut state = AppState::new();
    state.handle_switch("exit_2", "on", 1_000);
    // The corridor lamp goes off; every other device is on at brightness 5.
    assert_eq!(lamp_state(&state.devices, "corridor_lamp").0, false);
    assert_eq!(lamp_state(&state.devices, "kitchen_lamp"), (true, 5));
    assert_eq!(lamp_state(&state.devices, "lounge_beam_main_lamp"), (true, 5));
    // One off-and-restore per lit device, none for the corridor lamp.
    assert_eq!(state.timer.pending.len(), 20);
    assert_eq!(state.timer.pending[0].due_ms, 1_000 + 30_000);
    assert_eq!(state.timer.pending[0].action, DeviceAction::OffThenPower(100));
    // After the interval everything it lit is off with brightness restored.
    state.tick(40_000);
    assert_eq!(lamp_state(&state.devices, "kitchen_lamp"), (false, 100));
    assert_eq!(state.timer.pending.len(), 0);
}

#[test]
fn device_endpoint_sets_state_and_power_in_one_call() {
    let mut state = AppState::new();
    state.handle_device("bathroom_lamp", "on", 60);
    assert_eq!(lamp_state(&state.devices, "bathroom_lamp"), (true, 60));
    let n = state.serial.sent.len();
    assert_eq!(&state.serial.sent[n - 3..], &[0x01, 0x01, 185]);
}

#[test]
fn dimmer_endpoint_stores_power_without_flushing() {
    let mut state = AppState::new();
    let frames_before = state.serial.sent.len();
    state.handle_dimmer("bathroom_lamp", 30);
    assert_eq!(lamp_state(&state.devices, "bathroom_lamp"), (false, 30));
    assert_eq!(state.serial.sent.len(), frames_before);
}

#[test]
fn reg_device_accumulates_registrations() {
    let mut state = AppState::new();
    let ids = vec!["bedroom_beam_led".to_owned(), "kitchen_beam_led".to_owned()];
    state.handle_reg_device(ids, "192.168.0.9:1884".to_owned());
    assert_eq!(state.web_controller.registered.len(), 2);
    assert_eq!(state.web_controller.registered[0].id, "bedroom_beam_led");
    assert_eq!(state.web_controller.registered[1].base_url, "192.168.0.9:1884");
}

#[test]
fn timer_take_due_hands_each_entry_out_once() {
    let mut t = Timer::new();
    t.delay(0, 100, "a".to_owned(), DeviceAction::SetOn(false));
    t.delay(0, 200, "b".to_owned(), DeviceAction::SetOn(false));
    t.delay(0, 300, "c".to_owned(), DeviceAction::SetOn(true));
    let due = t.take_due(250);
    assert_eq!(due.len(), 2);
    assert_eq!(due[0].device_id, "a");
    assert_eq!(due[1].device_id, "b");
    assert_eq!(t.pending.len(), 1);
    let due_again = t.take_due(250);
    assert!(due_again.is_empty());
}

#[test]
fn scheduling_twice_runs_twice_last_write_wins() {
    let mut state = AppState::new();
    state.timer.delay(0, 100, "corridor_lamp".to_owned(), DeviceAction::SetState(true, 80));
    state.timer.delay(0, 200, "corridor_lamp".to_owned(), DeviceAction::SetState(true, 20));
    state.tick(500);
    assert_eq!(lamp_state(&state.devices, "corridor_lamp"), (true, 20));
}

#[test]
fn bad_room_wires_its_devices_and_switches() {
    let mut devices = DeviceHolder::new();
    let mut serial = SerialChannel::new();
    let mut web = WebController::new();
    let room = BadRoom::new(&mut devices);
    assert_eq!(devices.devices.len(), 2);
    room.on_switch_2(true, &mut devices, &mut serial, &mut web).unwrap();
    match devices.get("bedroom_lamp").unwrap() {
        DeviceEntry::SerialSwitch(d) => assert!(d.is_on),
        _ => panic!("chandelier should be a serial switch"),
    }
    room.on_switch_1(true, &mut devices, &mut serial, &mut web).unwrap();
    match devices.get("bedroom_beam").unwrap() {
        DeviceEntry::Web(d) => assert!(d.is_on),
        _ => panic!("beam should be a remote device"),
    }
}

#[test]
fn ir_handler_defaults_to_all_quiet() {
    let devices = DeviceHolder::new();
    let h = IRHandler::new(&devices);
    assert!(h.state.is_all_off());
    assert_eq!(h.corridor_lamp, "corridor_lamp");
}
