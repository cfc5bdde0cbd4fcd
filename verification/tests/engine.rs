use odin::controller::{ControllerError, Device, DeviceAction, DeviceEntry, DeviceHolder};
use odin::devices::{DeviceType, SerialDimmer, SerialSwitch, StateDoc, WebDevice};
use odin::mapping::invert_and_map;
use odin::web::WebController;
use odin::wire::SerialChannel;

fn dimmer(id: &str, p_id: u8, min: u8, max: u8) -> SerialDimmer {
    SerialDimmer::new(id, p_id, min, max)
}

#[test]
fn map_hits_both_endpoints() {
    assert_eq!(odin::mapping::map(0, 0, 100, 25, 100), 25);
    assert_eq!(odin::mapping::map(100, 0, 100, 25, 100), 100);
    assert_eq!(odin::mapping::map(0, 0, 100, 0, 100), 0);
    assert_eq!(odin::mapping::map(100, 0, 100, 0, 100), 100);
}

#[test]
fn map_is_monotonic_on_samples() {
    let mut last = 0;
    for b in 0..=100u32 {
        let v = odin::mapping::map(b, 0, 100, 25, 100);
        assert!(v >= last);
        last = v;
    }
}

#[test]
fn map_interpolates_and_inverts() {
    // 25 + 60 * (100 - 25) / 100 = 70, inverted to 185.
    assert_eq!(odin::mapping::map(60, 0, 100, 25, 100), 70);
    assert_eq!(invert_and_map(70), 185);
}

#[test]
fn dimmer_flush_encodes_inverted_brightness() {
    let mut ch = SerialChannel::new();
    let mut d = dimmer("bathroom_lamp", 0x01, 25, 100);
    d.switch(true, &mut ch).unwrap();
    d.set_power(60).unwrap();
    d.flush(&mut ch).unwrap();
    let n = ch.sent.len();
    assert_eq!(&ch.sent[n - 3..], &[0x01, 0x01, 185]);
}

#[test]
fn dimmer_flush_off_is_255_regardless_of_brightness() {
    let mut ch = SerialChannel::new();
    let mut d = dimmer("bathroom_lamp", 0x01, 25, 100);
    d.set_power(60).unwrap();
    d.switch(false, &mut ch).unwrap();
    let n = ch.sent.len();
    assert_eq!(&ch.sent[n - 3..], &[0x01, 0x01, 255]);
}

#[test]
fn switch_frames_use_on_off_sentinels() {
    let mut ch = SerialChannel::new();
    let mut s = SerialSwitch::new("bedroom_lamp", 0x07);
    s.switch(true, &mut ch).unwrap();
    s.switch(false, &mut ch).unwrap();
    assert_eq!(ch.sent, vec![0x02, 0x07, 0x01, 0x02, 0x07, 0x02]);
}

#[test]
fn update_is_on_alone_keeps_brightness() {
    let mut ch = SerialChannel::new();
    let mut d = dimmer("toilet_lamp", 0x02, 25, 100);
    d.set_power(40).unwrap();
    let doc = StateDoc { is_on: Some(true), brightness: None };
    d.update(&doc, &mut ch).unwrap();
    assert!(d.is_on);
    assert_eq!(d.brightness, 40);
}

#[test]
fn update_brightness_alone_never_flips_is_on() {
    let mut ch = SerialChannel::new();
    let mut d = dimmer("toilet_lamp", 0x02, 25, 100);
    let sent_before = ch.sent.len();
    let doc = StateDoc { is_on: None, brightness: Some(40) };
    d.update(&doc, &mut ch).unwrap();
    assert!(!d.is_on);
    assert_eq!(d.brightness, 40);
    // No is_on field in the document: no flush either.
    assert_eq!(ch.sent.len(), sent_before);
}

#[test]
fn update_rejects_out_of_range_brightness() {
    let mut ch = SerialChannel::new();
    let mut d = dimmer("toilet_lamp", 0x02, 25, 100);
    let doc = StateDoc { is_on: Some(true), brightness: Some(150) };
    let r = d.update(&doc, &mut ch);
    assert!(matches!(r, Err(ControllerError::UpdateRejected)));
    assert!(!d.is_on);
    assert_eq!(d.brightness, 100);
    assert!(ch.sent.is_empty());
}

#[test]
fn dead_channel_reports_transport_failure_but_state_stands() {
    let mut ch = SerialChannel::new();
    ch.connected = false;
    let mut d = dimmer("lounge_lamp", 0x02, 0, 100);
    let r = d.switch(true, &mut ch);
    assert!(matches!(r, Err(ControllerError::TransportFailure)));
    assert!(d.is_on);
    assert!(ch.sent.is_empty());
}

#[test]
fn dead_web_transport_reports_transport_failure() {
    let mut web = WebController::new();
    web.connected = false;
    let mut d = WebDevice::new("corridor_beam_lamp", DeviceType::WebDimmer);
    let r = d.switch(true, &mut web);
    assert!(matches!(r, Err(ControllerError::TransportFailure)));
    assert!(d.is_on);
    assert!(web.published.is_empty());
}

#[test]
fn poisoned_guard_refuses_and_isolates() {
    let mut serial = SerialChannel::new();
    let mut web = WebController::new();
    let mut h = DeviceHolder::new();
    let mut bad = dimmer("lounge_lamp", 0x02, 0, 100);
    bad.poisoned = true;
    h.register(DeviceEntry::SerialDimmer(bad));
    h.register(DeviceEntry::SerialDimmer(dimmer("kitchen_lamp", 0x04, 0, 100)));

    let r = h.apply_to("lounge_lamp", DeviceAction::SetOn(true), &mut serial, &mut web);
    assert!(matches!(r, Err(ControllerError::GuardFailure)));
    assert!(serial.sent.is_empty());

    // The unrelated device still works, and the poisoned one is untouched.
    h.apply_to("kitchen_lamp", DeviceAction::SetOn(true), &mut serial, &mut web).unwrap();
    match h.get("kitchen_lamp").unwrap() {
        DeviceEntry::SerialDimmer(d) => assert!(d.is_on),
        _ => panic!("kitchen lamp should be a serial dimmer"),
    }
    match h.get("lounge_lamp").unwrap() {
        DeviceEntry::SerialDimmer(d) => {
            assert!(!d.is_on);
            assert!(d.poisoned);
        },
        _ => panic!("lounge lamp should be a serial dimmer"),
    }
}

#[test]
fn unknown_id_is_a_no_op() {
    let mut serial = SerialChannel::new();
    let mut web = WebController::new();
    let mut h = DeviceHolder::new();
    h.register(DeviceEntry::SerialSwitch(SerialSwitch::new("bedroom_lamp", 0x01)));
    assert!(h.get("nonexistent").is_none());
    let r = h.apply_to("nonexistent", DeviceAction::SetOn(true), &mut serial, &mut web);
    assert!(r.is_ok());
    assert!(serial.sent.is_empty());
    match h.get("bedroom_lamp").unwrap() {
        DeviceEntry::SerialSwitch(d) => assert!(!d.is_on),
        _ => panic!("bedroom lamp should be a serial switch"),
    }
}

#[test]
fn later_registration_shadows_earlier() {
    let mut h = DeviceHolder::new();
    h.register(DeviceEntry::SerialSwitch(SerialSwitch::new("bedroom_lamp", 0x01)));
    h.register(DeviceEntry::SerialSwitch(SerialSwitch::new("bedroom_lamp", 0x09)));
    match h.get("bedroom_lamp").unwrap() {
        DeviceEntry::SerialSwitch(d) => assert_eq!(d.p_id, 0x09),
        _ => panic!("bedroom lamp should be a serial switch"),
    }
}

#[test]
fn for_each_reaches_every_device_once() {
    let mut serial = SerialChannel::new();
    let mut web = WebController::new();
    let mut h = DeviceHolder::new();
    h.register(DeviceEntry::SerialSwitch(SerialSwitch::new("a", 0x01)));
    h.register(DeviceEntry::SerialDimmer(dimmer("b", 0x02, 0, 100)));
    h.register(DeviceEntry::Web(WebDevice::new("c", DeviceType::WebLed)));
    h.for_each(DeviceAction::SetOn(true), &mut serial, &mut web);
    for entry in &h.devices {
        assert!(entry.is_on().unwrap());
    }
    // Two serial frames and one remote command: each device flushed once.
    assert_eq!(serial.sent.len(), 6);
    assert_eq!(web.published.len(), 1);
}

#[test]
fn trait_toggle_flips_and_reports() {
    let mut serial = SerialChannel::new();
    let mut web = WebController::new();
    let mut d = SerialSwitch::new("bedroom_lamp", 0x01);
    let now_on = d.toggle(&mut serial, &mut web).unwrap();
    assert!(now_on);
    let now_on = d.toggle(&mut serial, &mut web).unwrap();
    assert!(!now_on);
    assert!(Device::is_off(&d).unwrap());
}

#[test]
fn load_reports_the_document_shape() {
    let d = dimmer("toilet_lamp", 0x02, 25, 100);
    let doc = d.load().unwrap();
    assert_eq!(doc.is_on, Some(false));
    assert_eq!(doc.brightness, Some(100));
    let s = SerialSwitch::new("bedroom_lamp", 0x01);
    let doc = s.load();
    assert_eq!(doc.is_on, Some(false));
    assert_eq!(doc.brightness, None);
    let led = WebDevice::new("bedroom_beam_led", DeviceType::WebLed);
    let doc = led.load().unwrap();
    assert_eq!(doc.brightness, None);
}

#[test]
fn web_device_publishes_whole_state() {
    let mut web = WebController::new();
    let mut d = WebDevice::new("kitchen_beam_lamp", DeviceType::WebDimmer);
    d.set_power(30).unwrap();
    d.switch(true, &mut web).unwrap();
    assert_eq!(web.published.len(), 1);
    let msg = &web.published[0];
    assert_eq!(msg.id, "kitchen_beam_lamp");
    assert!(msg.is_on);
    assert_eq!(msg.brightness, 30);
}
