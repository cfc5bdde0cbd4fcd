//! The sensor aggregator: per-zone motion state, debounced into one shared
//! lamp decision.
//!
//! All four zone handlers run one algorithm, parameterized only by which
//! zone flag they flip and what brightness they request. The whole
//! read-modify-decide sequence runs under one exclusive borrow of the zone
//! state, so two zone events can never both conclude "all quiet" from stale
//! flags. An activation turns the shared lamp on only if it is off — the
//! first trigger wins the brightness until full quiet. A deactivation that
//! leaves every zone quiet schedules exactly one delayed lamp-off; the
//! delayed off is never cancelled, not even by a re-trigger inside the
//! quiet window.

use vstd::prelude::*;
use crate::controller::{
    action_ok, apply_to_bytes, apply_to_devs, apply_to_msgs, find_last, lemma_find_last,
    ControllerError, DeviceAction, DeviceEntry, DeviceHolder,
};
use crate::devices::{serial_effect, web_effect};
use crate::dispatch::ActionType;
use crate::timer::{DelayedActionView, Timer};
use crate::web::WebController;
use crate::wire::SerialChannel;

verus! {

/// The quiet window: how long after the last zone goes quiet the shared
/// lamp is switched off.
pub const QUIET_WINDOW_MS: u64 = 60000;

/// A motion zone contributing to the shared lamp's occupancy decision.
#[derive(Clone, Copy, PartialEq, Eq, Structural, Debug)]
pub enum Zone {
    FrontDoor,
    BedroomDoor,
    Middle,
    LivingRoom,
}

/// The brightness a zone requests when it turns the lamp on: full at the
/// front door, half everywhere else.
pub open spec fn zone_brightness(z: Zone) -> u8 {
    if z == Zone::FrontDoor {
        100u8
    } else {
        50u8
    }
}

pub fn zone_power(z: Zone) -> (p: u8)
    ensures
        p == zone_brightness(z),
{
    match z {
        Zone::FrontDoor => 100,
        _ => 50,
    }
}

/// Per-zone motion flags, read and written as one unit.
#[derive(Clone, Copy, PartialEq, Eq, Structural, Debug)]
pub struct IRState {
    pub front_door: bool,
    pub bedroom_door: bool,
    pub middle: bool,
    pub living_room: bool,
}

impl IRState {
    pub open spec fn all_off_spec(&self) -> bool {
        !(self.front_door || self.bedroom_door || self.middle || self.living_room)
    }

    /// Whether every zone is quiet.
    pub fn is_all_off(&self) -> (r: bool)
        ensures
            r == self.all_off_spec(),
    {
        !(self.front_door || self.bedroom_door || self.middle || self.living_room)
    }

    /// The flags after one zone reports a new state.
    pub open spec fn with_zone(self, z: Zone, v: bool) -> IRState {
        match z {
            Zone::FrontDoor => IRState { front_door: v, ..self },
            Zone::BedroomDoor => IRState { bedroom_door: v, ..self },
            Zone::Middle => IRState { middle: v, ..self },
            Zone::LivingRoom => IRState { living_room: v, ..self },
        }
    }

    fn set_zone(&mut self, z: Zone, v: bool)
        ensures
            *final(self) == old(self).with_zone(z, v),
    {
        match z {
            Zone::FrontDoor => self.front_door = v,
            Zone::BedroomDoor => self.bedroom_door = v,
            Zone::Middle => self.middle = v,
            Zone::LivingRoom => self.living_room = v,
        }
    }
}

/// The debounce engine: the zone flags and the identifier of the shared
/// lamp it drives.
pub struct IRHandler {
    pub state: IRState,
    pub corridor_lamp: String,
}

/// What one sensor event does, relating every piece of state before and
/// after. An activation of any zone turns the lamp on at the zone's
/// brightness only if the lamp is off (an unknown lamp or a poisoned guard
/// changes nothing); it never schedules anything. A deactivation changes no
/// device; if it leaves all four zones quiet it schedules exactly one
/// lamp-off, due one quiet window from now, and otherwise schedules
/// nothing.
pub open spec fn ir_step(
    pre: IRHandler,
    post: IRHandler,
    pre_devs: Seq<DeviceEntry>,
    post_devs: Seq<DeviceEntry>,
    pre_serial: SerialChannel,
    post_serial: SerialChannel,
    pre_web: WebController,
    post_web: WebController,
    pre_q: Seq<DelayedActionView>,
    post_q: Seq<DelayedActionView>,
    zone: Zone,
    t: ActionType,
    now_ms: u64,
) -> bool {
    let active = t == ActionType::On;
    let lamp = pre.corridor_lamp@;
    let turn_on = DeviceAction::SetState(true, zone_brightness(zone));
    &&& post.corridor_lamp == pre.corridor_lamp
    &&& post.state == pre.state.with_zone(zone, active)
    &&& if active {
        &&& post_q == pre_q
        &&& match find_last(pre_devs, lamp) {
            Some(i) => if pre_devs[i].guard_ok() && !pre_devs[i].on_state() {
                &&& post_devs == apply_to_devs(pre_devs, lamp, turn_on)
                &&& serial_effect(pre_serial, post_serial, apply_to_bytes(pre_devs, lamp, turn_on))
                &&& web_effect(pre_web, post_web, apply_to_msgs(pre_devs, lamp, turn_on))
            } else {
                &&& post_devs == pre_devs
                &&& post_serial == pre_serial
                &&& post_web == pre_web
            },
            None => post_devs == pre_devs && post_serial == pre_serial && post_web == pre_web,
        }
    } else {
        &&& post_devs == pre_devs
        &&& post_serial == pre_serial
        &&& post_web == pre_web
        &&& if pre.state.with_zone(zone, false).all_off_spec() {
            post_q == pre_q + seq![
                DelayedActionView {
                    due_ms: (now_ms + QUIET_WINDOW_MS) as u64,
                    device_id: lamp,
                    action: DeviceAction::SetOn(false),
                },
            ]
        } else {
            post_q == pre_q
        }
    }
}

/// What one sensor event reports back. A deactivation or an unknown lamp
/// succeeds silently; an activation fails with `GuardFailure` exactly when
/// the lamp's lock is poisoned, and reports a lost write exactly when the
/// lamp was off and its transport is down.
pub open spec fn ir_result(
    pre: IRHandler,
    pre_devs: Seq<DeviceEntry>,
    serial_up: bool,
    web_up: bool,
    zone: Zone,
    t: ActionType,
    r: Result<(), ControllerError>,
) -> bool {
    if t == ActionType::On {
        match find_last(pre_devs, pre.corridor_lamp@) {
            Some(i) => {
                let lamp = pre_devs[i];
                &&& (!lamp.guard_ok() ==> r matches Err(ControllerError::GuardFailure))
                &&& (lamp.guard_ok() && lamp.on_state() ==> r is Ok)
                &&& (lamp.guard_ok() && !lamp.on_state() ==> (r is Ok <==> action_ok(
                    lamp,
                    DeviceAction::SetState(true, zone_brightness(zone)),
                    serial_up,
                    web_up,
                )) && (r is Err ==> r matches Err(ControllerError::TransportFailure)))
            },
            None => r is Ok,
        }
    } else {
        r is Ok
    }
}

impl IRHandler {
    /// A fresh aggregator: every zone quiet, driving the corridor lamp of
    /// the given registry.
    pub fn new(_devices: &DeviceHolder) -> (h: IRHandler)
        ensures
            h.state == (IRState {
                front_door: false,
                bedroom_door: false,
                middle: false,
                living_room: false,
            }),
            h.corridor_lamp@ == "corridor_lamp"@,
    {
        IRHandler {
            state: IRState {
                front_door: false,
                bedroom_door: false,
                middle: false,
                living_room: false,
            },
            corridor_lamp: "corridor_lamp".to_owned(),
        }
    }

    /// One sensor event for one zone: flip the zone flag, then decide about
    /// the shared lamp under the same exclusive borrow.
    pub fn on_zone(
        &mut self,
        zone: Zone,
        t: ActionType,
        devices: &mut DeviceHolder,
        serial: &mut SerialChannel,
        web: &mut WebController,
        timer: &mut Timer,
        now_ms: u64,
    ) -> (r: Result<(), ControllerError>)
        requires
            old(devices).wf(),
            old(timer).wf(),
            now_ms + QUIET_WINDOW_MS <= u64::MAX,
        ensures
            final(devices).wf(),
            final(timer).wf(),
            ir_step(
                *old(self),
                *final(self),
                old(devices).devices@,
                final(devices).devices@,
                *old(serial),
                *final(serial),
                *old(web),
                *final(web),
                old(timer).pending_view(),
                final(timer).pending_view(),
                zone,
                t,
                now_ms,
            ),
            ir_result(
                *old(self),
                old(devices).devices@,
                old(serial).connected,
                old(web).connected,
                zone,
                t,
                r,
            ),
    {
        let active = t == ActionType::On;
        self.state.set_zone(zone, active);
        if active {
            proof {
                lemma_find_last(devices.devices@, self.corridor_lamp@);
            }
            let lamp_on = match devices.get(self.corridor_lamp.as_str()) {
                None => {
                    return Ok(());
                },
                Some(entry) => match entry.is_on() {
                    Ok(b) => b,
                    Err(e) => {
                        return Err(e);
                    },
                },
            };
            if !lamp_on {
                devices.set_state(self.corridor_lamp.as_str(), true, zone_power(zone), serial, web)
            } else {
                Ok(())
            }
        } else {
            if self.state.is_all_off() {
                timer.delay(
                    now_ms,
                    QUIET_WINDOW_MS,
                    self.corridor_lamp.clone(),
                    DeviceAction::SetOn(false),
                );
            }
            Ok(())
        }
    }

    pub fn on_front_door(
        &mut self,
        t: ActionType,
        devices: &mut DeviceHolder,
        serial: &mut SerialChannel,
        web: &mut WebController,
        timer: &mut Timer,
        now_ms: u64,
    ) -> (r: Result<(), ControllerError>)
        requires
            old(devices).wf(),
            old(timer).wf(),
            now_ms + QUIET_WINDOW_MS <= u64::MAX,
        ensures
            final(devices).wf(),
            final(timer).wf(),
            ir_step(
                *old(self),
                *final(self),
                old(devices).devices@,
                final(devices).devices@,
                *old(serial),
                *final(serial),
                *old(web),
                *final(web),
                old(timer).pending_view(),
                final(timer).pending_view(),
                Zone::FrontDoor,
                t,
                now_ms,
            ),
            ir_result(
                *old(self),
                old(devices).devices@,
                old(serial).connected,
                old(web).connected,
                Zone::FrontDoor,
                t,
                r,
            ),
    {
        self.on_zone(Zone::FrontDoor, t, devices, serial, web, timer, now_ms)
    }

    pub fn on_bedroom_door(
        &mut self,
        t: ActionType,
        devices: &mut DeviceHolder,
        serial: &mut SerialChannel,
        web: &mut WebController,
        timer: &mut Timer,
        now_ms: u64,
    ) -> (r: Result<(), ControllerError>)
        requires
            old(devices).wf(),
            old(timer).wf(),
            now_ms + QUIET_WINDOW_MS <= u64::MAX,
        ensures
            final(devices).wf(),
            final(timer).wf(),
            ir_step(
                *old(self),
                *final(self),
                old(devices).devices@,
                final(devices).devices@,
                *old(serial),
                *final(serial),
                *old(web),
                *final(web),
                old(timer).pending_view(),
                final(timer).pending_view(),
                Zone::BedroomDoor,
                t,
                now_ms,
            ),
            ir_result(
                *old(self),
                old(devices).devices@,
                old(serial).connected,
                old(web).connected,
                Zone::BedroomDoor,
                t,
                r,
            ),
    {
        self.on_zone(Zone::BedroomDoor, t, devices, serial, web, timer, now_ms)
    }

    pub fn on_middle(
        &mut self,
        t: ActionType,
        devices: &mut DeviceHolder,
        serial: &mut SerialChannel,
        web: &mut WebController,
        timer: &mut Timer,
        now_ms: u64,
    ) -> (r: Result<(), ControllerError>)
        requires
            old(devices).wf(),
            old(timer).wf(),
            now_ms + QUIET_WINDOW_MS <= u64::MAX,
        ensures
            final(devices).wf(),
            final(timer).wf(),
            ir_step(
                *old(self),
                *final(self),
                old(devices).devices@,
                final(devices).devices@,
                *old(serial),
                *final(serial),
                *old(web),
                *final(web),
                old(timer).pending_view(),
                final(timer).pending_view(),
                Zone::Middle,
                t,
                now_ms,
            ),
            ir_result(
                *old(self),
                old(devices).devices@,
                old(serial).connected,
                old(web).connected,
                Zone::Middle,
                t,
                r,
            ),
    {
        self.on_zone(Zone::Middle, t, devices, serial, web, timer, now_ms)
    }

    pub fn on_living_room(
        &mut self,
        t: ActionType,
        devices: &mut DeviceHolder,
        serial: &mut SerialChannel,
        web: &mut WebController,
        timer: &mut Timer,
        now_ms: u64,
    ) -> (r: Result<(), ControllerError>)
        requires
            old(devices).wf(),
            old(timer).wf(),
            now_ms + QUIET_WINDOW_MS <= u64::MAX,
        ensures
            final(devices).wf(),
            final(timer).wf(),
            ir_step(
                *old(self),
                *final(self),
                old(devices).devices@,
                final(devices).devices@,
                *old(serial),
                *final(serial),
                *old(web),
                *final(web),
                old(timer).pending_view(),
                final(timer).pending_view(),
                Zone::LivingRoom,
                t,
                now_ms,
            ),
            ir_result(
                *old(self),
                old(devices).devices@,
                old(serial).connected,
                old(web).connected,
                Zone::LivingRoom,
                t,
                r,
            ),
    {
        self.on_zone(Zone::LivingRoom, t, devices, serial, web, timer, now_ms)
    }
}

} // verus!
