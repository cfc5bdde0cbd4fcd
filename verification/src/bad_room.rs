//! The bedroom: its own chandelier and beam, registered at startup, with
//! two wall switches bound to them.

use vstd::prelude::*;
use crate::controller::{
    action_ok, apply_to_bytes, apply_to_devs, apply_to_msgs, find_last, ControllerError,
    DeviceAction, DeviceEntry, DeviceHolder,
};
use crate::devices::{serial_effect, web_effect, DeviceType, SerialSwitch, WebDevice};
use crate::dispatch::{Switch, SwitchEffect};
use crate::web::WebController;
use crate::wire::SerialChannel;

verus! {

/// The bedroom's devices and switches; the device records live in the
/// registry, the room keeps their identifiers.
pub struct BadRoom {
    pub chandelier: String,
    pub beam: String,
    pub switch_1: Switch,
    pub switch_2: Switch,
}

impl BadRoom {
    /// Registers the bedroom's chandelier and beam and binds its two wall
    /// switches: the first drives the beam, the second the chandelier.
    pub fn new(devices: &mut DeviceHolder) -> (room: BadRoom)
        requires
            old(devices).wf(),
        ensures
            final(devices).wf(),
            final(devices).devices@.len() == old(devices).devices@.len() + 2,
            final(devices).devices@[old(devices).devices@.len() as int] matches
                DeviceEntry::SerialSwitch(d) && d.id@ == "bedroom_lamp"@ && d.p_id == 0x01
                && !d.is_on,
            final(devices).devices@[old(devices).devices@.len() as int + 1] matches DeviceEntry::Web(d)
                && d.id@ == "bedroom_beam"@ && d.dev_type == DeviceType::WebBeam && !d.is_on,
            forall|i: int|
                0 <= i < old(devices).devices@.len() ==> final(devices).devices@[i] == old(
                    devices,
                ).devices@[i],
            room.chandelier@ == "bedroom_lamp"@,
            room.beam@ == "bedroom_beam"@,
            room.switch_1.id@ == "bedroom_1"@,
            room.switch_1.effect matches SwitchEffect::Device(d) && d@ == "bedroom_beam"@,
            room.switch_2.id@ == "bedroom_2"@,
            room.switch_2.effect matches SwitchEffect::Device(d) && d@ == "bedroom_lamp"@,
    {
        devices.register(DeviceEntry::SerialSwitch(SerialSwitch::new("bedroom_lamp", 0x01)));
        devices.register(DeviceEntry::Web(WebDevice::new("bedroom_beam", DeviceType::WebBeam)));
        BadRoom {
            chandelier: "bedroom_lamp".to_owned(),
            beam: "bedroom_beam".to_owned(),
            switch_1: Switch::device("bedroom_1", "bedroom_beam"),
            switch_2: Switch::device("bedroom_2", "bedroom_lamp"),
        }
    }

    /// The first bedroom switch: the beam follows the switch state.
    pub fn on_switch_1(
        &self,
        is_on: bool,
        devices: &mut DeviceHolder,
        serial: &mut SerialChannel,
        web: &mut WebController,
    ) -> (r: Result<(), ControllerError>)
        requires
            old(devices).wf(),
        ensures
            final(devices).wf(),
            final(devices).devices@ == apply_to_devs(
                old(devices).devices@,
                self.beam@,
                DeviceAction::SetOn(is_on),
            ),
            serial_effect(
                *old(serial),
                *final(serial),
                apply_to_bytes(old(devices).devices@, self.beam@, DeviceAction::SetOn(is_on)),
            ),
            web_effect(
                *old(web),
                *final(web),
                apply_to_msgs(old(devices).devices@, self.beam@, DeviceAction::SetOn(is_on)),
            ),
            match find_last(old(devices).devices@, self.beam@) {
                Some(i) => (r is Ok <==> old(devices).devices@[i].guard_ok() && action_ok(
                    old(devices).devices@[i],
                    DeviceAction::SetOn(is_on),
                    old(serial).connected,
                    old(web).connected,
                )) && (!old(devices).devices@[i].guard_ok() ==> r matches Err(
                    ControllerError::GuardFailure,
                )) && (old(devices).devices@[i].guard_ok() && r is Err ==> r matches Err(
                    ControllerError::TransportFailure,
                )),
                None => r is Ok,
            },
    {
        devices.apply_to(self.beam.as_str(), DeviceAction::SetOn(is_on), serial, web)
    }

    /// The second bedroom switch: the chandelier follows the switch state.
    pub fn on_switch_2(
        &self,
        is_on: bool,
        devices: &mut DeviceHolder,
        serial: &mut SerialChannel,
        web: &mut WebController,
    ) -> (r: Result<(), ControllerError>)
        requires
            old(devices).wf(),
        ensures
            final(devices).wf(),
            final(devices).devices@ == apply_to_devs(
                old(devices).devices@,
                self.chandelier@,
                DeviceAction::SetOn(is_on),
            ),
            serial_effect(
                *old(serial),
                *final(serial),
                apply_to_bytes(old(devices).devices@, self.chandelier@, DeviceAction::SetOn(is_on)),
            ),
            web_effect(
                *old(web),
                *final(web),
                apply_to_msgs(old(devices).devices@, self.chandelier@, DeviceAction::SetOn(is_on)),
            ),
            match find_last(old(devices).devices@, self.chandelier@) {
                Some(i) => (r is Ok <==> old(devices).devices@[i].guard_ok() && action_ok(
                    old(devices).devices@[i],
                    DeviceAction::SetOn(is_on),
                    old(serial).connected,
                    old(web).connected,
                )) && (!old(devices).devices@[i].guard_ok() ==> r matches Err(
                    ControllerError::GuardFailure,
                )) && (old(devices).devices@[i].guard_ok() && r is Err ==> r matches Err(
                    ControllerError::TransportFailure,
                )),
                None => r is Ok,
            },
    {
        devices.apply_to(self.chandelier.as_str(), DeviceAction::SetOn(is_on), serial, web)
    }
}

} // verus!
