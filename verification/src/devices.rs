//! Concrete devices: the serial switch, the serial dimmer, and the remote
//! (web) dimmer, LED and beam.
//!
//! Every device holds two persistent fields at most — `is_on`, and for
//! dimmable devices a brightness from 0 to 100 — and every state change is a
//! direct transition immediately followed by (or folded into) a flush: there
//! is no dirty or pending state. The dimmer and the remote devices keep
//! their state behind a lock; `poisoned` models a lock whose previous holder
//! failed, and every operation on such a device is refused with
//! `GuardFailure` instead of touching possibly corrupt state.

use vstd::prelude::*;
use crate::controller::{ControllerError, Device};
use crate::mapping::{map_spec, invert_and_map};
use crate::wire::{Cmd, SerialChannel};
use crate::web::{WebController, WebMsg, WebMsgView};

verus! {

/// The concrete kind of a device, used for protocol dispatch and for the
/// shape of its state documents.
#[derive(Clone, Copy, PartialEq, Eq, Structural, Debug)]
pub enum DeviceType {
    SerialSwitch,
    SerialDimmer,
    WebDimmer,
    WebLed,
    WebBeam,
}

/// A flat state document, as read from or applied to one device. A missing
/// field is left untouched by an update; `brightness` is meaningful only for
/// dimmable devices and is ignored by the others.
#[derive(Clone, Copy, PartialEq, Eq, Debug)]
pub struct StateDoc {
    pub is_on: Option<bool>,
    pub brightness: Option<u64>,
}

/// How a write to the serial channel relates its state before and after:
/// health never changes, a healthy channel gets exactly `bytes` appended,
/// and a dead channel keeps its log.
pub open spec fn serial_effect(pre: SerialChannel, post: SerialChannel, bytes: Seq<u8>) -> bool {
    &&& post.connected == pre.connected
    &&& pre.connected ==> post.sent@ == pre.sent@ + bytes
    &&& !pre.connected ==> post.sent@ == pre.sent@
}

/// The same for the remote transport: registrations and health are
/// untouched, and exactly `msgs` is published when the transport is up.
pub open spec fn web_effect(pre: WebController, post: WebController, msgs: Seq<WebMsgView>) -> bool {
    &&& post.connected == pre.connected
    &&& post.registered_view() == pre.registered_view()
    &&& pre.connected ==> post.published_view() == pre.published_view() + msgs
    &&& !pre.connected ==> post.published_view() == pre.published_view()
}

/// An untouched channel satisfies `serial_effect` with no bytes.
pub proof fn lemma_serial_effect_empty(c: SerialChannel)
    ensures
        serial_effect(c, c, Seq::<u8>::empty()),
{
    assert(c.sent@ + Seq::<u8>::empty() =~= c.sent@);
}

/// An untouched remote transport satisfies `web_effect` with no messages.
pub proof fn lemma_web_effect_empty(c: WebController)
    ensures
        web_effect(c, c, Seq::<WebMsgView>::empty()),
{
    assert(c.published_view() + Seq::<WebMsgView>::empty() =~= c.published_view());
}

/// A boolean-only device on the serial bus. Its state lives in one atomic
/// flag, so no lock can poison it.
pub struct SerialSwitch {
    pub id: String,
    pub p_id: u8,
    pub is_on: bool,
}

impl SerialSwitch {
    /// The frame one flush writes: opcode 0x02 selects the switch class,
    /// and the argument is the on sentinel 0x01 or the off sentinel 0x02.
    pub open spec fn frame(&self) -> Seq<u8> {
        seq![0x02u8, self.p_id, if self.is_on { 0x01u8 } else { 0x02u8 }]
    }

    pub fn new(id: &str, p_id: u8) -> (d: SerialSwitch)
        ensures
            d.id@ == id@,
            d.p_id == p_id,
            !d.is_on,
    {
        SerialSwitch { id: id.to_owned(), p_id, is_on: false }
    }

    /// Reads current state and emits the wire frame without changing state.
    pub fn flush(&self, serial: &mut SerialChannel) -> (r: Result<(), ControllerError>)
        ensures
            serial_effect(*old(serial), *final(serial), self.frame()),
            r is Ok <==> old(serial).connected,
            r is Err ==> r matches Err(ControllerError::TransportFailure),
    {
        let arg: u8 = if self.is_on { 0x01 } else { 0x02 };
        serial.serial_write(Cmd::new(0x02, self.p_id, arg))
    }

    /// Unconditionally records the new logical state, then flushes it. A
    /// transport failure is reported but the state change stands.
    pub fn switch(&mut self, is_on: bool, serial: &mut SerialChannel) -> (r: Result<
        (),
        ControllerError,
    >)
        ensures
            *final(self) == (SerialSwitch { is_on, ..*old(self) }),
            serial_effect(*old(serial), *final(serial), final(self).frame()),
            r is Ok <==> old(serial).connected,
            r is Err ==> r matches Err(ControllerError::TransportFailure),
    {
        self.is_on = is_on;
        self.flush(serial)
    }

    /// Snapshot of the state document: `{is_on}` only.
    pub fn load(&self) -> (d: StateDoc)
        ensures
            d == (StateDoc { is_on: Some(self.is_on), brightness: None::<u64> }),
    {
        StateDoc { is_on: Some(self.is_on), brightness: None }
    }

    /// Partial update: a present `is_on` is applied (and flushed); a
    /// `brightness` field is not recognized by a switch and is ignored.
    pub fn update(&mut self, doc: &StateDoc, serial: &mut SerialChannel) -> (r: Result<
        (),
        ControllerError,
    >)
        ensures
            match doc.is_on {
                Some(o) => *final(self) == (SerialSwitch { is_on: o, ..*old(self) })
                    && serial_effect(
                    *old(serial),
                    *final(serial),
                    final(self).frame(),
                ) && (r is Ok <==> old(serial).connected) && (r is Err ==> r matches Err(
                    ControllerError::TransportFailure,
                )),
                None => *final(self) == *old(self) && *final(serial) == *old(serial) && r is Ok,
            },
    {
        match doc.is_on {
            Some(o) => self.switch(o, serial),
            None => Ok(()),
        }
    }
}

/// A dimmable device on the serial bus, with a device-specific hardware
/// range `[min_value, max_value]` for its brightness byte.
pub struct SerialDimmer {
    pub id: String,
    pub p_id: u8,
    pub min_value: u8,
    pub max_value: u8,
    pub is_on: bool,
    pub brightness: u8,
    pub poisoned: bool,
}

impl SerialDimmer {
    pub open spec fn wf(&self) -> bool {
        &&& self.min_value <= self.max_value
        &&& self.brightness <= 100
    }

    /// Hardware argument byte for the current state: when on, the inverted
    /// interpolation of the brightness into the hardware range (higher byte
    /// means dimmer light); when off, the fully-off sentinel 255.
    pub open spec fn arg_spec(&self) -> int {
        if self.is_on {
            255 - map_spec(
                self.brightness as int,
                0,
                100,
                self.min_value as int,
                self.max_value as int,
            )
        } else {
            255
        }
    }

    /// The frame one flush writes: opcode 0x01 selects the dimmer class.
    pub open spec fn frame(&self) -> Seq<u8> {
        seq![0x01u8, self.p_id, self.arg_spec() as u8]
    }

    pub fn new(id: &str, p_id: u8, min_value: u8, max_value: u8) -> (d: SerialDimmer)
        requires
            min_value <= max_value,
        ensures
            d.id@ == id@,
            d.p_id == p_id,
            d.min_value == min_value,
            d.max_value == max_value,
            !d.is_on,
            d.brightness == 100,
            !d.poisoned,
            d.wf(),
    {
        SerialDimmer {
            id: id.to_owned(),
            p_id,
            min_value,
            max_value,
            is_on: false,
            brightness: 100,
            poisoned: false,
        }
    }

    /// Stores a new brightness without flushing it; the next flush or
    /// switch sends it to the hardware.
    pub fn set_power(&mut self, power: u8) -> (r: Result<(), ControllerError>)
        requires
            old(self).wf(),
            power <= 100,
        ensures
            final(self).wf(),
            old(self).poisoned ==> *final(self) == *old(self) && r matches Err(
                ControllerError::GuardFailure,
            ),
            !old(self).poisoned ==> *final(self) == (SerialDimmer {
                brightness: power,
                ..*old(self)
            }) && r is Ok,
    {
        if self.poisoned {
            Err(ControllerError::GuardFailure)
        } else {
            self.brightness = power;
            Ok(())
        }
    }

    /// Reads current state and emits the wire frame without changing state.
    pub fn flush(&self, serial: &mut SerialChannel) -> (r: Result<(), ControllerError>)
        requires
            self.wf(),
        ensures
            self.poisoned ==> *final(serial) == *old(serial) && r matches Err(
                ControllerError::GuardFailure,
            ),
            !self.poisoned ==> serial_effect(*old(serial), *final(serial), self.frame()) && (
            r is Ok <==> old(serial).connected) && (r is Err ==> r matches Err(
                ControllerError::TransportFailure,
            )),
    {
        if self.poisoned {
            return Err(ControllerError::GuardFailure);
        }
        let arg: u8 = if self.is_on {
            let mapped = crate::mapping::map(
                self.brightness as u32,
                0,
                100,
                self.min_value as u32,
                self.max_value as u32,
            );
            invert_and_map(mapped as u8)
        } else {
            255
        };
        serial.serial_write(Cmd::new(0x01, self.p_id, arg))
    }

    /// Unconditionally records the new logical state, then flushes it.
    pub fn switch(&mut self, is_on: bool, serial: &mut SerialChannel) -> (r: Result<
        (),
        ControllerError,
    >)
        requires
            old(self).wf(),
        ensures
            final(self).wf(),
            old(self).poisoned ==> *final(self) == *old(self) && *final(serial) == *old(serial)
                && r matches Err(ControllerError::GuardFailure),
            !old(self).poisoned ==> *final(self) == (SerialDimmer { is_on, ..*old(self) })
                && serial_effect(*old(serial), *final(serial), final(self).frame()) && (
            r is Ok <==> old(serial).connected) && (r is Err ==> r matches Err(
                ControllerError::TransportFailure,
            )),
    {
        if self.poisoned {
            return Err(ControllerError::GuardFailure);
        }
        self.is_on = is_on;
        self.flush(serial)
    }

    /// Snapshot of the state document: `{is_on, brightness}`.
    pub fn load(&self) -> (r: Result<StateDoc, ControllerError>)
        requires
            self.wf(),
        ensures
            self.poisoned ==> r matches Err(ControllerError::GuardFailure),
            !self.poisoned ==> r == Ok::<StateDoc, ControllerError>(
                StateDoc {
                    is_on: Some(self.is_on),
                    brightness: Some(self.brightness as u64),
                },
            ),
    {
        if self.poisoned {
            Err(ControllerError::GuardFailure)
        } else {
            Ok(StateDoc { is_on: Some(self.is_on), brightness: Some(self.brightness as u64) })
        }
    }

    /// Partial update. A present brightness outside 0-100 rejects the whole
    /// document untouched; otherwise brightness is applied first, and a
    /// present `is_on` is then applied and flushed. A document without
    /// `is_on` changes state silently, with no flush.
    pub fn update(&mut self, doc: &StateDoc, serial: &mut SerialChannel) -> (r: Result<
        (),
        ControllerError,
    >)
        requires
            old(self).wf(),
        ensures
            final(self).wf(),
            old(self).poisoned ==> *final(self) == *old(self) && *final(serial) == *old(serial)
                && r matches Err(ControllerError::GuardFailure),
            !old(self).poisoned && (doc.brightness matches Some(b) && b > 100) ==> *final(self)
                == *old(self) && *final(serial) == *old(serial) && r matches Err(
                ControllerError::UpdateRejected,
            ),
            !old(self).poisoned && !(doc.brightness matches Some(b) && b > 100) ==> {
                let bright = if doc.brightness is Some {
                    doc.brightness->0 as u8
                } else {
                    old(self).brightness
                };
                match doc.is_on {
                    Some(o) => *final(self) == (SerialDimmer {
                        is_on: o,
                        brightness: bright,
                        ..*old(self)
                    }) && serial_effect(*old(serial), *final(serial), final(self).frame()) && (
                    r is Ok <==> old(serial).connected) && (r is Err ==> r matches Err(
                        ControllerError::TransportFailure,
                    )),
                    None => *final(self) == (SerialDimmer { brightness: bright, ..*old(self) })
                        && *final(serial) == *old(serial) && r is Ok,
                }
            },
    {
        if self.poisoned {
            return Err(ControllerError::GuardFailure);
        }
        match doc.brightness {
            Some(b) => {
                if b > 100 {
                    return Err(ControllerError::UpdateRejected);
                }
                self.brightness = b as u8;
            },
            None => {},
        }
        match doc.is_on {
            Some(o) => self.switch(o, serial),
            None => Ok(()),
        }
    }
}

/// A remote device driven over the web transport: dimmer, LED or beam. The
/// LED and the beam are boolean-only; the dimmer also carries a brightness.
pub struct WebDevice {
    pub id: String,
    pub dev_type: DeviceType,
    pub is_on: bool,
    pub brightness: u8,
    pub poisoned: bool,
}

impl WebDevice {
    pub open spec fn wf(&self) -> bool {
        &&& self.brightness <= 100
        &&& (self.dev_type == DeviceType::WebDimmer || self.dev_type == DeviceType::WebLed
            || self.dev_type == DeviceType::WebBeam)
    }

    pub open spec fn dimmable(&self) -> bool {
        self.dev_type == DeviceType::WebDimmer
    }

    /// The command one flush publishes: the whole logical state.
    pub open spec fn msg(&self) -> WebMsgView {
        WebMsgView { id: self.id@, is_on: self.is_on, brightness: self.brightness }
    }

    pub fn new(id: &str, dev_type: DeviceType) -> (d: WebDevice)
        requires
            dev_type == DeviceType::WebDimmer || dev_type == DeviceType::WebLed || dev_type
                == DeviceType::WebBeam,
        ensures
            d.id@ == id@,
            d.dev_type == dev_type,
            !d.is_on,
            d.brightness == 100,
            !d.poisoned,
            d.wf(),
    {
        WebDevice { id: id.to_owned(), dev_type, is_on: false, brightness: 100, poisoned: false }
    }

    /// Stores a new brightness on a dimmer; the LED and the beam have no
    /// brightness and ignore the call.
    pub fn set_power(&mut self, power: u8) -> (r: Result<(), ControllerError>)
        requires
            old(self).wf(),
            power <= 100,
        ensures
            final(self).wf(),
            old(self).poisoned ==> *final(self) == *old(self) && r matches Err(
                ControllerError::GuardFailure,
            ),
            !old(self).poisoned && old(self).dimmable() ==> *final(self) == (WebDevice {
                brightness: power,
                ..*old(self)
            }) && r is Ok,
            !old(self).poisoned && !old(self).dimmable() ==> *final(self) == *old(self)
                && r is Ok,
    {
        if self.poisoned {
            return Err(ControllerError::GuardFailure);
        }
        match self.dev_type {
            DeviceType::WebDimmer => {
                self.brightness = power;
            },
            _ => {},
        }
        Ok(())
    }

    /// Reads current state and publishes it without changing state.
    pub fn flush(&self, web: &mut WebController) -> (r: Result<(), ControllerError>)
        requires
            self.wf(),
        ensures
            self.poisoned ==> *final(web) == *old(web) && r matches Err(
                ControllerError::GuardFailure,
            ),
            !self.poisoned ==> web_effect(*old(web), *final(web), seq![self.msg()]) && (
            r is Ok <==> old(web).connected) && (r is Err ==> r matches Err(
                ControllerError::TransportFailure,
            )),
    {
        if self.poisoned {
            return Err(ControllerError::GuardFailure);
        }
        web.publish(WebMsg { id: self.id.clone(), is_on: self.is_on, brightness: self.brightness })
    }

    /// Unconditionally records the new logical state, then flushes it.
    pub fn switch(&mut self, is_on: bool, web: &mut WebController) -> (r: Result<
        (),
        ControllerError,
    >)
        requires
            old(self).wf(),
        ensures
            final(self).wf(),
            old(self).poisoned ==> *final(self) == *old(self) && *final(web) == *old(web)
                && r matches Err(ControllerError::GuardFailure),
            !old(self).poisoned ==> *final(self) == (WebDevice { is_on, ..*old(self) })
                && web_effect(*old(web), *final(web), seq![final(self).msg()]) && (
            r is Ok <==> old(web).connected) && (r is Err ==> r matches Err(
                ControllerError::TransportFailure,
            )),
    {
        if self.poisoned {
            return Err(ControllerError::GuardFailure);
        }
        self.is_on = is_on;
        self.flush(web)
    }

    /// Snapshot of the state document: the dimmer reports both fields, the
    /// LED and the beam only `is_on`.
    pub fn load(&self) -> (r: Result<StateDoc, ControllerError>)
        requires
            self.wf(),
        ensures
            self.poisoned ==> r matches Err(ControllerError::GuardFailure),
            !self.poisoned && self.dimmable() ==> r == Ok::<StateDoc, ControllerError>(
                StateDoc { is_on: Some(self.is_on), brightness: Some(self.brightness as u64) },
            ),
            !self.poisoned && !self.dimmable() ==> r == Ok::<StateDoc, ControllerError>(
                StateDoc { is_on: Some(self.is_on), brightness: None::<u64> },
            ),
    {
        if self.poisoned {
            return Err(ControllerError::GuardFailure);
        }
        match self.dev_type {
            DeviceType::WebDimmer => Ok(
                StateDoc { is_on: Some(self.is_on), brightness: Some(self.brightness as u64) },
            ),
            _ => Ok(StateDoc { is_on: Some(self.is_on), brightness: None }),
        }
    }

    /// Partial update, with the same document semantics as the serial
    /// counterparts: the dimmer recognizes both fields, the LED and the
    /// beam only `is_on`.
    pub fn update(&mut self, doc: &StateDoc, web: &mut WebController) -> (r: Result<
        (),
        ControllerError,
    >)
        requires
            old(self).wf(),
        ensures
            final(self).wf(),
            old(self).poisoned ==> *final(self) == *old(self) && *final(web) == *old(web)
                && r matches Err(ControllerError::GuardFailure),
            !old(self).poisoned && old(self).dimmable() && (doc.brightness matches Some(b) && b
                > 100) ==> *final(self) == *old(self) && *final(web) == *old(web) && r matches Err(
                ControllerError::UpdateRejected,
            ),
            !old(self).poisoned && !(old(self).dimmable() && (doc.brightness matches Some(b) && b
                > 100)) ==> {
                let bright = if old(self).dimmable() && doc.brightness is Some {
                    doc.brightness->0 as u8
                } else {
                    old(self).brightness
                };
                match doc.is_on {
                    Some(o) => *final(self) == (WebDevice {
                        is_on: o,
                        brightness: bright,
                        ..*old(self)
                    }) && web_effect(*old(web), *final(web), seq![final(self).msg()]) && (
                    r is Ok <==> old(web).connected) && (r is Err ==> r matches Err(
                        ControllerError::TransportFailure,
                    )),
                    None => *final(self) == (WebDevice { brightness: bright, ..*old(self) })
                        && *final(web) == *old(web) && r is Ok,
                }
            },
    {
        if self.poisoned {
            return Err(ControllerError::GuardFailure);
        }
        let dimmable = match self.dev_type {
            DeviceType::WebDimmer => true,
            _ => false,
        };
        if dimmable {
            match doc.brightness {
                Some(b) => {
                    if b > 100 {
                        return Err(ControllerError::UpdateRejected);
                    }
                    self.brightness = b as u8;
                },
                None => {},
            }
        }
        match doc.is_on {
            Some(o) => self.switch(o, web),
            None => Ok(()),
        }
    }
}

impl Device for SerialSwitch {
    open spec fn dev_wf(&self) -> bool {
        true
    }

    open spec fn guard_ok(&self) -> bool {
        true
    }

    open spec fn on_state(&self) -> bool {
        self.is_on
    }

    open spec fn with_on(self, on: bool) -> Self {
        SerialSwitch { is_on: on, ..self }
    }

    open spec fn serial_out(&self) -> Seq<u8> {
        self.frame()
    }

    open spec fn web_out(&self) -> Seq<WebMsgView> {
        Seq::empty()
    }

    open spec fn flush_ok(&self, serial_up: bool, web_up: bool) -> bool {
        serial_up
    }

    fn is_on(&self) -> (r: Result<bool, ControllerError>) {
        Ok(self.is_on)
    }

    fn is_off(&self) -> (r: Result<bool, ControllerError>) {
        Ok(!self.is_on)
    }

    fn on(&mut self, serial: &mut SerialChannel, web: &mut WebController) -> (r: Result<
        (),
        ControllerError,
    >) {
        let r = self.switch(true, serial);
        proof {
            lemma_web_effect_empty(*web);
        }
        r
    }

    fn off(&mut self, serial: &mut SerialChannel, web: &mut WebController) -> (r: Result<
        (),
        ControllerError,
    >) {
        let r = self.switch(false, serial);
        proof {
            lemma_web_effect_empty(*web);
        }
        r
    }

    fn toggle(&mut self, serial: &mut SerialChannel, web: &mut WebController) -> (r: Result<
        bool,
        ControllerError,
    >) {
        let target = !self.is_on;
        let r = self.switch(target, serial);
        proof {
            lemma_web_effect_empty(*web);
        }
        match r {
            Ok(()) => Ok(target),
            Err(e) => Err(e),
        }
    }

    fn flush(&self, serial: &mut SerialChannel, web: &mut WebController) -> (r: Result<
        (),
        ControllerError,
    >) {
        let r = self.flush(serial);
        proof {
            lemma_web_effect_empty(*web);
        }
        r
    }
}

impl Device for SerialDimmer {
    open spec fn dev_wf(&self) -> bool {
        self.wf()
    }

    open spec fn guard_ok(&self) -> bool {
        !self.poisoned
    }

    open spec fn on_state(&self) -> bool {
        self.is_on
    }

    open spec fn with_on(self, on: bool) -> Self {
        SerialDimmer { is_on: on, ..self }
    }

    open spec fn serial_out(&self) -> Seq<u8> {
        self.frame()
    }

    open spec fn web_out(&self) -> Seq<WebMsgView> {
        Seq::empty()
    }

    open spec fn flush_ok(&self, serial_up: bool, web_up: bool) -> bool {
        serial_up
    }

    fn is_on(&self) -> (r: Result<bool, ControllerError>) {
        if self.poisoned {
            Err(ControllerError::GuardFailure)
        } else {
            Ok(self.is_on)
        }
    }

    fn is_off(&self) -> (r: Result<bool, ControllerError>) {
        if self.poisoned {
            Err(ControllerError::GuardFailure)
        } else {
            Ok(!self.is_on)
        }
    }

    fn on(&mut self, serial: &mut SerialChannel, web: &mut WebController) -> (r: Result<
        (),
        ControllerError,
    >) {
        let r = self.switch(true, serial);
        proof {
            lemma_web_effect_empty(*web);
        }
        r
    }

    fn off(&mut self, serial: &mut SerialChannel, web: &mut WebController) -> (r: Result<
        (),
        ControllerError,
    >) {
        let r = self.switch(false, serial);
        proof {
            lemma_web_effect_empty(*web);
        }
        r
    }

    fn toggle(&mut self, serial: &mut SerialChannel, web: &mut WebController) -> (r: Result<
        bool,
        ControllerError,
    >) {
        if self.poisoned {
            return Err(ControllerError::GuardFailure);
        }
        let target = !self.is_on;
        let r = self.switch(target, serial);
        proof {
            lemma_web_effect_empty(*web);
        }
        match r {
            Ok(()) => Ok(target),
            Err(e) => Err(e),
        }
    }

    fn flush(&self, serial: &mut SerialChannel, web: &mut WebController) -> (r: Result<
        (),
        ControllerError,
    >) {
        let r = self.flush(serial);
        proof {
            lemma_web_effect_empty(*web);
        }
        r
    }
}

impl Device for WebDevice {
    open spec fn dev_wf(&self) -> bool {
        self.wf()
    }

    open spec fn guard_ok(&self) -> bool {
        !self.poisoned
    }

    open spec fn on_state(&self) -> bool {
        self.is_on
    }

    open spec fn with_on(self, on: bool) -> Self {
        WebDevice { is_on: on, ..self }
    }

    open spec fn serial_out(&self) -> Seq<u8> {
        Seq::empty()
    }

    open spec fn web_out(&self) -> Seq<WebMsgView> {
        seq![self.msg()]
    }

    open spec fn flush_ok(&self, serial_up: bool, web_up: bool) -> bool {
        web_up
    }

    fn is_on(&self) -> (r: Result<bool, ControllerError>) {
        if self.poisoned {
            Err(ControllerError::GuardFailure)
        } else {
            Ok(self.is_on)
        }
    }

    fn is_off(&self) -> (r: Result<bool, ControllerError>) {
        if self.poisoned {
            Err(ControllerError::GuardFailure)
        } else {
            Ok(!self.is_on)
        }
    }

    fn on(&mut self, serial: &mut SerialChannel, web: &mut WebController) -> (r: Result<
        (),
        ControllerError,
    >) {
        let r = self.switch(true, web);
        proof {
            lemma_serial_effect_empty(*serial);
        }
        r
    }

    fn off(&mut self, serial: &mut SerialChannel, web: &mut WebController) -> (r: Result<
        (),
        ControllerError,
    >) {
        let r = self.switch(false, web);
        proof {
            lemma_serial_effect_empty(*serial);
        }
        r
    }

    fn toggle(&mut self, serial: &mut SerialChannel, web: &mut WebController) -> (r: Result<
        bool,
        ControllerError,
    >) {
        if self.poisoned {
            return Err(ControllerError::GuardFailure);
        }
        let target = !self.is_on;
        let r = self.switch(target, web);
        proof {
            lemma_serial_effect_empty(*serial);
        }
        match r {
            Ok(()) => Ok(target),
            Err(e) => Err(e),
        }
    }

    fn flush(&self, serial: &mut SerialChannel, web: &mut WebController) -> (r: Result<
        (),
        ControllerError,
    >) {
        let r = self.flush(web);
        proof {
            lemma_serial_effect_empty(*serial);
        }
        r
    }
}

} // verus!
