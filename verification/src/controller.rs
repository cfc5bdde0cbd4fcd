//! The error model, the device capability trait, and the registry.
//!
//! The registry is the process-wide arena of device records. Everything
//! that needs to act on a device later (switch bindings, the sensor
//! aggregator, delayed actions) keeps the device's identifier and resolves
//! it here; a lookup of an unknown identifier is a no-op for every caller,
//! never a crash. Duplicate identifiers are permitted: a later registration
//! shadows an earlier one for lookup, but both records stay alive.

use vstd::prelude::*;
use crate::devices::{
    DeviceType, SerialDimmer, SerialSwitch, StateDoc, WebDevice, serial_effect, web_effect,
    lemma_serial_effect_empty, lemma_web_effect_empty,
};
use crate::web::{WebController, WebMsgView};
use crate::wire::SerialChannel;

verus! {

/// The one reportable error type of the engine.
///
/// - `GuardFailure`: a shared-state lock was found poisoned by an earlier
///   holder; the operation is refused rather than run on possibly corrupt
///   state.
/// - `TransportFailure`: the serial channel or the remote transport failed
///   to deliver a write. The logical state change that preceded the write
///   still stands; the frame is lost and never retried.
/// - `UpdateRejected`: a state document carried a brightness outside the
///   0-100 range and was not applied.
#[derive(Clone, Copy, PartialEq, Eq, Structural, Debug)]
pub enum ControllerError {
    GuardFailure,
    TransportFailure,
    UpdateRejected,
}

/// The capability set every controllable entity supports: state queries,
/// unconditional state changes (each folded into a flush), and a bare flush
/// that re-emits current state without changing it.
pub trait Device: Sized {
    /// Internal consistency of the record (brightness range, hardware range).
    spec fn dev_wf(&self) -> bool;

    /// Whether the state lock is healthy; a device whose lock was poisoned
    /// refuses every operation with `GuardFailure`.
    spec fn guard_ok(&self) -> bool;

    /// The logical on/off state.
    spec fn on_state(&self) -> bool;

    /// The record after an unconditional switch; nothing else changes.
    spec fn with_on(self, on: bool) -> Self;

    /// The bytes one flush writes to the serial channel (empty for remote
    /// devices).
    spec fn serial_out(&self) -> Seq<u8>;

    /// The commands one flush publishes on the remote transport (empty for
    /// serial devices).
    spec fn web_out(&self) -> Seq<WebMsgView>;

    /// Whether a flush succeeds given the health of the two transports.
    spec fn flush_ok(&self, serial_up: bool, web_up: bool) -> bool;

    fn is_on(&self) -> (r: Result<bool, ControllerError>)
        requires
            self.dev_wf(),
        ensures
            match r {
                Ok(b) => self.guard_ok() && b == self.on_state(),
                Err(e) => !self.guard_ok() && e == ControllerError::GuardFailure,
            },
    ;

    fn is_off(&self) -> (r: Result<bool, ControllerError>)
        requires
            self.dev_wf(),
        ensures
            match r {
                Ok(b) => self.guard_ok() && b == !self.on_state(),
                Err(e) => !self.guard_ok() && e == ControllerError::GuardFailure,
            },
    ;

    fn on(&mut self, serial: &mut SerialChannel, web: &mut WebController) -> (r: Result<
        (),
        ControllerError,
    >)
        requires
            old(self).dev_wf(),
        ensures
            final(self).dev_wf(),
            !old(self).guard_ok() ==> *final(self) == *old(self) && *final(serial) == *old(serial)
                && *final(web) == *old(web) && r matches Err(ControllerError::GuardFailure),
            old(self).guard_ok() ==> *final(self) == old(self).with_on(true) && serial_effect(
                *old(serial),
                *final(serial),
                final(self).serial_out(),
            ) && web_effect(*old(web), *final(web), final(self).web_out()) && (
            r is Ok <==> final(self).flush_ok(old(serial).connected, old(web).connected)) && (
            r is Err ==> r matches Err(ControllerError::TransportFailure)),
    ;

    fn off(&mut self, serial: &mut SerialChannel, web: &mut WebController) -> (r: Result<
        (),
        ControllerError,
    >)
        requires
            old(self).dev_wf(),
        ensures
            final(self).dev_wf(),
            !old(self).guard_ok() ==> *final(self) == *old(self) && *final(serial) == *old(serial)
                && *final(web) == *old(web) && r matches Err(ControllerError::GuardFailure),
            old(self).guard_ok() ==> *final(self) == old(self).with_on(false) && serial_effect(
                *old(serial),
                *final(serial),
                final(self).serial_out(),
            ) && web_effect(*old(web), *final(web), final(self).web_out()) && (
            r is Ok <==> final(self).flush_ok(old(serial).connected, old(web).connected)) && (
            r is Err ==> r matches Err(ControllerError::TransportFailure)),
    ;

    fn toggle(&mut self, serial: &mut SerialChannel, web: &mut WebController) -> (r: Result<
        bool,
        ControllerError,
    >)
        requires
            old(self).dev_wf(),
        ensures
            final(self).dev_wf(),
            !old(self).guard_ok() ==> *final(self) == *old(self) && *final(serial) == *old(serial)
                && *final(web) == *old(web) && r matches Err(ControllerError::GuardFailure),
            old(self).guard_ok() ==> *final(self) == old(self).with_on(!old(self).on_state())
                && serial_effect(*old(serial), *final(serial), final(self).serial_out())
                && web_effect(*old(web), *final(web), final(self).web_out()) && (
            r is Ok <==> final(self).flush_ok(old(serial).connected, old(web).connected)) && (
            r matches Ok(b) ==> b == !old(self).on_state()) && (r is Err
                ==> r matches Err(ControllerError::TransportFailure)),
    ;

    fn flush(&self, serial: &mut SerialChannel, web: &mut WebController) -> (r: Result<
        (),
        ControllerError,
    >)
        requires
            self.dev_wf(),
        ensures
            !self.guard_ok() ==> *final(serial) == *old(serial) && *final(web) == *old(web)
                && r matches Err(ControllerError::GuardFailure),
            self.guard_ok() ==> serial_effect(*old(serial), *final(serial), self.serial_out())
                && web_effect(*old(web), *final(web), self.web_out()) && (
            r is Ok <==> self.flush_ok(old(serial).connected, old(web).connected)) && (
            r is Err ==> r matches Err(ControllerError::TransportFailure)),
    ;
}

/// One registered device record: a serial switch, a serial dimmer, or a
/// remote device.
pub enum DeviceEntry {
    SerialSwitch(SerialSwitch),
    SerialDimmer(SerialDimmer),
    Web(WebDevice),
}

/// A state mutation that can be aimed at any device, now or later from the
/// delayed-action scheduler. Brightness arguments are logical percentages.
#[derive(Clone, Copy, PartialEq, Eq, Structural, Debug)]
pub enum DeviceAction {
    /// Unconditionally set on/off and flush.
    SetOn(bool),
    /// Store a new brightness without flushing.
    SetPower(u8),
    /// Store a new brightness, set on/off, and flush once.
    SetState(bool, u8),
    /// Switch off (flushing the off state), then store a brightness for the
    /// next time the device is turned on.
    OffThenPower(u8),
}

pub open spec fn action_wf(a: DeviceAction) -> bool {
    match a {
        DeviceAction::SetOn(_) => true,
        DeviceAction::SetPower(p) => p <= 100,
        DeviceAction::SetState(_, p) => p <= 100,
        DeviceAction::OffThenPower(p) => p <= 100,
    }
}

impl DeviceEntry {
    pub open spec fn entry_wf(&self) -> bool {
        match self {
            DeviceEntry::SerialSwitch(_) => true,
            DeviceEntry::SerialDimmer(d) => d.wf(),
            DeviceEntry::Web(d) => d.wf(),
        }
    }

    pub open spec fn spec_id(&self) -> Seq<char> {
        match self {
            DeviceEntry::SerialSwitch(d) => d.id@,
            DeviceEntry::SerialDimmer(d) => d.id@,
            DeviceEntry::Web(d) => d.id@,
        }
    }

    pub open spec fn guard_ok(&self) -> bool {
        match self {
            DeviceEntry::SerialSwitch(_) => true,
            DeviceEntry::SerialDimmer(d) => !d.poisoned,
            DeviceEntry::Web(d) => !d.poisoned,
        }
    }

    pub open spec fn on_state(&self) -> bool {
        match self {
            DeviceEntry::SerialSwitch(d) => d.is_on,
            DeviceEntry::SerialDimmer(d) => d.is_on,
            DeviceEntry::Web(d) => d.is_on,
        }
    }

    pub open spec fn with_on(self, on: bool) -> DeviceEntry {
        match self {
            DeviceEntry::SerialSwitch(d) => DeviceEntry::SerialSwitch(
                SerialSwitch { is_on: on, ..d },
            ),
            DeviceEntry::SerialDimmer(d) => DeviceEntry::SerialDimmer(
                SerialDimmer { is_on: on, ..d },
            ),
            DeviceEntry::Web(d) => DeviceEntry::Web(WebDevice { is_on: on, ..d }),
        }
    }

    /// Brightness after a set-power: the boolean-only devices have none and
    /// ignore it.
    pub open spec fn with_power(self, power: u8) -> DeviceEntry {
        match self {
            DeviceEntry::SerialSwitch(d) => DeviceEntry::SerialSwitch(d),
            DeviceEntry::SerialDimmer(d) => DeviceEntry::SerialDimmer(
                SerialDimmer { brightness: power, ..d },
            ),
            DeviceEntry::Web(d) => if d.dimmable() {
                DeviceEntry::Web(WebDevice { brightness: power, ..d })
            } else {
                DeviceEntry::Web(d)
            },
        }
    }

    /// The bytes one flush of this record writes to the serial channel.
    pub open spec fn serial_frame(&self) -> Seq<u8> {
        match self {
            DeviceEntry::SerialSwitch(d) => d.frame(),
            DeviceEntry::SerialDimmer(d) => d.frame(),
            DeviceEntry::Web(_) => Seq::empty(),
        }
    }

    /// The commands one flush of this record publishes remotely.
    pub open spec fn web_msgs(&self) -> Seq<WebMsgView> {
        match self {
            DeviceEntry::SerialSwitch(_) => Seq::empty(),
            DeviceEntry::SerialDimmer(_) => Seq::empty(),
            DeviceEntry::Web(d) => seq![d.msg()],
        }
    }

    pub fn id(&self) -> (r: &str)
        ensures
            r@ == self.spec_id(),
    {
        match self {
            DeviceEntry::SerialSwitch(d) => d.id.as_str(),
            DeviceEntry::SerialDimmer(d) => d.id.as_str(),
            DeviceEntry::Web(d) => d.id.as_str(),
        }
    }

    pub fn dev_type(&self) -> (t: DeviceType)
        ensures
            t == match self {
                DeviceEntry::SerialSwitch(_) => DeviceType::SerialSwitch,
                DeviceEntry::SerialDimmer(_) => DeviceType::SerialDimmer,
                DeviceEntry::Web(d) => d.dev_type,
            },
    {
        match self {
            DeviceEntry::SerialSwitch(_) => DeviceType::SerialSwitch,
            DeviceEntry::SerialDimmer(_) => DeviceType::SerialDimmer,
            DeviceEntry::Web(d) => d.dev_type,
        }
    }

    pub fn is_on(&self) -> (r: Result<bool, ControllerError>)
        requires
            self.entry_wf(),
        ensures
            match r {
                Ok(b) => self.guard_ok() && b == self.on_state(),
                Err(e) => !self.guard_ok() && e == ControllerError::GuardFailure,
            },
    {
        match self {
            DeviceEntry::SerialSwitch(d) => Device::is_on(d),
            DeviceEntry::SerialDimmer(d) => Device::is_on(d),
            DeviceEntry::Web(d) => Device::is_on(d),
        }
    }
}

/// The record after one action, on healthy state. A poisoned lock refuses
/// the action and leaves the record as it was.
pub open spec fn apply_spec(d: DeviceEntry, a: DeviceAction) -> DeviceEntry {
    if !d.guard_ok() {
        d
    } else {
        match a {
            DeviceAction::SetOn(o) => d.with_on(o),
            DeviceAction::SetPower(p) => d.with_power(p),
            DeviceAction::SetState(o, p) => d.with_power(p).with_on(o),
            DeviceAction::OffThenPower(p) => d.with_on(false).with_power(p),
        }
    }
}

/// The bytes one action writes on a healthy serial channel. A set-power
/// alone does not flush; the off-then-power action flushes the off state
/// before storing the new brightness.
pub open spec fn action_serial(d: DeviceEntry, a: DeviceAction) -> Seq<u8> {
    if !d.guard_ok() {
        Seq::empty()
    } else {
        match a {
            DeviceAction::SetOn(o) => d.with_on(o).serial_frame(),
            DeviceAction::SetPower(_) => Seq::empty(),
            DeviceAction::SetState(o, p) => d.with_power(p).with_on(o).serial_frame(),
            DeviceAction::OffThenPower(_) => d.with_on(false).serial_frame(),
        }
    }
}

/// The commands one action publishes on a healthy remote transport.
pub open spec fn action_web(d: DeviceEntry, a: DeviceAction) -> Seq<WebMsgView> {
    if !d.guard_ok() {
        Seq::empty()
    } else {
        match a {
            DeviceAction::SetOn(o) => d.with_on(o).web_msgs(),
            DeviceAction::SetPower(_) => Seq::empty(),
            DeviceAction::SetState(o, p) => d.with_power(p).with_on(o).web_msgs(),
            DeviceAction::OffThenPower(_) => d.with_on(false).web_msgs(),
        }
    }
}

/// Whether the action's writes all get through, given the health of the two
/// transports; an action that flushes nothing always succeeds.
pub open spec fn action_ok(d: DeviceEntry, a: DeviceAction, serial_up: bool, web_up: bool) -> bool {
    match a {
        DeviceAction::SetPower(_) => true,
        _ => match d {
            DeviceEntry::SerialSwitch(_) => serial_up,
            DeviceEntry::SerialDimmer(_) => serial_up,
            DeviceEntry::Web(_) => web_up,
        },
    }
}

impl DeviceEntry {
    /// Runs one action against this record: the state change always stands
    /// (unless the guard is poisoned), and the flush it folds in is
    /// reported but never retried.
    pub fn apply(
        &mut self,
        action: DeviceAction,
        serial: &mut SerialChannel,
        web: &mut WebController,
    ) -> (r: Result<(), ControllerError>)
        requires
            old(self).entry_wf(),
            action_wf(action),
        ensures
            final(self).entry_wf(),
            *final(self) == apply_spec(*old(self), action),
            serial_effect(*old(serial), *final(serial), action_serial(*old(self), action)),
            web_effect(*old(web), *final(web), action_web(*old(self), action)),
            r is Ok <==> old(self).guard_ok() && action_ok(
                *old(self),
                action,
                old(serial).connected,
                old(web).connected,
            ),
            !old(self).guard_ok() ==> r matches Err(ControllerError::GuardFailure),
            old(self).guard_ok() && r is Err ==> r matches Err(ControllerError::TransportFailure),
    {
        proof {
            lemma_serial_effect_empty(*serial);
            lemma_web_effect_empty(*web);
        }
        match self {
            DeviceEntry::SerialSwitch(d) => {
                let r = match action {
                    DeviceAction::SetOn(o) => d.switch(o, serial),
                    DeviceAction::SetPower(_) => Ok(()),
                    DeviceAction::SetState(o, _) => d.switch(o, serial),
                    DeviceAction::OffThenPower(_) => d.switch(false, serial),
                };
                r
            },
            DeviceEntry::SerialDimmer(d) => {
                match action {
                    DeviceAction::SetOn(o) => d.switch(o, serial),
                    DeviceAction::SetPower(p) => d.set_power(p),
                    DeviceAction::SetState(o, p) => {
                        match d.set_power(p) {
                            Err(e) => Err(e),
                            Ok(()) => d.switch(o, serial),
                        }
                    },
                    DeviceAction::OffThenPower(p) => {
                        let r1 = d.switch(false, serial);
                        match r1 {
                            Err(ControllerError::GuardFailure) => Err(
                                ControllerError::GuardFailure,
                            ),
                            other => {
                                let _set = d.set_power(p);
                                other
                            },
                        }
                    },
                }
            },
            DeviceEntry::Web(d) => {
                match action {
                    DeviceAction::SetOn(o) => d.switch(o, web),
                    DeviceAction::SetPower(p) => d.set_power(p),
                    DeviceAction::SetState(o, p) => {
                        match d.set_power(p) {
                            Err(e) => Err(e),
                            Ok(()) => d.switch(o, web),
                        }
                    },
                    DeviceAction::OffThenPower(p) => {
                        let r1 = d.switch(false, web);
                        match r1 {
                            Err(ControllerError::GuardFailure) => Err(
                                ControllerError::GuardFailure,
                            ),
                            other => {
                                let _set = d.set_power(p);
                                other
                            },
                        }
                    },
                }
            },
        }
    }
}

/// Whether a state document is refused outright: a present brightness
/// outside 0-100, aimed at a device that recognizes the field.
pub open spec fn update_rejected(d: DeviceEntry, doc: StateDoc) -> bool {
    &&& doc.brightness matches Some(b) && b > 100
    &&& match d {
        DeviceEntry::SerialSwitch(_) => false,
        DeviceEntry::SerialDimmer(_) => true,
        DeviceEntry::Web(w) => w.dimmable(),
    }
}

/// The record after a partial update: recognized fields present in the
/// document are applied, everything else is left untouched, and a poisoned
/// guard or a rejected document changes nothing.
pub open spec fn update_spec(d: DeviceEntry, doc: StateDoc) -> DeviceEntry {
    if !d.guard_ok() || update_rejected(d, doc) {
        d
    } else {
        let mid = if doc.brightness is Some {
            d.with_power(doc.brightness->0 as u8)
        } else {
            d
        };
        match doc.is_on {
            Some(o) => mid.with_on(o),
            None => mid,
        }
    }
}

/// The serial bytes an update writes: only a document that carries `is_on`
/// flushes, with the document already applied.
pub open spec fn update_bytes(d: DeviceEntry, doc: StateDoc) -> Seq<u8> {
    if !d.guard_ok() || update_rejected(d, doc) || doc.is_on is None {
        Seq::empty()
    } else {
        update_spec(d, doc).serial_frame()
    }
}

/// The remote commands an update publishes.
pub open spec fn update_msgs(d: DeviceEntry, doc: StateDoc) -> Seq<WebMsgView> {
    if !d.guard_ok() || update_rejected(d, doc) || doc.is_on is None {
        Seq::empty()
    } else {
        update_spec(d, doc).web_msgs()
    }
}

/// The state document one load reports: every device has `is_on`, only the
/// dimmable ones report a brightness.
pub open spec fn load_doc(d: DeviceEntry) -> StateDoc {
    match d {
        DeviceEntry::SerialSwitch(x) => StateDoc { is_on: Some(x.is_on), brightness: None },
        DeviceEntry::SerialDimmer(x) => StateDoc {
            is_on: Some(x.is_on),
            brightness: Some(x.brightness as u64),
        },
        DeviceEntry::Web(x) => if x.dimmable() {
            StateDoc { is_on: Some(x.is_on), brightness: Some(x.brightness as u64) }
        } else {
            StateDoc { is_on: Some(x.is_on), brightness: None }
        },
    }
}

impl DeviceEntry {
    /// Snapshot of the record's state document.
    pub fn load(&self) -> (r: Result<StateDoc, ControllerError>)
        requires
            self.entry_wf(),
        ensures
            !self.guard_ok() ==> r matches Err(ControllerError::GuardFailure),
            self.guard_ok() ==> r == Ok::<StateDoc, ControllerError>(load_doc(*self)),
    {
        match self {
            DeviceEntry::SerialSwitch(d) => Ok(d.load()),
            DeviceEntry::SerialDimmer(d) => d.load(),
            DeviceEntry::Web(d) => d.load(),
        }
    }

    /// Applies a partial state document; a present `is_on` folds in a flush.
    pub fn update(
        &mut self,
        doc: &StateDoc,
        serial: &mut SerialChannel,
        web: &mut WebController,
    ) -> (r: Result<(), ControllerError>)
        requires
            old(self).entry_wf(),
        ensures
            final(self).entry_wf(),
            *final(self) == update_spec(*old(self), *doc),
            serial_effect(*old(serial), *final(serial), update_bytes(*old(self), *doc)),
            web_effect(*old(web), *final(web), update_msgs(*old(self), *doc)),
            !old(self).guard_ok() ==> r matches Err(ControllerError::GuardFailure),
            old(self).guard_ok() && update_rejected(*old(self), *doc) ==> r matches Err(
                ControllerError::UpdateRejected,
            ),
            old(self).guard_ok() && !update_rejected(*old(self), *doc) && doc.is_on is None
                ==> r is Ok,
            old(self).guard_ok() && !update_rejected(*old(self), *doc) && doc.is_on is Some ==> (
            r is Ok <==> action_ok(
                *old(self),
                DeviceAction::SetOn(true),
                old(serial).connected,
                old(web).connected,
            )) && (r is Err ==> r matches Err(ControllerError::TransportFailure)),
    {
        proof {
            lemma_serial_effect_empty(*serial);
            lemma_web_effect_empty(*web);
        }
        match self {
            DeviceEntry::SerialSwitch(d) => d.update(doc, serial),
            DeviceEntry::SerialDimmer(d) => d.update(doc, serial),
            DeviceEntry::Web(d) => d.update(doc, web),
        }
    }
}

/// The index of the device that a lookup of `id` resolves to: the last
/// registration wins, so a duplicate identifier shadows earlier records.
pub open spec fn find_last(devs: Seq<DeviceEntry>, id: Seq<char>) -> Option<int>
    decreases devs.len(),
{
    if devs.len() == 0 {
        None
    } else if devs[devs.len() - 1].spec_id() == id {
        Some(devs.len() - 1)
    } else {
        find_last(devs.take(devs.len() - 1), id)
    }
}

/// `find_last` resolves to the greatest matching index, and to nothing
/// exactly when no record carries the identifier.
pub proof fn lemma_find_last(devs: Seq<DeviceEntry>, id: Seq<char>)
    ensures
        match find_last(devs, id) {
            Some(i) => 0 <= i < devs.len() && devs[i].spec_id() == id && (forall|j: int|
                i < j < devs.len() ==> devs[j].spec_id() != id),
            None => forall|j: int| 0 <= j < devs.len() ==> devs[j].spec_id() != id,
        },
    decreases devs.len(),
{
    if devs.len() > 0 {
        let prefix = devs.take(devs.len() - 1);
        if devs[devs.len() - 1].spec_id() == id {
        } else {
            lemma_find_last(prefix, id);
            assert(forall|j: int| 0 <= j < prefix.len() ==> prefix[j] == devs[j]);
        }
    }
}

/// The process-wide registry of devices, keyed by identifier.
pub struct DeviceHolder {
    pub devices: Vec<DeviceEntry>,
}

/// The registry after one action aimed at `id`: the resolved record is
/// transformed, everything else is untouched, and an unknown identifier
/// changes nothing.
pub open spec fn apply_to_devs(devs: Seq<DeviceEntry>, id: Seq<char>, action: DeviceAction) -> Seq<
    DeviceEntry,
> {
    match find_last(devs, id) {
        Some(i) => devs.update(i, apply_spec(devs[i], action)),
        None => devs,
    }
}

/// The serial bytes that action writes (none for an unknown identifier).
pub open spec fn apply_to_bytes(devs: Seq<DeviceEntry>, id: Seq<char>, action: DeviceAction) -> Seq<
    u8,
> {
    match find_last(devs, id) {
        Some(i) => action_serial(devs[i], action),
        None => Seq::empty(),
    }
}

/// The remote commands that action publishes (none for an unknown
/// identifier).
pub open spec fn apply_to_msgs(devs: Seq<DeviceEntry>, id: Seq<char>, action: DeviceAction) -> Seq<
    WebMsgView,
> {
    match find_last(devs, id) {
        Some(i) => action_web(devs[i], action),
        None => Seq::empty(),
    }
}

/// Every record transformed by one action, in place.
pub open spec fn apply_all_spec(devs: Seq<DeviceEntry>, a: DeviceAction) -> Seq<DeviceEntry> {
    Seq::new(devs.len(), |i: int| apply_spec(devs[i], a))
}

/// The serial bytes a whole-registry action writes, in registration order.
pub open spec fn serial_trace(devs: Seq<DeviceEntry>, a: DeviceAction) -> Seq<u8>
    decreases devs.len(),
{
    if devs.len() == 0 {
        Seq::empty()
    } else {
        serial_trace(devs.take(devs.len() - 1), a) + action_serial(devs[devs.len() - 1], a)
    }
}

/// The remote commands a whole-registry action publishes, in order.
pub open spec fn web_trace(devs: Seq<DeviceEntry>, a: DeviceAction) -> Seq<WebMsgView>
    decreases devs.len(),
{
    if devs.len() == 0 {
        Seq::empty()
    } else {
        web_trace(devs.take(devs.len() - 1), a) + action_web(devs[devs.len() - 1], a)
    }
}

impl DeviceHolder {
    pub open spec fn wf(&self) -> bool {
        forall|i: int| 0 <= i < self.devices@.len() ==> (#[trigger] self.devices@[i]).entry_wf()
    }

    pub fn new() -> (h: DeviceHolder)
        ensures
            h.devices@ == Seq::<DeviceEntry>::empty(),
            h.wf(),
    {
        DeviceHolder { devices: Vec::new() }
    }

    /// Registers one more device. Duplicates are permitted; the newcomer
    /// shadows older records with the same identifier for lookup.
    pub fn register(&mut self, d: DeviceEntry)
        requires
            old(self).wf(),
            d.entry_wf(),
        ensures
            final(self).wf(),
            final(self).devices@ == old(self).devices@ + seq![d],
    {
        self.devices.push(d);
    }

    /// The index `id` resolves to, if any record carries it.
    fn find_idx(&self, id: &str) -> (r: Option<usize>)
        ensures
            match r {
                Some(k) => find_last(self.devices@, id@) == Some(k as int),
                None => find_last(self.devices@, id@) is None,
            },
    {
        let key: String = id.to_owned();
        let n = self.devices.len();
        let mut k: usize = n;
        proof {
            assert(self.devices@.take(n as int) =~= self.devices@);
        }
        while k > 0
            invariant
                k <= n,
                n == self.devices@.len(),
                key@ == id@,
                find_last(self.devices@, id@) == find_last(self.devices@.take(k as int), id@),
            decreases k,
        {
            k = k - 1;
            let dev_id: String = self.devices[k].id().to_owned();
            let ghost sub = self.devices@.take(k as int + 1);
            proof {
                assert(sub.len() == k + 1);
                assert(sub[k as int] == self.devices@[k as int]);
                assert(sub.take(k as int) =~= self.devices@.take(k as int));
            }
            if dev_id == key {
                proof {
                    assert(find_last(sub, id@) == Some(k as int));
                }
                return Some(k);
            }
        }
        None
    }

    /// Looks a device up by identifier; an unknown identifier yields
    /// nothing, which every caller treats as a no-op.
    pub fn get(&self, id: &str) -> (r: Option<&DeviceEntry>)
        ensures
            match find_last(self.devices@, id@) {
                Some(i) => r matches Some(d) && *d == self.devices@[i],
                None => r is None,
            },
    {
        match self.find_idx(id) {
            Some(k) => {
                proof {
                    lemma_find_last(self.devices@, id@);
                }
                Some(&self.devices[k])
            },
            None => None,
        }
    }

    /// Runs one action against the device `id` resolves to. An unknown
    /// identifier mutates nothing and is not an error; a poisoned or
    /// unreachable device reports its failure without touching any other
    /// record.
    pub fn apply_to(
        &mut self,
        id: &str,
        action: DeviceAction,
        serial: &mut SerialChannel,
        web: &mut WebController,
    ) -> (r: Result<(), ControllerError>)
        requires
            old(self).wf(),
            action_wf(action),
        ensures
            final(self).wf(),
            final(self).devices@ == apply_to_devs(old(self).devices@, id@, action),
            serial_effect(*old(serial), *final(serial), apply_to_bytes(old(self).devices@, id@, action)),
            web_effect(*old(web), *final(web), apply_to_msgs(old(self).devices@, id@, action)),
            match find_last(old(self).devices@, id@) {
                Some(i) => (r is Ok <==> old(self).devices@[i].guard_ok() && action_ok(
                    old(self).devices@[i],
                    action,
                    old(serial).connected,
                    old(web).connected,
                )) && (!old(self).devices@[i].guard_ok() ==> r matches Err(
                    ControllerError::GuardFailure,
                )) && (old(self).devices@[i].guard_ok() && r is Err ==> r matches Err(
                    ControllerError::TransportFailure,
                )),
                None => r is Ok,
            },
    {
        proof {
            lemma_serial_effect_empty(*serial);
            lemma_web_effect_empty(*web);
        }
        match self.find_idx(id) {
            Some(k) => {
                proof {
                    lemma_find_last(self.devices@, id@);
                }
                let r = self.devices[k].apply(action, serial, web);
                proof {
                    assert forall|i: int| 0 <= i < self.devices@.len() implies (
                    #[trigger] self.devices@[i]).entry_wf() by {
                        if i != k {
                            assert(self.devices@[i] == old(self).devices@[i]);
                        }
                    }
                }
                r
            },
            None => Ok(()),
        }
    }

    /// Sets on/off and brightness in one call, flushed once.
    pub fn set_state(
        &mut self,
        id: &str,
        is_on: bool,
        power: u8,
        serial: &mut SerialChannel,
        web: &mut WebController,
    ) -> (r: Result<(), ControllerError>)
        requires
            old(self).wf(),
            power <= 100,
        ensures
            final(self).wf(),
            final(self).devices@ == apply_to_devs(
                old(self).devices@,
                id@,
                DeviceAction::SetState(is_on, power),
            ),
            serial_effect(
                *old(serial),
                *final(serial),
                apply_to_bytes(old(self).devices@, id@, DeviceAction::SetState(is_on, power)),
            ),
            web_effect(
                *old(web),
                *final(web),
                apply_to_msgs(old(self).devices@, id@, DeviceAction::SetState(is_on, power)),
            ),
            match find_last(old(self).devices@, id@) {
                Some(i) => (r is Ok <==> old(self).devices@[i].guard_ok() && action_ok(
                    old(self).devices@[i],
                    DeviceAction::SetState(is_on, power),
                    old(serial).connected,
                    old(web).connected,
                )) && (!old(self).devices@[i].guard_ok() ==> r matches Err(
                    ControllerError::GuardFailure,
                )) && (old(self).devices@[i].guard_ok() && r is Err ==> r matches Err(
                    ControllerError::TransportFailure,
                )),
                None => r is Ok,
            },
    {
        self.apply_to(id, DeviceAction::SetState(is_on, power), serial, web)
    }

    /// Stores a new brightness on the device `id` resolves to, unflushed.
    pub fn set_power(
        &mut self,
        id: &str,
        power: u8,
        serial: &mut SerialChannel,
        web: &mut WebController,
    ) -> (r: Result<(), ControllerError>)
        requires
            old(self).wf(),
            power <= 100,
        ensures
            final(self).wf(),
            serial_effect(*old(serial), *final(serial), Seq::<u8>::empty()),
            web_effect(*old(web), *final(web), Seq::<WebMsgView>::empty()),
            final(self).devices@ == apply_to_devs(
                old(self).devices@,
                id@,
                DeviceAction::SetPower(power),
            ),
    {
        let r = self.apply_to(id, DeviceAction::SetPower(power), serial, web);
        proof {
            assert(apply_to_bytes(old(self).devices@, id@, DeviceAction::SetPower(power))
                =~= Seq::<u8>::empty());
            assert(apply_to_msgs(old(self).devices@, id@, DeviceAction::SetPower(power))
                =~= Seq::<WebMsgView>::empty());
        }
        r
    }

    /// Applies a partial state document to the device `id` resolves to. An
    /// unknown identifier is a no-op.
    pub fn update_device(
        &mut self,
        id: &str,
        doc: &StateDoc,
        serial: &mut SerialChannel,
        web: &mut WebController,
    ) -> (r: Result<(), ControllerError>)
        requires
            old(self).wf(),
        ensures
            final(self).wf(),
            match find_last(old(self).devices@, id@) {
                Some(i) => final(self).devices@ == old(self).devices@.update(
                    i,
                    update_spec(old(self).devices@[i], *doc),
                ) && serial_effect(
                    *old(serial),
                    *final(serial),
                    update_bytes(old(self).devices@[i], *doc),
                ) && web_effect(*old(web), *final(web), update_msgs(old(self).devices@[i], *doc)),
                None => *final(self) == *old(self) && *final(serial) == *old(serial) && *final(web)
                    == *old(web) && r is Ok,
            },
    {
        match self.find_idx(id) {
            Some(k) => {
                proof {
                    lemma_find_last(self.devices@, id@);
                }
                let r = self.devices[k].update(doc, serial, web);
                proof {
                    assert forall|i: int| 0 <= i < self.devices@.len() implies (
                    #[trigger] self.devices@[i]).entry_wf() by {
                        if i != k {
                            assert(self.devices@[i] == old(self).devices@[i]);
                        }
                    }
                }
                r
            },
            None => Ok(()),
        }
    }

    /// Loads the state document of the device `id` resolves to.
    pub fn load_device(&self, id: &str) -> (r: Option<Result<StateDoc, ControllerError>>)
        requires
            self.wf(),
        ensures
            match find_last(self.devices@, id@) {
                Some(i) => r matches Some(inner) && (self.devices@[i].guard_ok() ==> inner
                    == Ok::<StateDoc, ControllerError>(load_doc(self.devices@[i]))) && (
                !self.devices@[i].guard_ok() ==> inner matches Err(ControllerError::GuardFailure)),
                None => r is None,
            },
    {
        proof {
            lemma_find_last(self.devices@, id@);
        }
        match self.get(id) {
            Some(entry) => Some(entry.load()),
            None => None,
        }
    }

    /// Runs one action against every registered device, each exactly once,
    /// in registration order. One device's failure (a poisoned lock, a dead
    /// transport) never blocks the rest.
    pub fn for_each(
        &mut self,
        action: DeviceAction,
        serial: &mut SerialChannel,
        web: &mut WebController,
    )
        requires
            old(self).wf(),
            action_wf(action),
        ensures
            final(self).wf(),
            final(self).devices@ == apply_all_spec(old(self).devices@, action),
            serial_effect(*old(serial), *final(serial), serial_trace(old(self).devices@, action)),
            web_effect(*old(web), *final(web), web_trace(old(self).devices@, action)),
    {
        let n = self.devices.len();
        let mut k: usize = 0;
        proof {
            lemma_serial_effect_empty(*serial);
            lemma_web_effect_empty(*web);
            assert(serial_trace(old(self).devices@.take(0), action) =~= Seq::<u8>::empty());
            assert(web_trace(old(self).devices@.take(0), action) =~= Seq::<WebMsgView>::empty());
        }
        while k < n
            invariant
                k <= n,
                n == self.devices@.len(),
                old(self).devices@.len() == n,
                self.wf(),
                forall|i: int| k <= i < n ==> self.devices@[i] == old(self).devices@[i],
                forall|i: int|
                    0 <= i < k ==> self.devices@[i] == apply_spec(old(self).devices@[i], action),
                action_wf(action),
                serial_effect(
                    *old(serial),
                    *serial,
                    serial_trace(old(self).devices@.take(k as int), action),
                ),
                web_effect(*old(web), *web, web_trace(old(self).devices@.take(k as int), action)),
            decreases n - k,
        {
            let ghost pre_bytes = serial_trace(old(self).devices@.take(k as int), action);
            let ghost pre_msgs = web_trace(old(self).devices@.take(k as int), action);
            let ghost step_bytes = action_serial(old(self).devices@[k as int], action);
            let ghost step_msgs = action_web(old(self).devices@[k as int], action);
            let _step = self.devices[k].apply(action, serial, web);
            proof {
                let sub = old(self).devices@.take(k as int + 1);
                assert(sub.take(k as int) =~= old(self).devices@.take(k as int));
                assert(sub[k as int] == old(self).devices@[k as int]);
                assert(serial_trace(sub, action) == pre_bytes + step_bytes);
                assert(web_trace(sub, action) == pre_msgs + step_msgs);
                if old(serial).connected {
                    assert(serial.sent@ =~= old(serial).sent@ + (pre_bytes + step_bytes));
                }
                if old(web).connected {
                    assert(web.published_view() =~= old(web).published_view() + (pre_msgs
                        + step_msgs));
                }
            }
            k = k + 1;
        }
        proof {
            assert(old(self).devices@.take(n as int) =~= old(self).devices@);
            assert(self.devices@ =~= apply_all_spec(old(self).devices@, action));
        }
    }
}

/// A brightness-only state document never flips `is_on` and never flushes:
/// on a healthy lock it stores exactly the new brightness (a boolean-only
/// device ignores the field), and on a poisoned lock it changes nothing.
pub proof fn lemma_update_brightness_only(d: DeviceEntry, b: u64)
    requires
        b <= 100,
    ensures
        update_spec(d, StateDoc { is_on: None, brightness: Some(b) }).on_state() == d.on_state(),
        d.guard_ok() ==> update_spec(d, StateDoc { is_on: None, brightness: Some(b) })
            == d.with_power(b as u8),
        !d.guard_ok() ==> update_spec(d, StateDoc { is_on: None, brightness: Some(b) }) == d,
        update_bytes(d, StateDoc { is_on: None, brightness: Some(b) }) == Seq::<u8>::empty(),
        update_msgs(d, StateDoc { is_on: None, brightness: Some(b) }) == Seq::<
            WebMsgView,
        >::empty(),
{
}

/// A switch aimed at one record touches only that record: every other
/// record of the registry is untouched whatever happens, with a healthy
/// lock only the target's `is_on` changes, and the one frame it flushes is
/// addressed to the target's own port.
pub proof fn lemma_switch_touches_only_target(devs: Seq<DeviceEntry>, i: int, on: bool)
    requires
        0 <= i < devs.len(),
    ensures
        forall|j: int|
            0 <= j < devs.len() && j != i ==> devs.update(
                i,
                apply_spec(devs[i], DeviceAction::SetOn(on)),
            )[j] == devs[j],
        devs[i].guard_ok() ==> apply_spec(devs[i], DeviceAction::SetOn(on)) == devs[i].with_on(on),
        !devs[i].guard_ok() ==> devs.update(i, apply_spec(devs[i], DeviceAction::SetOn(on)))
            =~= devs,
        devs[i].guard_ok() ==> action_serial(devs[i], DeviceAction::SetOn(on)) == devs[i].with_on(
            on,
        ).serial_frame(),
        devs[i] is SerialDimmer && devs[i].guard_ok() ==> action_serial(
            devs[i],
            DeviceAction::SetOn(on),
        ) == seq![1u8, devs[i]->SerialDimmer_0.p_id, devs[i].with_on(on)->SerialDimmer_0.arg_spec() as u8],
        devs[i].guard_ok() ==> action_web(devs[i], DeviceAction::SetOn(on)) == devs[i].with_on(
            on,
        ).web_msgs(),
{
}

/// A guard failure is isolated: an action aimed at a device whose lock is
/// poisoned leaves that device's record as it was, and never corrupts or
/// blocks any other device's record.
pub proof fn lemma_guard_failure_isolated(
    devs: Seq<DeviceEntry>,
    i: int,
    action: DeviceAction,
)
    requires
        0 <= i < devs.len(),
        !devs[i].guard_ok(),
    ensures
        devs.update(i, apply_spec(devs[i], action)) =~= devs,
{
}

} // verus!
