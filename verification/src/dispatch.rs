//! Physical wall-switch dispatch: what effect an inbound switch event has.
//!
//! A switch binding maps a switch identifier to an effect: nothing, a
//! toggle of one or two bound devices, or one of the named scene handlers.
//! Unknown switch identifiers and unrecognized action words are logged
//! no-ops, never errors.

use vstd::prelude::*;

verus! {

/// The action named by an inbound event's path segment.
#[derive(Clone, Copy, PartialEq, Eq, Structural, Debug)]
pub enum ActionType {
    On,
    Off,
}

/// Parses a path segment. Anything but the two known words is unrecognized
/// and yields nothing; callers treat that as a logged no-op.
pub fn parse_action(s: &str) -> (r: Option<ActionType>)
    ensures
        s@ == "on"@ ==> r == Some(ActionType::On),
        s@ == "off"@ ==> r == Some(ActionType::Off),
        !(s@ == "on"@ || s@ == "off"@) ==> r is None,
{
    proof {
        reveal_strlit("on");
        reveal_strlit("off");
        assert("on"@.len() == 2);
        assert("off"@.len() == 3);
        assert("on"@ != "off"@);
    }
    let key = s.to_owned();
    if key == "on".to_owned() {
        Some(ActionType::On)
    } else if key == "off".to_owned() {
        Some(ActionType::Off)
    } else {
        None
    }
}

/// The scene handlers a switch can be bound to, as data: which routine runs
/// when the switch fires.
#[derive(Clone, Copy, PartialEq, Eq, Structural, Debug)]
pub enum HandlerKind {
    /// The corridor exit switch: corridor lamp to full power with the
    /// event's state, corridor beam switched alongside.
    CorridorExit,
    /// The leaving-home scene: every device except the corridor lamp on at
    /// low brightness with a delayed off-and-restore, the corridor lamp off.
    LeavingHome,
    IrFrontDoor,
    IrBedroomDoor,
    IrMiddle,
    IrLivingRoom,
}

/// The effect bound to one physical switch.
pub enum SwitchEffect {
    /// No devices bound.
    Empty,
    /// Switch one device by identifier.
    Device(String),
    /// Switch two devices by identifier.
    Devices2(String, String),
    /// Run a named scene handler.
    Handler(HandlerKind),
}

/// One physical wall switch and its bound effect.
pub struct Switch {
    pub id: String,
    pub effect: SwitchEffect,
}

impl Switch {
    pub fn empty(id: &str) -> (s: Switch)
        ensures
            s.id@ == id@,
            s.effect == SwitchEffect::Empty,
    {
        Switch { id: id.to_owned(), effect: SwitchEffect::Empty }
    }

    pub fn device(id: &str, device_id: &str) -> (s: Switch)
        ensures
            s.id@ == id@,
            s.effect matches SwitchEffect::Device(d) && d@ == device_id@,
    {
        Switch { id: id.to_owned(), effect: SwitchEffect::Device(device_id.to_owned()) }
    }

    pub fn devices2(id: &str, first: &str, second: &str) -> (s: Switch)
        ensures
            s.id@ == id@,
            s.effect matches SwitchEffect::Devices2(a, b) && a@ == first@ && b@ == second@,
    {
        Switch {
            id: id.to_owned(),
            effect: SwitchEffect::Devices2(first.to_owned(), second.to_owned()),
        }
    }

    /// Binds a named scene handler (the arbitrary-routine binding).
    pub fn handler(id: &str, kind: HandlerKind) -> (s: Switch)
        ensures
            s.id@ == id@,
            s.effect == SwitchEffect::Handler(kind),
    {
        Switch { id: id.to_owned(), effect: SwitchEffect::Handler(kind) }
    }
}

/// The dispatch table over every registered wall switch.
pub struct SwitchHandler {
    pub switches: Vec<Switch>,
}

impl SwitchHandler {
    pub fn new(switch_list: Vec<Switch>) -> (h: SwitchHandler)
        ensures
            h.switches@ == switch_list@,
    {
        SwitchHandler { switches: switch_list }
    }

    /// The binding an identifier resolves to: the first one that carries it,
    /// or nothing for an unknown switch.
    pub fn find(&self, id: &str) -> (r: Option<&Switch>)
        ensures
            match r {
                Some(s) => exists|k: int|
                    0 <= k < self.switches@.len() && *s == self.switches@[k]
                        && (#[trigger] self.switches@[k]).id@ == id@ && (forall|j: int|
                        0 <= j < k ==> (#[trigger] self.switches@[j]).id@ != id@),
                None => forall|k: int|
                    0 <= k < self.switches@.len() ==> (#[trigger] self.switches@[k]).id@ != id@,
            },
    {
        let key: String = id.to_owned();
        let n = self.switches.len();
        let mut k: usize = 0;
        while k < n
            invariant
                k <= n,
                n == self.switches@.len(),
                key@ == id@,
                forall|j: int| 0 <= j < k ==> (#[trigger] self.switches@[j]).id@ != id@,
            decreases n - k,
        {
            let cand: String = self.switches[k].id.clone();
            if cand == key {
                return Some(&self.switches[k]);
            }
            k = k + 1;
        }
        None
    }
}

} // verus!
