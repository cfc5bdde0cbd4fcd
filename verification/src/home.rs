//! The whole-home state: registry, transports, scheduler, sensor state,
//! switch table, and the event handlers the control surface calls.

use vstd::prelude::*;
use crate::controller::{
    action_serial, action_web, apply_spec, apply_to_bytes, apply_to_devs, apply_to_msgs,
    find_last, lemma_find_last, DeviceAction, DeviceEntry, DeviceHolder,
};
use crate::devices::{
    lemma_serial_effect_empty, lemma_web_effect_empty, serial_effect, web_effect, DeviceType,
    SerialDimmer, StateDoc, WebDevice,
};
use crate::dispatch::{ActionType, HandlerKind, Switch, SwitchEffect, SwitchHandler};
use crate::sensors::{ir_step, IRHandler, Zone, QUIET_WINDOW_MS};
use crate::timer::{due_entries, queue_view, rest_entries, DelayedActionView, Timer};
use crate::web::{WebController, WebMsgView};
use crate::wire::SerialChannel;

verus! {

/// How long after the leaving-home scene the lights it lit go off again.
pub const LEAVING_OFF_MS: u64 = 30000;

/// The brightness the leaving-home scene lights the dwelling at.
pub const LEAVING_BRIGHTNESS: u8 = 5;

/// The devices the leaving-home scene treats specially and the sensor
/// aggregator drives.
pub open spec fn is_corridor(d: DeviceEntry) -> bool {
    d.spec_id() == "corridor_lamp"@
}

/// What the scene does to one device: the corridor lamp goes off, everything
/// else goes on at low brightness.
pub open spec fn leaving_action(d: DeviceEntry) -> DeviceAction {
    if is_corridor(d) {
        DeviceAction::SetOn(false)
    } else {
        DeviceAction::SetState(true, LEAVING_BRIGHTNESS)
    }
}

/// Every record after the leaving-home scene.
pub open spec fn leaving_devs(devs: Seq<DeviceEntry>) -> Seq<DeviceEntry> {
    Seq::new(devs.len(), |i: int| apply_spec(devs[i], leaving_action(devs[i])))
}

/// The serial bytes the scene writes, in registration order.
pub open spec fn leaving_bytes(devs: Seq<DeviceEntry>) -> Seq<u8>
    decreases devs.len(),
{
    if devs.len() == 0 {
        Seq::empty()
    } else {
        leaving_bytes(devs.take(devs.len() - 1)) + action_serial(
            devs[devs.len() - 1],
            leaving_action(devs[devs.len() - 1]),
        )
    }
}

/// The remote commands the scene publishes, in order.
pub open spec fn leaving_msgs(devs: Seq<DeviceEntry>) -> Seq<WebMsgView>
    decreases devs.len(),
{
    if devs.len() == 0 {
        Seq::empty()
    } else {
        leaving_msgs(devs.take(devs.len() - 1)) + action_web(
            devs[devs.len() - 1],
            leaving_action(devs[devs.len() - 1]),
        )
    }
}

/// The off-and-restore actions the scene schedules: one per device it lit,
/// none for the corridor lamp.
pub open spec fn leaving_delays(devs: Seq<DeviceEntry>, now_ms: u64) -> Seq<DelayedActionView>
    decreases devs.len(),
{
    if devs.len() == 0 {
        Seq::empty()
    } else {
        leaving_delays(devs.take(devs.len() - 1), now_ms) + if is_corridor(devs[devs.len() - 1]) {
            Seq::empty()
        } else {
            seq![
                DelayedActionView {
                    due_ms: (now_ms + LEAVING_OFF_MS) as u64,
                    device_id: devs[devs.len() - 1].spec_id(),
                    action: DeviceAction::OffThenPower(100),
                },
            ]
        }
    }
}

/// The leaving-home scene: every device but the corridor lamp goes on at
/// low brightness and gets an off-and-restore scheduled one interval out;
/// the corridor lamp goes off at once.
pub fn leaving_scene(
    devices: &mut DeviceHolder,
    serial: &mut SerialChannel,
    web: &mut WebController,
    timer: &mut Timer,
    now_ms: u64,
)
    requires
        old(devices).wf(),
        old(timer).wf(),
        now_ms + LEAVING_OFF_MS <= u64::MAX,
    ensures
        final(devices).wf(),
        final(timer).wf(),
        final(devices).devices@ == leaving_devs(old(devices).devices@),
        serial_effect(*old(serial), *final(serial), leaving_bytes(old(devices).devices@)),
        web_effect(*old(web), *final(web), leaving_msgs(old(devices).devices@)),
        final(timer).pending_view() == old(timer).pending_view() + leaving_delays(
            old(devices).devices@,
            now_ms,
        ),
{
    let corridor_key: String = "corridor_lamp".to_owned();
    let n = devices.devices.len();
    let mut k: usize = 0;
    proof {
        lemma_serial_effect_empty(*serial);
        lemma_web_effect_empty(*web);
        assert(leaving_bytes(old(devices).devices@.take(0)) =~= Seq::<u8>::empty());
        assert(leaving_msgs(old(devices).devices@.take(0)) =~= Seq::<WebMsgView>::empty());
        assert(leaving_delays(old(devices).devices@.take(0), now_ms)
            =~= Seq::<DelayedActionView>::empty());
        assert(old(timer).pending_view() + Seq::<DelayedActionView>::empty()
            =~= old(timer).pending_view());
    }
    while k < n
        invariant
            k <= n,
            n == devices.devices@.len(),
            old(devices).devices@.len() == n,
            devices.wf(),
            timer.wf(),
            corridor_key@ == "corridor_lamp"@,
            now_ms + LEAVING_OFF_MS <= u64::MAX,
            forall|i: int| k <= i < n ==> devices.devices@[i] == old(devices).devices@[i],
            forall|i: int|
                0 <= i < k ==> devices.devices@[i] == apply_spec(
                    old(devices).devices@[i],
                    leaving_action(old(devices).devices@[i]),
                ),
            serial_effect(
                *old(serial),
                *serial,
                leaving_bytes(old(devices).devices@.take(k as int)),
            ),
            web_effect(*old(web), *web, leaving_msgs(old(devices).devices@.take(k as int))),
            timer.pending_view() == old(timer).pending_view() + leaving_delays(
                old(devices).devices@.take(k as int),
                now_ms,
            ),
        decreases n - k,
    {
        let ghost pre_bytes = leaving_bytes(old(devices).devices@.take(k as int));
        let ghost pre_msgs = leaving_msgs(old(devices).devices@.take(k as int));
        let ghost pre_delays = leaving_delays(old(devices).devices@.take(k as int), now_ms);
        let dev_id: String = devices.devices[k].id().to_owned();
        let ghost orig = old(devices).devices@[k as int];
        if dev_id == corridor_key {
            let _r = devices.devices[k].apply(DeviceAction::SetOn(false), serial, web);
            proof {
                let sub = old(devices).devices@.take(k as int + 1);
                assert(sub.take(k as int) =~= old(devices).devices@.take(k as int));
                assert(sub[k as int] == orig);
                assert(is_corridor(orig));
                if old(serial).connected {
                    assert(serial.sent@ =~= old(serial).sent@ + leaving_bytes(sub));
                }
                if old(web).connected {
                    assert(web.published_view() =~= old(web).published_view() + leaving_msgs(sub));
                }
                assert(timer.pending_view() =~= old(timer).pending_view() + leaving_delays(
                    sub,
                    now_ms,
                ));
            }
        } else {
            let _r = devices.devices[k].apply(
                DeviceAction::SetState(true, LEAVING_BRIGHTNESS),
                serial,
                web,
            );
            timer.delay(now_ms, LEAVING_OFF_MS, dev_id, DeviceAction::OffThenPower(100));
            proof {
                let sub = old(devices).devices@.take(k as int + 1);
                assert(sub.take(k as int) =~= old(devices).devices@.take(k as int));
                assert(sub[k as int] == orig);
                assert(!is_corridor(orig));
                if old(serial).connected {
                    assert(serial.sent@ =~= old(serial).sent@ + leaving_bytes(sub));
                }
                if old(web).connected {
                    assert(web.published_view() =~= old(web).published_view() + leaving_msgs(sub));
                }
                assert(timer.pending_view() =~~= old(timer).pending_view() + leaving_delays(
                    sub,
                    now_ms,
                ));
            }
        }
        proof {
            assert forall|i: int| 0 <= i < devices.devices@.len() implies (
            #[trigger] devices.devices@[i]).entry_wf() by {}
        }
        k = k + 1;
    }
    proof {
        assert(old(devices).devices@.take(n as int) =~= old(devices).devices@);
        assert(devices.devices@ =~= leaving_devs(old(devices).devices@));
    }
}

/// The devices transformed by firing a batch of delayed entries, oldest
/// first; each entry resolves by identifier at its own firing time.
pub open spec fn run_entries(devs: Seq<DeviceEntry>, entries: Seq<DelayedActionView>) -> Seq<
    DeviceEntry,
>
    decreases entries.len(),
{
    if entries.len() == 0 {
        devs
    } else {
        apply_to_devs(
            run_entries(devs, entries.take(entries.len() - 1)),
            entries[entries.len() - 1].device_id,
            entries[entries.len() - 1].action,
        )
    }
}

/// The serial bytes a batch of delayed entries writes as it fires, each
/// flush encoding the device state at its own firing time.
pub open spec fn run_bytes(devs: Seq<DeviceEntry>, entries: Seq<DelayedActionView>) -> Seq<u8>
    decreases entries.len(),
{
    if entries.len() == 0 {
        Seq::empty()
    } else {
        run_bytes(devs, entries.take(entries.len() - 1)) + apply_to_bytes(
            run_entries(devs, entries.take(entries.len() - 1)),
            entries[entries.len() - 1].device_id,
            entries[entries.len() - 1].action,
        )
    }
}

/// The remote commands a batch of delayed entries publishes as it fires.
pub open spec fn run_msgs(devs: Seq<DeviceEntry>, entries: Seq<DelayedActionView>) -> Seq<
    WebMsgView,
>
    decreases entries.len(),
{
    if entries.len() == 0 {
        Seq::empty()
    } else {
        run_msgs(devs, entries.take(entries.len() - 1)) + apply_to_msgs(
            run_entries(devs, entries.take(entries.len() - 1)),
            entries[entries.len() - 1].device_id,
            entries[entries.len() - 1].action,
        )
    }
}

/// Fires every delayed action that is due at `now_ms`, each exactly once,
/// oldest first. What is not yet due stays queued; a fired action is gone
/// even if its device has meanwhile vanished or fails.
pub fn run_due(
    timer: &mut Timer,
    devices: &mut DeviceHolder,
    serial: &mut SerialChannel,
    web: &mut WebController,
    now_ms: u64,
)
    requires
        old(devices).wf(),
        old(timer).wf(),
    ensures
        final(devices).wf(),
        final(timer).wf(),
        final(timer).pending_view() == rest_entries(old(timer).pending_view(), now_ms),
        final(devices).devices@ == run_entries(
            old(devices).devices@,
            due_entries(old(timer).pending_view(), now_ms),
        ),
        serial_effect(
            *old(serial),
            *final(serial),
            run_bytes(old(devices).devices@, due_entries(old(timer).pending_view(), now_ms)),
        ),
        web_effect(
            *old(web),
            *final(web),
            run_msgs(old(devices).devices@, due_entries(old(timer).pending_view(), now_ms)),
        ),
{
    let due = timer.take_due(now_ms);
    let ghost batch = queue_view(due@);
    let n = due.len();
    let mut k: usize = 0;
    proof {
        lemma_serial_effect_empty(*serial);
        lemma_web_effect_empty(*web);
        assert(batch.take(0) =~= Seq::<DelayedActionView>::empty());
        assert(run_bytes(old(devices).devices@, batch.take(0)) =~= Seq::<u8>::empty());
        assert(run_msgs(old(devices).devices@, batch.take(0)) =~= Seq::<WebMsgView>::empty());
    }
    while k < n
        invariant
            k <= n,
            n == due@.len(),
            batch == queue_view(due@),
            devices.wf(),
            forall|i: int| 0 <= i < batch.len() ==> action_wf_at(batch, i),
            devices.devices@ == run_entries(old(devices).devices@, batch.take(k as int)),
            serial_effect(
                *old(serial),
                *serial,
                run_bytes(old(devices).devices@, batch.take(k as int)),
            ),
            web_effect(*old(web), *web, run_msgs(old(devices).devices@, batch.take(k as int))),
        decreases n - k,
    {
        let ghost pre_devs = devices.devices@;
        let ghost pre_bytes = run_bytes(old(devices).devices@, batch.take(k as int));
        let ghost pre_msgs = run_msgs(old(devices).devices@, batch.take(k as int));
        let entry_id: String = due[k].device_id.clone();
        let entry_action = due[k].action;
        proof {
            assert(action_wf_at(batch, k as int));
            assert(batch[k as int] == due@[k as int]@);
        }
        let _r = devices.apply_to(entry_id.as_str(), entry_action, serial, web);
        proof {
            let sub = batch.take(k as int + 1);
            assert(sub.take(k as int) =~= batch.take(k as int));
            assert(sub[k as int] == batch[k as int]);
            assert(devices.devices@ =~= run_entries(old(devices).devices@, sub));
            let step_bytes = apply_to_bytes(pre_devs, batch[k as int].device_id, entry_action);
            let step_msgs = apply_to_msgs(pre_devs, batch[k as int].device_id, entry_action);
            assert(run_bytes(old(devices).devices@, sub) == pre_bytes + step_bytes);
            assert(run_msgs(old(devices).devices@, sub) == pre_msgs + step_msgs);
            if old(serial).connected {
                assert(serial.sent@ =~= old(serial).sent@ + (pre_bytes + step_bytes));
            }
            if old(web).connected {
                assert(web.published_view() =~= old(web).published_view() + (pre_msgs
                    + step_msgs));
            }
        }
        k = k + 1;
    }
    proof {
        assert(batch.take(n as int) =~= batch);
    }
}

/// The action queued at one position carries a valid brightness.
pub open spec fn action_wf_at(entries: Seq<DelayedActionView>, i: int) -> bool {
    crate::controller::action_wf(entries[i].action)
}

/// What one switch effect does, relating every piece of state before and
/// after the event.
pub open spec fn effect_step(
    effect: SwitchEffect,
    pre_ir: IRHandler,
    post_ir: IRHandler,
    pre_devs: Seq<DeviceEntry>,
    post_devs: Seq<DeviceEntry>,
    pre_serial: SerialChannel,
    post_serial: SerialChannel,
    pre_web: WebController,
    post_web: WebController,
    pre_q: Seq<DelayedActionView>,
    post_q: Seq<DelayedActionView>,
    t: ActionType,
    now_ms: u64,
) -> bool {
    let on = t == ActionType::On;
    match effect {
        SwitchEffect::Empty => post_devs == pre_devs && post_serial == pre_serial && post_web
            == pre_web && post_q == pre_q && post_ir == pre_ir,
        SwitchEffect::Device(d) => {
            let act = DeviceAction::SetOn(on);
            &&& post_devs == apply_to_devs(pre_devs, d@, act)
            &&& serial_effect(pre_serial, post_serial, apply_to_bytes(pre_devs, d@, act))
            &&& web_effect(pre_web, post_web, apply_to_msgs(pre_devs, d@, act))
            &&& post_q == pre_q
            &&& post_ir == pre_ir
        },
        SwitchEffect::Devices2(a, b) => {
            let act = DeviceAction::SetOn(on);
            let mid = apply_to_devs(pre_devs, a@, act);
            &&& post_devs == apply_to_devs(mid, b@, act)
            &&& serial_effect(
                pre_serial,
                post_serial,
                apply_to_bytes(pre_devs, a@, act) + apply_to_bytes(mid, b@, act),
            )
            &&& web_effect(
                pre_web,
                post_web,
                apply_to_msgs(pre_devs, a@, act) + apply_to_msgs(mid, b@, act),
            )
            &&& post_q == pre_q
            &&& post_ir == pre_ir
        },
        SwitchEffect::Handler(kind) => match kind {
            HandlerKind::CorridorExit => {
                let act1 = DeviceAction::SetState(on, 100);
                let act2 = DeviceAction::SetOn(on);
                let lamp = "corridor_lamp"@;
                let beam = "corridor_beam_lamp"@;
                let mid = apply_to_devs(pre_devs, lamp, act1);
                &&& post_devs == apply_to_devs(mid, beam, act2)
                &&& serial_effect(
                    pre_serial,
                    post_serial,
                    apply_to_bytes(pre_devs, lamp, act1) + apply_to_bytes(mid, beam, act2),
                )
                &&& web_effect(
                    pre_web,
                    post_web,
                    apply_to_msgs(pre_devs, lamp, act1) + apply_to_msgs(mid, beam, act2),
                )
                &&& post_q == pre_q
                &&& post_ir == pre_ir
            },
            HandlerKind::LeavingHome => {
                &&& post_devs == leaving_devs(pre_devs)
                &&& serial_effect(pre_serial, post_serial, leaving_bytes(pre_devs))
                &&& web_effect(pre_web, post_web, leaving_msgs(pre_devs))
                &&& post_q == pre_q + leaving_delays(pre_devs, now_ms)
                &&& post_ir == pre_ir
            },
            HandlerKind::IrFrontDoor => ir_step(
                pre_ir,
                post_ir,
                pre_devs,
                post_devs,
                pre_serial,
                post_serial,
                pre_web,
                post_web,
                pre_q,
                post_q,
                Zone::FrontDoor,
                t,
                now_ms,
            ),
            HandlerKind::IrBedroomDoor => ir_step(
                pre_ir,
                post_ir,
                pre_devs,
                post_devs,
                pre_serial,
                post_serial,
                pre_web,
                post_web,
                pre_q,
                post_q,
                Zone::BedroomDoor,
                t,
                now_ms,
            ),
            HandlerKind::IrMiddle => ir_step(
                pre_ir,
                post_ir,
                pre_devs,
                post_devs,
                pre_serial,
                post_serial,
                pre_web,
                post_web,
                pre_q,
                post_q,
                Zone::Middle,
                t,
                now_ms,
            ),
            HandlerKind::IrLivingRoom => ir_step(
                pre_ir,
                post_ir,
                pre_devs,
                post_devs,
                pre_serial,
                post_serial,
                pre_web,
                post_web,
                pre_q,
                post_q,
                Zone::LivingRoom,
                t,
                now_ms,
            ),
        },
    }
}

/// What one switch event does: nothing at all for an unknown identifier,
/// and the bound effect of the first matching binding otherwise.
pub open spec fn switch_step(
    sws: Seq<Switch>,
    switch_id: Seq<char>,
    pre_ir: IRHandler,
    post_ir: IRHandler,
    pre_devs: Seq<DeviceEntry>,
    post_devs: Seq<DeviceEntry>,
    pre_serial: SerialChannel,
    post_serial: SerialChannel,
    pre_web: WebController,
    post_web: WebController,
    pre_q: Seq<DelayedActionView>,
    post_q: Seq<DelayedActionView>,
    t: ActionType,
    now_ms: u64,
) -> bool {
    if forall|k: int| 0 <= k < sws.len() ==> (#[trigger] sws[k]).id@ != switch_id {
        post_devs == pre_devs && post_serial == pre_serial && post_web == pre_web && post_q
            == pre_q && post_ir == pre_ir
    } else {
        exists|k: int|
            0 <= k < sws.len() && (#[trigger] sws[k]).id@ == switch_id && (forall|j: int|
                0 <= j < k ==> (#[trigger] sws[j]).id@ != switch_id) && effect_step(
                sws[k].effect,
                pre_ir,
                post_ir,
                pre_devs,
                post_devs,
                pre_serial,
                post_serial,
                pre_web,
                post_web,
                pre_q,
                post_q,
                t,
                now_ms,
            )
    }
}

/// Dispatches one wall-switch event: resolves the binding for `switch_id`
/// and runs its effect. Unknown identifiers are ignored; device failures
/// inside an effect are reported on the device records and channels only.
pub fn run_switch(
    switches: &SwitchHandler,
    ir: &mut IRHandler,
    devices: &mut DeviceHolder,
    serial: &mut SerialChannel,
    web: &mut WebController,
    timer: &mut Timer,
    switch_id: &str,
    t: ActionType,
    now_ms: u64,
)
    requires
        old(devices).wf(),
        old(timer).wf(),
        now_ms + QUIET_WINDOW_MS <= u64::MAX,
    ensures
        final(devices).wf(),
        final(timer).wf(),
        switch_step(
            switches.switches@,
            switch_id@,
            *old(ir),
            *final(ir),
            old(devices).devices@,
            final(devices).devices@,
            *old(serial),
            *final(serial),
            *old(web),
            *final(web),
            old(timer).pending_view(),
            final(timer).pending_view(),
            t,
            now_ms,
        ),
{
    let found = switches.find(switch_id);
    match found {
        None => {},
        Some(sw) => {
            let ghost k0 = choose|k: int|
                0 <= k < switches.switches@.len() && *sw == switches.switches@[k] && (
                #[trigger] switches.switches@[k]).id@ == switch_id@ && (forall|j: int|
                    0 <= j < k ==> (#[trigger] switches.switches@[j]).id@ != switch_id@);
            match &sw.effect {
                SwitchEffect::Empty => {},
                SwitchEffect::Device(d) => {
                    let _r = devices.apply_to(
                        d.as_str(),
                        DeviceAction::SetOn(matches!(t, ActionType::On)),
                        serial,
                        web,
                    );
                },
                SwitchEffect::Devices2(a, b) => {
                    let on = matches!(t, ActionType::On);
                    let ghost mid_serial = *serial;
                    let ghost mid_web = *web;
                    let _r1 = devices.apply_to(a.as_str(), DeviceAction::SetOn(on), serial, web);
                    let ghost s1 = *serial;
                    let ghost w1 = *web;
                    let _r2 = devices.apply_to(b.as_str(), DeviceAction::SetOn(on), serial, web);
                    proof {
                        if old(serial).connected {
                            assert(serial.sent@ =~= old(serial).sent@ + (apply_to_bytes(
                                old(devices).devices@,
                                a@,
                                DeviceAction::SetOn(on),
                            ) + apply_to_bytes(
                                apply_to_devs(old(devices).devices@, a@, DeviceAction::SetOn(on)),
                                b@,
                                DeviceAction::SetOn(on),
                            )));
                        }
                        if old(web).connected {
                            assert(web.published_view() =~= old(web).published_view() + (
                            apply_to_msgs(old(devices).devices@, a@, DeviceAction::SetOn(on))
                                + apply_to_msgs(
                                apply_to_devs(old(devices).devices@, a@, DeviceAction::SetOn(on)),
                                b@,
                                DeviceAction::SetOn(on),
                            )));
                        }
                    }
                },
                SwitchEffect::Handler(kind) => match kind {
                    HandlerKind::CorridorExit => {
                        let on = matches!(t, ActionType::On);
                        let _r1 = devices.set_state("corridor_lamp", on, 100, serial, web);
                        let _r2 = devices.apply_to(
                            "corridor_beam_lamp",
                            DeviceAction::SetOn(on),
                            serial,
                            web,
                        );
                        proof {
                            let act1 = DeviceAction::SetState(on, 100);
                            let act2 = DeviceAction::SetOn(on);
                            let pre = old(devices).devices@;
                            let mid = apply_to_devs(pre, "corridor_lamp"@, act1);
                            if old(serial).connected {
                                assert(serial.sent@ =~= old(serial).sent@ + (apply_to_bytes(
                                    pre,
                                    "corridor_lamp"@,
                                    act1,
                                ) + apply_to_bytes(mid, "corridor_beam_lamp"@, act2)));
                            }
                            if old(web).connected {
                                assert(web.published_view() =~= old(web).published_view() + (
                                apply_to_msgs(pre, "corridor_lamp"@, act1) + apply_to_msgs(
                                    mid,
                                    "corridor_beam_lamp"@,
                                    act2,
                                )));
                            }
                        }
                    },
                    HandlerKind::LeavingHome => {
                        leaving_scene(devices, serial, web, timer, now_ms);
                    },
                    HandlerKind::IrFrontDoor => {
                        let _r = ir.on_zone(Zone::FrontDoor, t, devices, serial, web, timer, now_ms);
                    },
                    HandlerKind::IrBedroomDoor => {
                        let _r = ir.on_zone(
                            Zone::BedroomDoor,
                            t,
                            devices,
                            serial,
                            web,
                            timer,
                            now_ms,
                        );
                    },
                    HandlerKind::IrMiddle => {
                        let _r = ir.on_zone(Zone::Middle, t, devices, serial, web, timer, now_ms);
                    },
                    HandlerKind::IrLivingRoom => {
                        let _r = ir.on_zone(
                            Zone::LivingRoom,
                            t,
                            devices,
                            serial,
                            web,
                            timer,
                            now_ms,
                        );
                    },
                },
            }
        },
    }
}

/// A serial dimmer record exactly as registration leaves it: off, at full
/// brightness, with a healthy lock.
pub open spec fn fresh_serial_dimmer(
    e: DeviceEntry,
    id: Seq<char>,
    p_id: u8,
    min_value: u8,
    max_value: u8,
) -> bool {
    e matches DeviceEntry::SerialDimmer(d) && d.id@ == id && d.p_id == p_id && d.min_value
        == min_value && d.max_value == max_value && !d.is_on && d.brightness == 100 && !d.poisoned
}

/// A remote device record exactly as registration leaves it.
pub open spec fn fresh_web_device(e: DeviceEntry, id: Seq<char>, dev_type: DeviceType) -> bool {
    e matches DeviceEntry::Web(d) && d.id@ == id && d.dev_type == dev_type && !d.is_on
        && d.brightness == 100 && !d.poisoned
}

/// The dwelling's fixed device table, record by record: ten serial dimmers
/// with their ports and hardware ranges, six remote beam dimmers, five
/// remote LEDs.
pub open spec fn initial_devices(devs: Seq<DeviceEntry>) -> bool {
    &&& devs.len() == 21
    &&& fresh_serial_dimmer(devs[0], "bathroom_lamp"@, 0x01, 25, 100)
    &&& fresh_serial_dimmer(devs[1], "corridor_lamp"@, 0x03, 0, 100)
    &&& fresh_serial_dimmer(devs[2], "toilet_lamp"@, 0x02, 25, 100)
    &&& fresh_serial_dimmer(devs[3], "kitchen_lamp"@, 0x04, 0, 100)
    &&& fresh_serial_dimmer(devs[4], "bedroom_lamp"@, 0x01, 0, 100)
    &&& fresh_serial_dimmer(devs[5], "lounge_lamp"@, 0x02, 0, 100)
    &&& fresh_serial_dimmer(devs[6], "device_3"@, 0x03, 0, 100)
    &&& fresh_serial_dimmer(devs[7], "bathroom_fun"@, 0x04, 0, 100)
    &&& fresh_serial_dimmer(devs[8], "device_5"@, 0x05, 0, 100)
    &&& fresh_serial_dimmer(devs[9], "lounge_cupboard_lamp"@, 0x06, 0, 100)
    &&& fresh_web_device(devs[10], "bedroom_beam_bed_lamp"@, DeviceType::WebDimmer)
    &&& fresh_web_device(devs[11], "bedroom_beam_table_lamp"@, DeviceType::WebDimmer)
    &&& fresh_web_device(devs[12], "corridor_beam_lamp"@, DeviceType::WebDimmer)
    &&& fresh_web_device(devs[13], "kitchen_beam_lamp"@, DeviceType::WebDimmer)
    &&& fresh_web_device(devs[14], "lounge_beam_bar_lamp"@, DeviceType::WebDimmer)
    &&& fresh_web_device(devs[15], "lounge_beam_main_lamp"@, DeviceType::WebDimmer)
    &&& fresh_web_device(devs[16], "bedroom_beam_led"@, DeviceType::WebLed)
    &&& fresh_web_device(devs[17], "corridor_beam_led"@, DeviceType::WebLed)
    &&& fresh_web_device(devs[18], "kitchen_beam_led"@, DeviceType::WebLed)
    &&& fresh_web_device(devs[19], "lounge_beam_bar_led"@, DeviceType::WebLed)
    &&& fresh_web_device(devs[20], "lounge_beam_main_led"@, DeviceType::WebLed)
}

/// Registers the dwelling's fixed device set: the serial dimmers with their
/// hardware ranges and ports, and the remote beam dimmers and LEDs.
pub fn init_devices() -> (h: DeviceHolder)
    ensures
        h.wf(),
        initial_devices(h.devices@),
{
    let mut h = DeviceHolder::new();
    h.register(DeviceEntry::SerialDimmer(SerialDimmer::new("bathroom_lamp", 0x01, 25, 100)));
    h.register(DeviceEntry::SerialDimmer(SerialDimmer::new("corridor_lamp", 0x03, 0, 100)));
    h.register(DeviceEntry::SerialDimmer(SerialDimmer::new("toilet_lamp", 0x02, 25, 100)));
    h.register(DeviceEntry::SerialDimmer(SerialDimmer::new("kitchen_lamp", 0x04, 0, 100)));
    h.register(DeviceEntry::SerialDimmer(SerialDimmer::new("bedroom_lamp", 0x01, 0, 100)));
    h.register(DeviceEntry::SerialDimmer(SerialDimmer::new("lounge_lamp", 0x02, 0, 100)));
    h.register(DeviceEntry::SerialDimmer(SerialDimmer::new("device_3", 0x03, 0, 100)));
    h.register(DeviceEntry::SerialDimmer(SerialDimmer::new("bathroom_fun", 0x04, 0, 100)));
    h.register(DeviceEntry::SerialDimmer(SerialDimmer::new("device_5", 0x05, 0, 100)));
    h.register(
        DeviceEntry::SerialDimmer(SerialDimmer::new("lounge_cupboard_lamp", 0x06, 0, 100)),
    );
    h.register(DeviceEntry::Web(WebDevice::new("bedroom_beam_bed_lamp", DeviceType::WebDimmer)));
    h.register(
        DeviceEntry::Web(WebDevice::new("bedroom_beam_table_lamp", DeviceType::WebDimmer)),
    );
    h.register(DeviceEntry::Web(WebDevice::new("corridor_beam_lamp", DeviceType::WebDimmer)));
    h.register(DeviceEntry::Web(WebDevice::new("kitchen_beam_lamp", DeviceType::WebDimmer)));
    h.register(DeviceEntry::Web(WebDevice::new("lounge_beam_bar_lamp", DeviceType::WebDimmer)));
    h.register(DeviceEntry::Web(WebDevice::new("lounge_beam_main_lamp", DeviceType::WebDimmer)));
    h.register(DeviceEntry::Web(WebDevice::new("bedroom_beam_led", DeviceType::WebLed)));
    h.register(DeviceEntry::Web(WebDevice::new("corridor_beam_led", DeviceType::WebLed)));
    h.register(DeviceEntry::Web(WebDevice::new("kitchen_beam_led", DeviceType::WebLed)));
    h.register(DeviceEntry::Web(WebDevice::new("lounge_beam_bar_led", DeviceType::WebLed)));
    h.register(DeviceEntry::Web(WebDevice::new("lounge_beam_main_led", DeviceType::WebLed)));
    h
}

/// The four motion-sensor bindings, in order: front door, bedroom door,
/// middle, living room, each bound to its zone of the debounce engine.
pub open spec fn sensor_bindings(sws: Seq<Switch>) -> bool {
    &&& sws.len() == 4
    &&& sws[0].id@ == "ir_sensor_front_door"@ && sws[0].effect == SwitchEffect::Handler(
        HandlerKind::IrFrontDoor,
    )
    &&& sws[1].id@ == "ir_sensor_bedroom_door"@ && sws[1].effect == SwitchEffect::Handler(
        HandlerKind::IrBedroomDoor,
    )
    &&& sws[2].id@ == "ir_sensor_middle"@ && sws[2].effect == SwitchEffect::Handler(
        HandlerKind::IrMiddle,
    )
    &&& sws[3].id@ == "ir_sensor_living_room"@ && sws[3].effect == SwitchEffect::Handler(
        HandlerKind::IrLivingRoom,
    )
}

/// The four motion-sensor bindings, all sharing the debounce engine.
pub fn init_sensor_switch() -> (v: Vec<Switch>)
    ensures
        sensor_bindings(v@),
{
    let mut v: Vec<Switch> = Vec::new();
    v.push(Switch::handler("ir_sensor_front_door", HandlerKind::IrFrontDoor));
    v.push(Switch::handler("ir_sensor_bedroom_door", HandlerKind::IrBedroomDoor));
    v.push(Switch::handler("ir_sensor_middle", HandlerKind::IrMiddle));
    v.push(Switch::handler("ir_sensor_living_room", HandlerKind::IrLivingRoom));
    v
}

/// One switch bound to a single device.
pub open spec fn bound_to_device(s: Switch, id: Seq<char>, device_id: Seq<char>) -> bool {
    &&& s.id@ == id
    &&& s.effect matches SwitchEffect::Device(d) && d@ == device_id
}

/// One switch bound to a pair of devices.
pub open spec fn bound_to_devices2(
    s: Switch,
    id: Seq<char>,
    first: Seq<char>,
    second: Seq<char>,
) -> bool {
    &&& s.id@ == id
    &&& s.effect matches SwitchEffect::Devices2(a, b) && a@ == first && b@ == second
}

/// The dwelling's fixed switch table, binding by binding: three unbound
/// switches, six single-device and two two-device bindings, the corridor
/// exit and the leaving-home scene, then the four sensor bindings appended
/// at the end.
pub open spec fn initial_switches(sws: Seq<Switch>) -> bool {
    &&& sws.len() == 17
    &&& sws[0].id@ == "corridor_2"@ && sws[0].effect == SwitchEffect::Empty
    &&& bound_to_device(sws[1], "toilet"@, "toilet_lamp"@)
    &&& bound_to_device(sws[2], "bathroom"@, "bathroom_lamp"@)
    &&& bound_to_device(sws[3], "bedroom_1"@, "bedroom_lamp"@)
    &&& bound_to_devices2(
        sws[4],
        "bedroom_2"@,
        "bedroom_beam_bed_lamp"@,
        "bedroom_beam_table_lamp"@,
    )
    &&& bound_to_device(sws[5], "lounge_1"@, "lounge_lamp"@)
    &&& bound_to_device(sws[6], "lounge_2"@, "lounge_beam_main_lamp"@)
    &&& bound_to_devices2(sws[7], "kitchen_1"@, "kitchen_lamp"@, "lounge_beam_bar_lamp"@)
    &&& bound_to_device(sws[8], "kitchen_2"@, "kitchen_beam_lamp"@)
    &&& sws[9].id@ == "balcony_1"@ && sws[9].effect == SwitchEffect::Empty
    &&& sws[10].id@ == "balcony_2"@ && sws[10].effect == SwitchEffect::Empty
    &&& sws[11].id@ == "exit_1"@ && sws[11].effect == SwitchEffect::Handler(
        HandlerKind::CorridorExit,
    )
    &&& sws[12].id@ == "exit_2"@ && sws[12].effect == SwitchEffect::Handler(
        HandlerKind::LeavingHome,
    )
    &&& sensor_bindings(sws.subrange(13, 17))
}

/// The fixed wall-switch table: per-room bindings, the two exit switches,
/// and the sensor bindings appended at the end.
pub fn init_switch() -> (h: SwitchHandler)
    ensures
        initial_switches(h.switches@),
{
    let mut switch_list: Vec<Switch> = Vec::new();
    switch_list.push(Switch::empty("corridor_2"));
    switch_list.push(Switch::device("toilet", "toilet_lamp"));
    switch_list.push(Switch::device("bathroom", "bathroom_lamp"));
    switch_list.push(Switch::device("bedroom_1", "bedroom_lamp"));
    switch_list.push(
        Switch::devices2("bedroom_2", "bedroom_beam_bed_lamp", "bedroom_beam_table_lamp"),
    );
    switch_list.push(Switch::device("lounge_1", "lounge_lamp"));
    switch_list.push(Switch::device("lounge_2", "lounge_beam_main_lamp"));
    switch_list.push(Switch::devices2("kitchen_1", "kitchen_lamp", "lounge_beam_bar_lamp"));
    switch_list.push(Switch::device("kitchen_2", "kitchen_beam_lamp"));
    switch_list.push(Switch::empty("balcony_1"));
    switch_list.push(Switch::empty("balcony_2"));
    switch_list.push(Switch::handler("exit_1", HandlerKind::CorridorExit));
    switch_list.push(Switch::handler("exit_2", HandlerKind::LeavingHome));
    let mut sensors = init_sensor_switch();
    let ghost fixed = switch_list@;
    let ghost sensor_part = sensors@;
    switch_list.append(&mut sensors);
    proof {
        assert(switch_list@.subrange(13, 17) =~= sensor_part);
    }
    SwitchHandler::new(switch_list)
}

/// Everything one process holds: the dispatch table, the registry, the two
/// transports, the delay queue, and the sensor aggregator.
pub struct AppState {
    pub switch: SwitchHandler,
    pub devices: DeviceHolder,
    pub web_controller: WebController,
    pub serial: SerialChannel,
    pub timer: Timer,
    pub ir: IRHandler,
}

impl AppState {
    pub open spec fn wf(&self) -> bool {
        &&& self.devices.wf()
        &&& self.timer.wf()
    }

    /// A freshly wired home: the fixed device and switch tables, healthy
    /// transports with empty logs, an empty delay queue, and the sensor
    /// aggregator quiet and aimed at the corridor lamp.
    pub fn new() -> (s: AppState)
        ensures
            s.wf(),
            initial_devices(s.devices.devices@),
            initial_switches(s.switch.switches@),
            s.ir.state.all_off_spec(),
            s.ir.corridor_lamp@ == "corridor_lamp"@,
            s.timer.pending_view() == Seq::<DelayedActionView>::empty(),
            s.serial.connected,
            s.serial.sent@ == Seq::<u8>::empty(),
            s.web_controller.connected,
            s.web_controller.published_view() == Seq::<WebMsgView>::empty(),
            s.web_controller.registered_view() == Seq::<crate::web::WebEntryView>::empty(),
    {
        let devices = init_devices();
        let ir = IRHandler::new(&devices);
        AppState {
            switch: init_switch(),
            devices,
            web_controller: WebController::new(),
            serial: SerialChannel::new(),
            timer: Timer::new(),
            ir,
        }
    }

    /// One wall-switch event from the control surface: an unrecognized
    /// action word or an unknown switch identifier mutates nothing.
    pub fn handle_switch(&mut self, switch_id: &str, state: &str, now_ms: u64)
        requires
            old(self).wf(),
            now_ms + QUIET_WINDOW_MS <= u64::MAX,
        ensures
            final(self).wf(),
            !(state@ == "on"@ || state@ == "off"@) ==> *final(self) == *old(self),
            (state@ == "on"@ || state@ == "off"@) ==> switch_step(
                old(self).switch.switches@,
                switch_id@,
                old(self).ir,
                final(self).ir,
                old(self).devices.devices@,
                final(self).devices.devices@,
                old(self).serial,
                final(self).serial,
                old(self).web_controller,
                final(self).web_controller,
                old(self).timer.pending_view(),
                final(self).timer.pending_view(),
                if state@ == "on"@ {
                    ActionType::On
                } else {
                    ActionType::Off
                },
                now_ms,
            ),
    {
        match crate::dispatch::parse_action(state) {
            Some(t) => {
                run_switch(
                    &self.switch,
                    &mut self.ir,
                    &mut self.devices,
                    &mut self.serial,
                    &mut self.web_controller,
                    &mut self.timer,
                    switch_id,
                    t,
                    now_ms,
                );
            },
            None => {},
        }
    }

    /// One device command from the control surface: on/off and brightness
    /// in one call, flushed once. Unknown identifiers and unrecognized
    /// action words mutate nothing.
    pub fn handle_device(&mut self, device_id: &str, state: &str, power: u8)
        requires
            old(self).wf(),
            power <= 100,
        ensures
            final(self).wf(),
            final(self).switch == old(self).switch,
            final(self).ir == old(self).ir,
            final(self).timer.pending_view() == old(self).timer.pending_view(),
            !(state@ == "on"@ || state@ == "off"@) ==> *final(self) == *old(self),
            (state@ == "on"@ || state@ == "off"@) ==> {
                let act = DeviceAction::SetState(state@ == "on"@, power);
                &&& final(self).devices.devices@ == apply_to_devs(
                    old(self).devices.devices@,
                    device_id@,
                    act,
                )
                &&& serial_effect(
                    old(self).serial,
                    final(self).serial,
                    apply_to_bytes(old(self).devices.devices@, device_id@, act),
                )
                &&& web_effect(
                    old(self).web_controller,
                    final(self).web_controller,
                    apply_to_msgs(old(self).devices.devices@, device_id@, act),
                )
            },
    {
        match crate::dispatch::parse_action(state) {
            Some(t) => {
                let on = matches!(t, ActionType::On);
                let _r = self.devices.set_state(
                    device_id,
                    on,
                    power,
                    &mut self.serial,
                    &mut self.web_controller,
                );
            },
            None => {},
        }
    }

    /// One brightness command from the control surface: stored, not
    /// flushed. Unknown identifiers mutate nothing.
    pub fn handle_dimmer(&mut self, device_id: &str, power: u8)
        requires
            old(self).wf(),
            power <= 100,
        ensures
            final(self).wf(),
            final(self).switch == old(self).switch,
            final(self).ir == old(self).ir,
            final(self).timer.pending_view() == old(self).timer.pending_view(),
            serial_effect(old(self).serial, final(self).serial, Seq::<u8>::empty()),
            web_effect(
                old(self).web_controller,
                final(self).web_controller,
                Seq::<WebMsgView>::empty(),
            ),
            final(self).devices.devices@ == apply_to_devs(
                old(self).devices.devices@,
                device_id@,
                DeviceAction::SetPower(power),
            ),
    {
        let _r = self.devices.set_power(
            device_id,
            power,
            &mut self.serial,
            &mut self.web_controller,
        );
    }

    /// One state-document update from the control surface.
    pub fn handle_update(&mut self, device_id: &str, doc: &StateDoc) -> (r: Result<
        (),
        crate::controller::ControllerError,
    >)
        requires
            old(self).wf(),
        ensures
            final(self).wf(),
            final(self).switch == old(self).switch,
            final(self).ir == old(self).ir,
            final(self).timer.pending_view() == old(self).timer.pending_view(),
            match crate::controller::find_last(old(self).devices.devices@, device_id@) {
                Some(i) => final(self).devices.devices@ == old(self).devices.devices@.update(
                    i,
                    crate::controller::update_spec(old(self).devices.devices@[i], *doc),
                ) && serial_effect(
                    old(self).serial,
                    final(self).serial,
                    crate::controller::update_bytes(old(self).devices.devices@[i], *doc),
                ) && web_effect(
                    old(self).web_controller,
                    final(self).web_controller,
                    crate::controller::update_msgs(old(self).devices.devices@[i], *doc),
                ),
                None => *final(self) == *old(self) && r is Ok,
            },
    {
        self.devices.update_device(device_id, doc, &mut self.serial, &mut self.web_controller)
    }

    /// One state-document read from the control surface.
    pub fn handle_load(&self, device_id: &str) -> (r: Option<
        Result<StateDoc, crate::controller::ControllerError>,
    >)
        requires
            self.wf(),
        ensures
            match crate::controller::find_last(self.devices.devices@, device_id@) {
                Some(i) => r matches Some(inner) && (self.devices.devices@[i].guard_ok() ==> inner
                    == Ok::<StateDoc, crate::controller::ControllerError>(
                    crate::controller::load_doc(self.devices.devices@[i]),
                )) && (!self.devices.devices@[i].guard_ok() ==> inner matches Err(
                    crate::controller::ControllerError::GuardFailure,
                )),
                None => r is None,
            },
    {
        self.devices.load_device(device_id)
    }

    /// Registers remote device identifiers against a base URL.
    pub fn handle_reg_device(&mut self, ids: Vec<String>, base_url: String)
        requires
            old(self).wf(),
        ensures
            final(self).wf(),
            final(self).devices == old(self).devices,
            final(self).web_controller.connected == old(self).web_controller.connected,
            final(self).web_controller.published_view() == old(
                self,
            ).web_controller.published_view(),
            final(self).web_controller.registered_view() == old(
                self,
            ).web_controller.registered_view() + Seq::new(
                ids@.len(),
                |i: int|
                    crate::web::WebEntryView { id: ids@[i]@, base_url: base_url@ },
            ),
    {
        self.web_controller.reg_device(ids, base_url);
    }

    /// Fires every delayed action now due. The unverified shell calls this
    /// from its background timer context.
    pub fn tick(&mut self, now_ms: u64)
        requires
            old(self).wf(),
        ensures
            final(self).wf(),
            final(self).timer.pending_view() == rest_entries(
                old(self).timer.pending_view(),
                now_ms,
            ),
            final(self).devices.devices@ == run_entries(
                old(self).devices.devices@,
                due_entries(old(self).timer.pending_view(), now_ms),
            ),
            serial_effect(
                old(self).serial,
                final(self).serial,
                run_bytes(
                    old(self).devices.devices@,
                    due_entries(old(self).timer.pending_view(), now_ms),
                ),
            ),
            web_effect(
                old(self).web_controller,
                final(self).web_controller,
                run_msgs(
                    old(self).devices.devices@,
                    due_entries(old(self).timer.pending_view(), now_ms),
                ),
            ),
    {
        run_due(
            &mut self.timer,
            &mut self.devices,
            &mut self.serial,
            &mut self.web_controller,
            now_ms,
        );
    }
}

} // verus!
