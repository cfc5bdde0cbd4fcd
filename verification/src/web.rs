//! The remote web-device transport, seen from the engine's side.
//!
//! Only the publish/command interface is modeled: the controller keeps the
//! registrations made for remote devices and the exact sequence of commands
//! published so far; the unverified shell drains that sequence onto the
//! network. `connected` models the transport's health.

use vstd::prelude::*;
use crate::controller::ControllerError;

verus! {

/// One command published to a remote device: its identifier and the whole
/// logical state to apply.
pub struct WebMsg {
    pub id: String,
    pub is_on: bool,
    pub brightness: u8,
}

/// Mathematical image of a published command.
#[verifier::ext_equal]
pub struct WebMsgView {
    pub id: Seq<char>,
    pub is_on: bool,
    pub brightness: u8,
}

impl View for WebMsg {
    type V = WebMsgView;

    open spec fn view(&self) -> WebMsgView {
        WebMsgView { id: self.id@, is_on: self.is_on, brightness: self.brightness }
    }
}

/// A remote device registration: which base URL serves an identifier.
pub struct WebEntry {
    pub id: String,
    pub base_url: String,
}

/// Mathematical image of a registration.
#[verifier::ext_equal]
pub struct WebEntryView {
    pub id: Seq<char>,
    pub base_url: Seq<char>,
}

impl View for WebEntry {
    type V = WebEntryView;

    open spec fn view(&self) -> WebEntryView {
        WebEntryView { id: self.id@, base_url: self.base_url@ }
    }
}

/// The remote transport handle shared by all remote devices.
pub struct WebController {
    pub connected: bool,
    pub registered: Vec<WebEntry>,
    pub published: Vec<WebMsg>,
}

impl WebController {
    pub open spec fn registered_view(&self) -> Seq<WebEntryView> {
        Seq::new(self.registered@.len(), |i: int| self.registered@[i]@)
    }

    pub open spec fn published_view(&self) -> Seq<WebMsgView> {
        Seq::new(self.published@.len(), |i: int| self.published@[i]@)
    }

    pub fn new() -> (c: WebController)
        ensures
            c.connected,
            c.registered_view() == Seq::<WebEntryView>::empty(),
            c.published_view() == Seq::<WebMsgView>::empty(),
    {
        let c = WebController { connected: true, registered: Vec::new(), published: Vec::new() };
        proof {
            assert(c.registered_view() =~= Seq::<WebEntryView>::empty());
            assert(c.published_view() =~= Seq::<WebMsgView>::empty());
        }
        c
    }

    /// Publishes one command. A publish on a dead transport is lost and
    /// reported; registrations and health are never changed by a publish.
    pub fn publish(&mut self, msg: WebMsg) -> (r: Result<(), ControllerError>)
        ensures
            final(self).connected == old(self).connected,
            final(self).registered_view() == old(self).registered_view(),
            old(self).connected ==> final(self).published_view() == old(self).published_view()
                + seq![msg@] && r is Ok,
            !old(self).connected ==> final(self).published_view() == old(self).published_view()
                && r matches Err(ControllerError::TransportFailure),
    {
        if self.connected {
            let ghost pre = self.published_view();
            self.published.push(msg);
            proof {
                assert(self.published_view() =~~= pre + seq![msg@]);
                assert(self.registered_view() =~~= old(self).registered_view());
            }
            Ok(())
        } else {
            Err(ControllerError::TransportFailure)
        }
    }

    /// Registers each identifier in `ids` against `base_url`. Registrations
    /// only accumulate: devices are never removed or replaced at runtime.
    pub fn reg_device(&mut self, ids: Vec<String>, base_url: String)
        ensures
            final(self).connected == old(self).connected,
            final(self).published_view() == old(self).published_view(),
            final(self).registered_view() == old(self).registered_view()
                + Seq::new(ids@.len(), |i: int| WebEntryView { id: ids@[i]@, base_url: base_url@ }),
    {
        let ghost pre = self.registered_view();
        let ghost all = Seq::new(ids@.len(), |i: int| WebEntryView { id: ids@[i]@, base_url: base_url@ });
        let n = ids.len();
        let mut k: usize = 0;
        while k < n
            invariant
                k <= n,
                n == ids@.len(),
                self.connected == old(self).connected,
                self.published_view() == old(self).published_view(),
                self.registered_view() == pre + all.take(k as int),
                all == Seq::new(ids@.len(), |i: int| WebEntryView { id: ids@[i]@, base_url: base_url@ }),
            decreases n - k,
        {
            let entry_id = ids[k].clone();
            let burl = base_url.clone();
            let ghost entry_view = WebEntryView { id: entry_id@, base_url: burl@ };
            let ghost before_view = self.registered_view();
            self.registered.push(WebEntry { id: entry_id, base_url: burl });
            proof {
                let target = pre + all.take(k as int + 1);
                assert forall|i: int| 0 <= i < self.registered@.len() implies
                    self.registered_view()[i] == target[i] by {
                    if i < before_view.len() {
                        assert(self.registered_view()[i] == before_view[i]);
                        assert(before_view[i] == (pre + all.take(k as int))[i]);
                    } else {
                        assert(self.registered_view()[i] == entry_view);
                        assert(target[i] == all[k as int]);
                        assert(entry_view == all[k as int]);
                    }
                }
                assert(self.registered_view() =~~= target);
            }
            k = k + 1;
        }
        proof {
            assert(all.take(n as int) =~~= all);
        }
    }
}

} // verus!
