//! The dispatch registry: the one place through which the host's free entry points
//! reach the live session's handler.
//!
//! The registry's slot names a handler by its id and does not own it. The handler
//! itself sits in a liveness table, where its session's event bus keeps it alive:
//! once the bus lets it go, the id in the slot finds nothing and dispatch does
//! nothing.
use vstd::prelude::*;
use crate::backend::{BackendModel, MobileBackend, after_event, ticks_frame};
use crate::events::{MobileEvent, NativeEvent};

verus! {

/// A handler in the liveness table, under the id that its owner knows it by.
pub struct HandlerEntry {
    id: u64,
    handler: MobileBackend,
}

/// What the registry holds.
pub struct RegistryModel {
    /// The id that dispatch goes to, if any.
    pub slot: Option<u64>,
    /// The live handler and its id; a process runs one session at a time.
    pub live: Option<(u64, BackendModel)>,
    /// The id that the next adopted handler gets.
    pub next_id: u64,
}

/// The live handler that the id `id` reaches.
pub open spec fn reached(m: RegistryModel, id: u64) -> Option<BackendModel> {
    match m.live {
        Some((lid, b)) => if lid == id { Some(b) } else { None },
        None => None,
    }
}

/// The handler that dispatch reaches: the slot's id, if the table still holds it.
pub open spec fn target(m: RegistryModel) -> Option<BackendModel> {
    match m.slot {
        Some(id) => reached(m, id),
        None => None,
    }
}

/// The registry after one dispatch of `e`. With no live target nothing changes.
/// Otherwise the handler takes the event; an exit then ends the session: the slot
/// is cleared and the handler is let go.
pub open spec fn after_dispatch(m: RegistryModel, e: MobileEvent) -> RegistryModel {
    match target(m) {
        None => m,
        Some(b) => if e == MobileEvent::Exit {
            RegistryModel { slot: None, live: None, ..m }
        } else {
            RegistryModel { live: Some((m.slot->Some_0, after_event(b, e))), ..m }
        },
    }
}

/// Whether one dispatch of `e` runs a tick of the frame callback.
pub open spec fn dispatch_ticks(m: RegistryModel, e: MobileEvent) -> bool {
    match target(m) {
        None => false,
        Some(b) => ticks_frame(b, e),
    }
}

/// The registry after the owner of handler `id` lets it go.
pub open spec fn after_release(m: RegistryModel, id: u64) -> RegistryModel {
    if reached(m, id) is Some {
        RegistryModel { live: None, ..m }
    } else {
        m
    }
}

/// The registry once its slot is emptied.
pub open spec fn after_clear(m: RegistryModel) -> RegistryModel {
    RegistryModel { slot: None, ..m }
}

/// The process-wide dispatch registry.
pub struct DispatchRegistry {
    slot: Option<u64>,
    live: Option<HandlerEntry>,
    next_id: u64,
}

impl View for DispatchRegistry {
    type V = RegistryModel;

    closed spec fn view(&self) -> RegistryModel {
        RegistryModel {
            slot: self.slot,
            live: match self.live {
                Some(e) => Some((e.id, e.handler@)),
                None => None,
            },
            next_id: self.next_id,
        }
    }
}

impl DispatchRegistry {
    /// The live handler is well formed, and its id was handed out already.
    pub closed spec fn wf(&self) -> bool {
        match self.live {
            Some(e) => e.handler.wf() && e.id < self.next_id,
            None => true,
        }
    }

    pub fn new() -> (r: Self)
        ensures
            r.wf(),
            r@ == (RegistryModel { slot: None, live: None, next_id: 0 }),
    {
        DispatchRegistry { slot: None, live: None, next_id: 0 }
    }

    /// Takes `handler` into the liveness table under a fresh id, which it returns;
    /// a handler adopted before is let go. Returns `None`, and changes nothing, once
    /// every id has been handed out.
    pub fn adopt(&mut self, handler: MobileBackend) -> (r: Option<u64>)
        requires
            old(self).wf(),
            handler.wf(),
        ensures
            final(self).wf(),
            old(self)@.next_id < u64::MAX ==> r == Some(old(self)@.next_id) && final(self)@ == (
            RegistryModel {
                live: Some((old(self)@.next_id, handler@)),
                next_id: (old(self)@.next_id + 1) as u64,
                ..old(self)@
            }),
            old(self)@.next_id == u64::MAX ==> r is None && final(self)@ == old(self)@,
    {
        if self.next_id == u64::MAX {
            return None;
        }
        let id = self.next_id;
        self.live = Some(HandlerEntry { id, handler });
        self.next_id = id + 1;
        Some(id)
    }

    /// The owner of handler `id` lets it go. The slot is left as it is: if it names
    /// `id`, dispatch now finds nothing there.
    pub fn release(&mut self, id: u64)
        requires
            old(self).wf(),
        ensures
            final(self).wf(),
            final(self)@ == after_release(old(self)@, id),
    {
        let owned = match &self.live {
            Some(e) => e.id == id,
            None => false,
        };
        if owned {
            self.live = None;
        }
    }

    /// Points dispatch at handler `id`, in place of whatever it pointed at.
    pub fn set_handler(&mut self, id: u64)
        requires
            old(self).wf(),
        ensures
            final(self).wf(),
            final(self)@ == (RegistryModel { slot: Some(id), ..old(self)@ }),
    {
        self.slot = Some(id);
    }

    /// Empties the slot; doing so again changes nothing.
    pub fn clear(&mut self)
        requires
            old(self).wf(),
        ensures
            final(self).wf(),
            final(self)@ == after_clear(old(self)@),
    {
        self.slot = None;
    }

    /// Hands `event` to the handler that the slot reaches, if it is still alive;
    /// returns whether the frame callback is owed one tick for it.
    pub fn dispatch(&mut self, event: MobileEvent) -> (r: bool)
        requires
            old(self).wf(),
        ensures
            final(self).wf(),
            final(self)@ == after_dispatch(old(self)@, event),
            r == dispatch_ticks(old(self)@, event),
    {
        let id = match self.slot {
            Some(id) => id,
            None => return false,
        };
        let ticks = match &mut self.live {
            Some(entry) => {
                if entry.id != id {
                    return false;
                }
                entry.handler.handle_event(event)
            },
            None => return false,
        };
        if event == MobileEvent::Exit {
            self.slot = None;
            self.live = None;
        }
        ticks
    }

    /// The id that dispatch goes to, if any.
    pub fn slot(&self) -> (r: Option<u64>)
        ensures
            r == self@.slot,
    {
        self.slot
    }

    /// The live handler that id `id` reaches, if any.
    pub fn handler(&self, id: u64) -> (r: Option<&MobileBackend>)
        requires
            self.wf(),
        ensures
            match r {
                Some(b) => reached(self@, id) == Some(b@) && b.wf(),
                None => reached(self@, id) is None,
            },
    {
        match &self.live {
            Some(e) => if e.id == id {
                Some(&e.handler)
            } else {
                None
            },
            None => None,
        }
    }

    /// Hands the frame loop of session `id` its translated events, oldest first;
    /// nothing once that session's handler is gone.
    pub fn take_events(&mut self, id: u64) -> (r: Vec<NativeEvent>)
        requires
            old(self).wf(),
        ensures
            final(self).wf(),
            match reached(old(self)@, id) {
                Some(b) => r@ == b.queued && final(self)@ == (RegistryModel {
                    live: Some((id, BackendModel { queued: Seq::empty(), ..b })),
                    ..old(self)@
                }),
                None => r@ == Seq::<NativeEvent>::empty() && final(self)@ == old(self)@,
            },
    {
        match &mut self.live {
            Some(e) => if e.id == id {
                e.handler.events_iter()
            } else {
                Vec::new()
            },
            None => Vec::new(),
        }
    }
}

/// A slot whose handler has been let go by its owner reaches nothing: dispatching
/// any event then changes nothing and owes no frame tick.
pub proof fn lemma_dispatch_after_release(m: RegistryModel, id: u64, e: MobileEvent)
    requires
        m.slot == Some(id),
    ensures
        after_dispatch(after_release(m, id), e) == after_release(m, id),
        !dispatch_ticks(after_release(m, id), e),
{
}

} // verus!
