//! The session's event bus, and the free functions through which the host's entry
//! points publish events without a session at hand.
use vstd::prelude::*;
use crate::backend::{BackendModel, Lifecycle, MobileBackend};
use crate::events::{MobileEvent, TouchAction, touch_action_of};
use crate::registry::{
    DispatchRegistry, RegistryModel, after_clear, after_dispatch, after_release,
    dispatch_ticks,
};

verus! {

/// A handler that goes live: a set-up backend starts running.
pub open spec fn started(b: BackendModel) -> BackendModel {
    if b.state == Lifecycle::Initialized {
        BackendModel { state: Lifecycle::Running, ..b }
    } else {
        b
    }
}

/// The registry after a bus that owns handler `own`, if any, cleans up: it lets
/// that handler go and empties the slot.
pub open spec fn after_cleanup(m: RegistryModel, own: Option<u64>) -> RegistryModel {
    match own {
        Some(id) => after_clear(after_release(m, id)),
        None => after_clear(m),
    }
}

/// The registry after a bus that owns handler `own`, if any, installs `handler`.
/// The old handler is let go; the new one is adopted under the next id and the
/// slot points at it. Once ids have run out, the slot is emptied instead.
pub open spec fn after_install(m: RegistryModel, own: Option<u64>, handler: BackendModel) -> RegistryModel {
    let m1 = match own {
        Some(id) => after_release(m, id),
        None => m,
    };
    if m1.next_id < u64::MAX {
        RegistryModel {
            slot: Some(m1.next_id),
            live: Some((m1.next_id, started(handler))),
            next_id: (m1.next_id + 1) as u64,
        }
    } else {
        after_clear(m1)
    }
}

/// A session's event bus: it owns the session's handler, which it keeps in the
/// registry's liveness table, and points the registry at it.
pub struct MobileEventBus {
    callback: Option<u64>,
}

impl View for MobileEventBus {
    type V = Option<u64>;

    /// The id of the handler this bus owns.
    closed spec fn view(&self) -> Option<u64> {
        self.callback
    }
}

impl MobileEventBus {
    pub fn new() -> (r: Self)
        ensures
            r@ is None,
    {
        MobileEventBus { callback: None }
    }

    /// Makes `handler` the session's callback: the registry holds it alive for this
    /// bus, and dispatch reaches it from now on. Returns whether it was installed.
    pub fn run_event_loop(&mut self, registry: &mut DispatchRegistry, handler: MobileBackend) -> (r: bool)
        requires
            old(registry).wf(),
            handler.wf(),
        ensures
            final(registry).wf(),
            final(registry)@ == after_install(old(registry)@, old(self)@, handler@),
            r == (final(registry)@.slot is Some),
            final(self)@ == final(registry)@.slot,
    {
        if let Some(id) = self.callback {
            registry.release(id);
        }
        let mut handler = handler;
        handler.start();
        match registry.adopt(handler) {
            Some(id) => {
                self.callback = Some(id);
                registry.set_handler(id);
                true
            },
            None => {
                self.callback = None;
                registry.clear();
                false
            },
        }
    }

    /// The id of the handler this bus owns, if any.
    pub fn handler_id(&self) -> (r: Option<u64>)
        ensures
            r == self@,
    {
        self.callback
    }

    /// Hands `event` to the registered session, if it is alive; returns whether the
    /// frame callback is owed one tick for it.
    pub fn publish_event(registry: &mut DispatchRegistry, event: MobileEvent) -> (r: bool)
        requires
            old(registry).wf(),
        ensures
            final(registry).wf(),
            final(registry)@ == after_dispatch(old(registry)@, event),
            r == dispatch_ticks(old(registry)@, event),
    {
        registry.dispatch(event)
    }

    /// Lets the session's handler go and empties the registry's slot; safe to call
    /// any number of times.
    pub fn cleanup(&mut self, registry: &mut DispatchRegistry)
        requires
            old(registry).wf(),
        ensures
            final(registry).wf(),
            final(registry)@ == after_cleanup(old(registry)@, old(self)@),
            final(self)@ is None,
    {
        if let Some(id) = self.callback {
            registry.release(id);
        }
        self.callback = None;
        registry.clear();
    }
}

/// A fresh registry, with no handler.
pub fn init() -> (r: DispatchRegistry)
    ensures
        r.wf(),
        r@ == (RegistryModel { slot: None, live: None, next_id: 0 }),
{
    DispatchRegistry::new()
}

/// Empties the registry's slot.
pub fn cleanup(registry: &mut DispatchRegistry)
    requires
        old(registry).wf(),
    ensures
        final(registry).wf(),
        final(registry)@ == after_clear(old(registry)@),
{
    registry.clear();
}

/// A fresh registry for the backend's events.
pub fn init_events() -> (r: DispatchRegistry)
    ensures
        r.wf(),
        r@ == (RegistryModel { slot: None, live: None, next_id: 0 }),
{
    init()
}

/// Publishes a render tick; returns whether the frame callback is owed it.
pub fn send_render(registry: &mut DispatchRegistry) -> (r: bool)
    requires
        old(registry).wf(),
    ensures
        final(registry).wf(),
        final(registry)@ == after_dispatch(old(registry)@, MobileEvent::Render),
        r == dispatch_ticks(old(registry)@, MobileEvent::Render),
{
    MobileEventBus::publish_event(registry, MobileEvent::Render)
}

/// Publishes a touch at (`x`, `y`), in thousandths of a pixel, with the host's raw
/// action code.
pub fn send_touch(registry: &mut DispatchRegistry, x: i64, y: i64, action: i32)
    requires
        old(registry).wf(),
    ensures
        final(registry).wf(),
        final(registry)@ == after_dispatch(
            old(registry)@,
            MobileEvent::Touch { x, y, action: touch_action_of(action) },
        ),
{
    MobileEventBus::publish_event(registry, MobileEvent::Touch { x, y, action: TouchAction::from(action) });
}

/// Publishes the surface's new size.
pub fn send_resize(registry: &mut DispatchRegistry, width: u32, height: u32)
    requires
        old(registry).wf(),
    ensures
        final(registry).wf(),
        final(registry)@ == after_dispatch(old(registry)@, MobileEvent::Resize { width, height }),
{
    MobileEventBus::publish_event(registry, MobileEvent::Resize { width, height });
}

/// Publishes the end of the session.
pub fn send_exit(registry: &mut DispatchRegistry)
    requires
        old(registry).wf(),
    ensures
        final(registry).wf(),
        final(registry)@ == after_dispatch(old(registry)@, MobileEvent::Exit),
{
    MobileEventBus::publish_event(registry, MobileEvent::Exit);
}

/// Once a bus has cleaned up, and once an exit has been dispatched, no handler is
/// reached any more: every later dispatch changes nothing and owes no frame tick.
pub proof fn lemma_no_dispatch_after_cleanup_or_exit(m: RegistryModel, own: Option<u64>, e: MobileEvent)
    ensures
        after_dispatch(after_cleanup(m, own), e) == after_cleanup(m, own),
        !dispatch_ticks(after_cleanup(m, own), e),
        after_dispatch(after_dispatch(m, MobileEvent::Exit), e) == after_dispatch(m, MobileEvent::Exit),
        !dispatch_ticks(after_dispatch(m, MobileEvent::Exit), e),
{
}

} // verus!
