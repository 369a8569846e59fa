//! The backend adapter: takes the dispatched events, evolves the session's window
//! and lifecycle, and re-emits touches and resizes in the frame loop's own form.
use vstd::prelude::*;
use crate::event_queue::EventQueue;
use crate::events::{MobileEvent, NativeEvent, TouchAction, native_touch};
use crate::window::{MobileWindow, WindowModel};

verus! {

/// Where a session stands in its life.
#[derive(Clone, Copy, Debug, PartialEq, Eq, Structural)]
pub enum Lifecycle {
    Uninitialized,
    Initialized,
    Running,
    ExitRequested,
    Destroyed,
}

/// Whether a session in state `s` acts on render, touch and resize events.
pub open spec fn accepts_events(s: Lifecycle) -> bool {
    s == Lifecycle::Initialized || s == Lifecycle::Running
}

/// What the adapter is, as far as its users can tell.
pub struct BackendModel {
    pub state: Lifecycle,
    pub window: Option<WindowModel>,
    /// The scale factor in thousandths, fixed when the session is made.
    pub dpi: u32,
    /// Translated events that the frame loop has not taken yet, oldest first.
    pub queued: Seq<NativeEvent>,
    /// How many times the frame callback has been owed a tick.
    pub frames: u64,
}

/// One more frame, held at the counter's largest value.
pub open spec fn next_count(n: u64) -> u64 {
    if n < u64::MAX {
        (n + 1) as u64
    } else {
        n
    }
}

/// The adapter after it handles `e`. Render ticks the frame callback, a touch
/// queues its native event, a resize updates the window and queues a resize event,
/// and exit asks the session to stop; once exit is asked, and before setup, every
/// event is received and has no effect.
pub open spec fn after_event(m: BackendModel, e: MobileEvent) -> BackendModel {
    if !accepts_events(m.state) {
        m
    } else {
        match e {
            MobileEvent::Render => BackendModel { frames: next_count(m.frames), ..m },
            MobileEvent::Touch { x, y, action } => BackendModel {
                queued: m.queued.push(native_touch(x, y, action)),
                ..m
            },
            MobileEvent::Resize { width, height } => BackendModel {
                window: Some(WindowModel { width, height, dpi: m.dpi }),
                queued: m.queued.push(NativeEvent::WindowResize { width, height }),
                ..m
            },
            MobileEvent::Exit => BackendModel { state: Lifecycle::ExitRequested, ..m },
        }
    }
}

/// Whether handling `e` in `m` runs one tick of the frame callback.
pub open spec fn ticks_frame(m: BackendModel, e: MobileEvent) -> bool {
    accepts_events(m.state) && e == MobileEvent::Render
}

/// The session's backend: its window, its queue of translated events and its
/// lifecycle.
pub struct MobileBackend {
    window: Option<MobileWindow>,
    events: EventQueue<NativeEvent>,
    state: Lifecycle,
    dpi: u32,
    frames: u64,
}

impl View for MobileBackend {
    type V = BackendModel;

    closed spec fn view(&self) -> BackendModel {
        BackendModel {
            state: self.state,
            window: match self.window {
                Some(w) => Some(w@),
                None => None,
            },
            dpi: self.dpi,
            queued: self.events@,
            frames: self.frames,
        }
    }
}

impl MobileBackend {
    /// A session that acts on events has its window, and the window keeps the
    /// session's scale factor.
    pub open spec fn wf(&self) -> bool {
        &&& accepts_events(self@.state) ==> self@.window is Some
        &&& self@.window matches Some(w) ==> w.dpi == self@.dpi
    }

    /// A backend before setup, with the scale factor `dpi` in thousandths.
    pub fn new(dpi: u32) -> (r: Self)
        ensures
            r.wf(),
            r@ == (BackendModel {
                state: Lifecycle::Uninitialized,
                window: None,
                dpi,
                queued: Seq::empty(),
                frames: 0,
            }),
    {
        MobileBackend { window: None, events: EventQueue::new(), state: Lifecycle::Uninitialized, dpi, frames: 0 }
    }

    /// Sets up the window at `width` by `height`; a backend that is set up already
    /// stays as it is.
    pub fn initialize(&mut self, width: u32, height: u32)
        requires
            old(self).wf(),
        ensures
            final(self).wf(),
            final(self)@ == if old(self)@.state == Lifecycle::Uninitialized {
                BackendModel {
                    state: Lifecycle::Initialized,
                    window: Some(WindowModel { width, height, dpi: old(self)@.dpi }),
                    ..old(self)@
                }
            } else {
                old(self)@
            },
    {
        if self.state == Lifecycle::Uninitialized {
            self.window = Some(MobileWindow::new(width, height, self.dpi));
            self.state = Lifecycle::Initialized;
        }
    }

    /// The frame loop has started: a set-up backend is running from now on.
    pub fn start(&mut self)
        requires
            old(self).wf(),
        ensures
            final(self).wf(),
            final(self)@ == if old(self)@.state == Lifecycle::Initialized {
                BackendModel { state: Lifecycle::Running, ..old(self)@ }
            } else {
                old(self)@
            },
    {
        if self.state == Lifecycle::Initialized {
            self.state = Lifecycle::Running;
        }
    }

    pub fn state(&self) -> (r: Lifecycle)
        ensures
            r == self@.state,
    {
        self.state
    }

    pub fn has_windows(&self) -> (r: bool)
        ensures
            r == (self@.window is Some),
    {
        self.window.is_some()
    }

    /// The scale factor, in thousandths; later resizes never change it.
    pub fn window_scale(&self) -> (r: u32)
        requires
            self.wf(),
        ensures
            r == self@.dpi,
            self@.window matches Some(w) ==> r == w.dpi,
    {
        self.dpi
    }

    /// The window's size, once it is set up.
    pub fn window_size(&self) -> (r: Option<(u32, u32)>)
        ensures
            r == match self@.window {
                Some(w) => Some((w.width, w.height)),
                None => None,
            },
    {
        match &self.window {
            Some(w) => Some(w.size()),
            None => None,
        }
    }

    pub fn frame_count(&self) -> (r: u64)
        ensures
            r == self@.frames,
    {
        self.frames
    }

    /// Whether exit was asked for.
    pub fn exit_requested(&self) -> (r: bool)
        ensures
            r == (self@.state == Lifecycle::ExitRequested),
    {
        self.state == Lifecycle::ExitRequested
    }

    /// Hands the frame loop every translated event since its last pull, oldest first.
    pub fn events_iter(&mut self) -> (r: Vec<NativeEvent>)
        requires
            old(self).wf(),
        ensures
            final(self).wf(),
            r@ == old(self)@.queued,
            final(self)@ == (BackendModel { queued: Seq::empty(), ..old(self)@ }),
    {
        self.events.drain()
    }

    /// The frame loop asks to stop: as an exit event would.
    pub fn exit(&mut self)
        requires
            old(self).wf(),
        ensures
            final(self).wf(),
            final(self)@ == after_event(old(self)@, MobileEvent::Exit),
    {
        if self.state == Lifecycle::Initialized || self.state == Lifecycle::Running {
            self.state = Lifecycle::ExitRequested;
        }
    }

    /// The teardown call: the session is gone for good.
    pub fn destroy(&mut self)
        requires
            old(self).wf(),
        ensures
            final(self).wf(),
            final(self)@ == (BackendModel { state: Lifecycle::Destroyed, ..old(self)@ }),
    {
        self.state = Lifecycle::Destroyed;
    }

    /// Handles one dispatched event; returns whether the frame callback is owed
    /// one tick for it.
    pub fn handle_event(&mut self, event: MobileEvent) -> (r: bool)
        requires
            old(self).wf(),
        ensures
            final(self).wf(),
            final(self)@ == after_event(old(self)@, event),
            r == ticks_frame(old(self)@, event),
    {
        if !(self.state == Lifecycle::Initialized || self.state == Lifecycle::Running) {
            return false;
        }
        match event {
            MobileEvent::Render => {
                if self.frames < u64::MAX {
                    self.frames = self.frames + 1;
                }
                true
            },
            MobileEvent::Touch { x, y, action } => {
                let native = match action {
                    TouchAction::Down => NativeEvent::TouchStart { id: 0, x, y },
                    TouchAction::Move => NativeEvent::TouchMove { id: 0, x, y },
                    TouchAction::Up => NativeEvent::TouchEnd { id: 0, x, y },
                };
                self.events.push(native);
                false
            },
            MobileEvent::Resize { width, height } => {
                match &mut self.window {
                    Some(w) => w.resize(width, height),
                    None => {},
                }
                self.events.push(NativeEvent::WindowResize { width, height });
                false
            },
            MobileEvent::Exit => {
                self.state = Lifecycle::ExitRequested;
                false
            },
        }
    }
}

/// A render that reaches the adapter after it handled an exit runs no frame tick
/// and leaves the frame count, and everything else, as it was.
pub proof fn lemma_render_after_exit(b: BackendModel)
    ensures
        !ticks_frame(after_event(b, MobileEvent::Exit), MobileEvent::Render),
        after_event(after_event(b, MobileEvent::Exit), MobileEvent::Render) == after_event(b, MobileEvent::Exit),
        after_event(after_event(b, MobileEvent::Exit), MobileEvent::Render).frames == after_event(b, MobileEvent::Exit).frames,
{
}

} // verus!
