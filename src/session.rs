//! One engine session: the logic behind each of the host's entry points, with the
//! handle, failure isolation and drawing left to the caller.
use vstd::prelude::*;
use crate::backend::{BackendModel, Lifecycle, MobileBackend};
use crate::event_bus::{MobileEventBus, after_cleanup, after_install, send_exit, send_render, send_resize, send_touch};
use crate::events::{MobileEvent, NativeEvent, touch_action_of};
use crate::game::{GameAppState, GameModel, after_resize, after_set_mode, after_touch, after_update, direction_of, new_game, mode_of, PlayerModel};
use crate::registry::{DispatchRegistry, RegistryModel, after_dispatch, dispatch_ticks, reached};
use crate::window::WindowModel;

verus! {

/// What a session holds.
pub struct SessionModel {
    pub game: GameModel,
    /// The id of the session's handler in the registry's liveness table.
    pub handler: u64,
    /// The drawing surface's size, in pixels.
    pub width: u32,
    pub height: u32,
}

/// The backend that a new session of `width` by `height` pixels and scale `dpi`
/// hands to the registry: set up, with nothing queued and no frame run yet.
pub open spec fn fresh_backend(width: u32, height: u32, dpi: u32) -> BackendModel {
    BackendModel {
        state: Lifecycle::Initialized,
        window: Some(WindowModel { width, height, dpi }),
        dpi,
        queued: Seq::empty(),
        frames: 0,
    }
}

/// A session: its game, its event bus and its surface size.
pub struct GameState {
    app_state: GameAppState,
    bus: MobileEventBus,
    handler: u64,
    width: u32,
    height: u32,
}

impl View for GameState {
    type V = SessionModel;

    closed spec fn view(&self) -> SessionModel {
        SessionModel { game: self.app_state@, handler: self.handler, width: self.width, height: self.height }
    }
}

impl GameState {
    pub closed spec fn wf(&self) -> bool {
        &&& self.app_state.wf()
        &&& self.bus@ == Some(self.handler)
    }

    /// Starts a session on a surface of `width` by `height` pixels with scale
    /// factor `dpi`, in thousandths, and registers its handler. Returns `None`, the
    /// failure value, only when the registry has no id left to give.
    pub fn new(registry: &mut DispatchRegistry, width: u32, height: u32, dpi: u32) -> (r: Option<GameState>)
        requires
            old(registry).wf(),
        ensures
            final(registry).wf(),
            final(registry)@ == after_install(old(registry)@, None, fresh_backend(width, height, dpi)),
            r is Some <==> old(registry)@.next_id < u64::MAX,
            r matches Some(s) ==> s.wf() && s@.handler == old(registry)@.next_id && s@.width == width
                && s@.height == height && s@.game == new_game(width, height),
    {
        let mut backend = MobileBackend::new(dpi);
        backend.initialize(width, height);
        let mut bus = MobileEventBus::new();
        if !bus.run_event_loop(registry, backend) {
            return None;
        }
        let handler = match bus.handler_id() {
            Some(id) => id,
            None => return None,
        };
        Some(GameState { app_state: GameAppState::new(width, height), bus, handler, width, height })
    }

    pub fn player_x(&self) -> (r: i64)
        ensures
            r == self@.game.player.x,
    {
        self.app_state.player_x()
    }

    pub fn player_y(&self) -> (r: i64)
        ensures
            r == self@.game.player.y,
    {
        self.app_state.player_y()
    }

    pub fn game(&self) -> (r: &GameAppState)
        requires
            self.wf(),
        ensures
            r@ == self@.game,
            r.wf(),
    {
        &self.app_state
    }

    /// The surface changed size: the game takes it, and a resize goes to the
    /// handler.
    pub fn resize(&mut self, registry: &mut DispatchRegistry, width: u32, height: u32)
        requires
            old(self).wf(),
            old(registry).wf(),
        ensures
            final(self).wf(),
            final(registry).wf(),
            final(self)@ == (SessionModel {
                game: after_resize(old(self)@.game, width, height),
                width,
                height,
                ..old(self)@
            }),
            final(registry)@ == after_dispatch(old(registry)@, MobileEvent::Resize { width, height }),
    {
        self.app_state.resize(width, height);
        send_resize(registry, width, height);
        self.width = width;
        self.height = height;
    }

    /// One frame step of `micros` microseconds; `nanos` is a clock reading.
    pub fn update(&mut self, micros: u64, nanos: u64)
        requires
            old(self).wf(),
        ensures
            final(self).wf(),
            final(self)@ == (SessionModel {
                game: GameModel {
                    player: after_update(
                        old(self)@.game.player,
                        micros,
                        (old(self)@.game.width, old(self)@.game.height),
                        nanos,
                    ),
                    ..old(self)@.game
                },
                ..old(self)@
            }),
    {
        self.app_state.update(micros, nanos);
    }

    /// A frame is due. A surface with an empty side draws nothing and sends
    /// nothing; otherwise a render goes to the handler. Returns whether the frame
    /// is to be drawn.
    pub fn render(&self, registry: &mut DispatchRegistry) -> (r: bool)
        requires
            old(registry).wf(),
        ensures
            final(registry).wf(),
            self@.width == 0 || self@.height == 0 ==> !r && final(registry)@ == old(registry)@,
            self@.width > 0 && self@.height > 0 ==> r == dispatch_ticks(old(registry)@, MobileEvent::Render)
                && final(registry)@ == after_dispatch(old(registry)@, MobileEvent::Render),
    {
        if self.width == 0 || self.height == 0 {
            return false;
        }
        send_render(registry)
    }

    pub fn set_direction(&mut self, code: i32)
        requires
            old(self).wf(),
        ensures
            final(self).wf(),
            final(self)@ == (SessionModel {
                game: GameModel {
                    player: PlayerModel { direction: direction_of(code), ..old(self)@.game.player },
                    ..old(self)@.game
                },
                ..old(self)@
            }),
    {
        self.app_state.set_direction(code);
    }

    pub fn set_mode(&mut self, code: i32)
        requires
            old(self).wf(),
        ensures
            final(self).wf(),
            final(self)@ == (SessionModel {
                game: GameModel { player: after_set_mode(old(self)@.game.player, mode_of(code)), ..old(self)@.game },
                ..old(self)@
            }),
    {
        self.app_state.set_mode(code);
    }

    /// A touch at (`x`, `y`), in position units, with a host action code: it goes
    /// to the handler, and the game takes it at once.
    pub fn touch(&mut self, registry: &mut DispatchRegistry, x: i64, y: i64, code: i32)
        requires
            old(self).wf(),
            old(registry).wf(),
        ensures
            final(self).wf(),
            final(registry).wf(),
            final(registry)@ == after_dispatch(
                old(registry)@,
                MobileEvent::Touch { x, y, action: touch_action_of(code) },
            ),
            final(self)@ == (SessionModel {
                game: GameModel {
                    player: after_touch(
                        old(self)@.game.player,
                        x,
                        y,
                        touch_action_of(code),
                        (old(self)@.game.width, old(self)@.game.height),
                    ),
                    ..old(self)@.game
                },
                ..old(self)@
            }),
    {
        send_touch(registry, x, y, code);
        self.app_state.touch(x, y, code);
    }

    /// Hands the frame loop the session's translated events, oldest first.
    pub fn take_events(&self, registry: &mut DispatchRegistry) -> (r: Vec<NativeEvent>)
        requires
            self.wf(),
            old(registry).wf(),
        ensures
            final(registry).wf(),
            match reached(old(registry)@, self@.handler) {
                Some(b) => r@ == b.queued && final(registry)@ == (RegistryModel {
                    live: Some((self@.handler, BackendModel { queued: Seq::empty(), ..b })),
                    ..old(registry)@
                }),
                None => r@ == Seq::<NativeEvent>::empty() && final(registry)@ == old(registry)@,
            },
    {
        registry.take_events(self.handler)
    }

    /// Ends the session: an exit goes to the handler, then the bus lets the handler
    /// go and empties the registry's slot.
    pub fn destroy(self, registry: &mut DispatchRegistry)
        requires
            self.wf(),
            old(registry).wf(),
        ensures
            final(registry).wf(),
            final(registry)@ == after_cleanup(
                after_dispatch(old(registry)@, MobileEvent::Exit),
                Some(self@.handler),
            ),
            reached(final(registry)@, self@.handler) is None,
            final(registry)@.slot is None,
    {
        let mut bus = self.bus;
        send_exit(registry);
        bus.cleanup(registry);
    }
}

} // verus!
