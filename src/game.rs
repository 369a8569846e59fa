//! The game a session runs: one player that the host steers, drags or lets bounce.
//!
//! Positions and sizes are in thousandths of a logical pixel, so that halving a
//! window's size is exact; window bounds are in whole pixels.
use vstd::prelude::*;
use crate::events::{TouchAction, touch_action_of};

verus! {

/// Position units in one pixel.
pub const UNITS_PER_PIXEL: i64 = 1000;

/// The player's side: 200 pixels.
pub const PLAYER_SIZE: i64 = 200000;

/// The largest side a player may have: a billion pixels.
pub const MAX_SIZE: i64 = 1000000000000;

/// No position leaves [-POS_LIMIT, POS_LIMIT].
pub const POS_LIMIT: i64 = 1000000000000000;

/// The largest speed on either axis, in units per second.
pub const MAX_SPEED: i64 = 1000000;

/// Steering speed in manual mode, in units per second.
pub const MANUAL_SPEED: i64 = 300000;

/// Velocity on entering automatic mode, in units per second.
pub const AUTO_VELOCITY_X: i64 = 250000;

pub const AUTO_VELOCITY_Y: i64 = 200000;

/// A frame step is never taken as longer than a tenth of a second, in microseconds.
pub const MAX_STEP_MICROS: u64 = 100000;

/// Which way the player is steered.
#[derive(Clone, Copy, Debug, PartialEq, Eq, Structural)]
pub enum Direction {
    Idle,
    Up,
    Down,
    Left,
    Right,
}

/// The direction for a host code: 1 to 4 are up, down, left and right, and any
/// other code leaves the player idle.
pub open spec fn direction_of(code: i32) -> Direction {
    if code == 1 {
        Direction::Up
    } else if code == 2 {
        Direction::Down
    } else if code == 3 {
        Direction::Left
    } else if code == 4 {
        Direction::Right
    } else {
        Direction::Idle
    }
}

impl From<i32> for Direction {
    fn from(value: i32) -> Self {
        match value {
            1 => Direction::Up,
            2 => Direction::Down,
            3 => Direction::Left,
            4 => Direction::Right,
            _ => Direction::Idle,
        }
    }
}

impl vstd::std_specs::convert::FromSpecImpl<i32> for Direction {
    open spec fn obeys_from_spec() -> bool {
        true
    }

    open spec fn from_spec(v: i32) -> Self {
        direction_of(v)
    }
}

/// Steered by the host, or bouncing on its own.
#[derive(Clone, Copy, Debug, PartialEq, Eq, Structural)]
pub enum Mode {
    Manual,
    Auto,
}

/// The mode for a host code: 1 is automatic, any other code manual.
pub open spec fn mode_of(code: i32) -> Mode {
    if code == 1 {
        Mode::Auto
    } else {
        Mode::Manual
    }
}

impl From<i32> for Mode {
    fn from(value: i32) -> Self {
        match value {
            1 => Mode::Auto,
            _ => Mode::Manual,
        }
    }
}

impl vstd::std_specs::convert::FromSpecImpl<i32> for Mode {
    open spec fn obeys_from_spec() -> bool {
        true
    }

    open spec fn from_spec(v: i32) -> Self {
        mode_of(v)
    }
}

/// A colour, one byte per channel.
#[derive(Clone, Copy, Debug, PartialEq, Eq, Structural)]
pub struct Rgb {
    pub r: u8,
    pub g: u8,
    pub b: u8,
}

/// The bright colour that a clock reading picks: each channel is 128 plus half of
/// one of the reading's three low bytes.
pub open spec fn bright_color_of(nanos: u64) -> Rgb {
    Rgb {
        r: (128 + (nanos % 256) / 2) as u8,
        g: (128 + ((nanos / 256) % 256) / 2) as u8,
        b: (128 + ((nanos / 65536) % 256) / 2) as u8,
    }
}

/// Picks a bright colour from the clock reading `nanos`.
pub fn bright_color(nanos: u64) -> (r: Rgb)
    ensures
        r == bright_color_of(nanos),
{
    let r = (nanos % 256) as u8 / 2 + 128;
    let g = ((nanos / 256) % 256) as u8 / 2 + 128;
    let b = ((nanos / 65536) % 256) as u8 / 2 + 128;
    Rgb { r, g, b }
}

/// What a player is, as far as its users can tell.
pub struct PlayerModel {
    pub x: i64,
    pub y: i64,
    pub size: i64,
    pub direction: Direction,
    pub mode: Mode,
    pub velocity: (i64, i64),
    pub tint: Rgb,
    pub touched: bool,
    /// From the finger to the player's centre, recorded when the drag began.
    pub drag_offset: (i64, i64),
}

/// `v` held within [`lo`, `hi`].
pub open spec fn clamp(v: int, lo: int, hi: int) -> int {
    if v < lo {
        lo
    } else if v > hi {
        hi
    } else {
        v
    }
}

/// The lowest centre on an axis `bound` units long for a player with half-side
/// `half`: `half`, or the far end's if the axis is shorter than the player.
pub open spec fn axis_lo(half: int, bound: int) -> int {
    if half <= bound - half {
        half
    } else {
        bound - half
    }
}

/// The highest centre on that axis: `bound - half`, or `half` if the axis is
/// shorter than the player.
pub open spec fn axis_hi(half: int, bound: int) -> int {
    if half <= bound - half {
        bound - half
    } else {
        half
    }
}

/// A length in pixels, in position units.
pub open spec fn units(px: u32) -> int {
    px * UNITS_PER_PIXEL
}

/// Whether the point (`x`, `y`) lies in the player's square, edges included.
pub open spec fn covers(p: PlayerModel, x: int, y: int) -> bool {
    let half = p.size / 2;
    &&& p.x - half <= x <= p.x + half
    &&& p.y - half <= y <= p.y + half
}

/// The player after a touch at (`x`, `y`) in a window of `bounds` pixels. A touch
/// down on the player starts a drag and records the offset to its centre; a move
/// during a drag puts the centre at the finger plus that offset, held inside the
/// window on each axis; a touch up ends any drag.
pub open spec fn after_touch(p: PlayerModel, x: i64, y: i64, action: TouchAction, bounds: (u32, u32)) -> PlayerModel {
    let half = p.size / 2;
    match action {
        TouchAction::Down => if covers(p, x as int, y as int) {
            PlayerModel { touched: true, drag_offset: ((p.x - x) as i64, (p.y - y) as i64), ..p }
        } else {
            p
        },
        TouchAction::Up => PlayerModel { touched: false, ..p },
        TouchAction::Move => if p.touched {
            PlayerModel {
                x: clamp(x + p.drag_offset.0, axis_lo(half, units(bounds.0)), axis_hi(half, units(bounds.0))) as i64,
                y: clamp(y + p.drag_offset.1, axis_lo(half, units(bounds.1)), axis_hi(half, units(bounds.1))) as i64,
                ..p
            }
        } else {
            p
        },
    }
}

/// How far velocity `v`, in units per second, carries in `micros` microseconds,
/// rounded toward zero.
pub open spec fn travel(v: int, micros: int) -> int {
    if v >= 0 {
        v * micros / 1000000
    } else {
        -((-v) * micros / 1000000)
    }
}

/// The player after a manual step of `micros` microseconds, before it is held
/// inside the window.
pub open spec fn steered(p: PlayerModel, micros: int) -> PlayerModel {
    let step = MANUAL_SPEED * micros / 1000000;
    match p.direction {
        Direction::Up => PlayerModel { y: (p.y - step) as i64, ..p },
        Direction::Down => PlayerModel { y: (p.y + step) as i64, ..p },
        Direction::Left => PlayerModel { x: (p.x - step) as i64, ..p },
        Direction::Right => PlayerModel { x: (p.x + step) as i64, ..p },
        Direction::Idle => p,
    }
}

/// The player after an automatic step of `micros` microseconds, before it is held
/// inside the window: it moves by its velocity, and on reaching an edge it turns
/// back on that axis and takes the colour that `nanos` picks.
pub open spec fn bounced(p: PlayerModel, micros: int, bounds: (u32, u32), nanos: u64) -> PlayerModel {
    let half = p.size / 2;
    let x = p.x + travel(p.velocity.0 as int, micros);
    let y = p.y + travel(p.velocity.1 as int, micros);
    let hit_x = x <= half || x >= units(bounds.0) - half;
    let hit_y = y <= half || y >= units(bounds.1) - half;
    PlayerModel {
        x: x as i64,
        y: y as i64,
        velocity: (
            if hit_x { -p.velocity.0 } else { p.velocity.0 as int } as i64,
            if hit_y { -p.velocity.1 } else { p.velocity.1 as int } as i64,
        ),
        tint: if hit_x || hit_y { bright_color_of(nanos) } else { p.tint },
        ..p
    }
}

/// The player after a frame step of `micros` microseconds (at most a tenth of a
/// second is taken) in a window of `bounds` pixels: it moves as its mode says and
/// is then held inside the window on each axis. A window with an empty side stops
/// the player.
pub open spec fn after_update(p: PlayerModel, micros: u64, bounds: (u32, u32), nanos: u64) -> PlayerModel {
    if bounds.0 == 0 || bounds.1 == 0 {
        p
    } else {
        let d = if micros < MAX_STEP_MICROS { micros as int } else { MAX_STEP_MICROS as int };
        let half = p.size / 2;
        let moved = match p.mode {
            Mode::Manual => steered(p, d),
            Mode::Auto => bounced(p, d, bounds, nanos),
        };
        PlayerModel {
            x: clamp(moved.x as int, axis_lo(half, units(bounds.0)), axis_hi(half, units(bounds.0))) as i64,
            y: clamp(moved.y as int, axis_lo(half, units(bounds.1)), axis_hi(half, units(bounds.1))) as i64,
            ..moved
        }
    }
}

/// The player's state after `set_mode(mode)`: entering automatic mode starts it
/// moving at the initial velocity.
pub open spec fn after_set_mode(p: PlayerModel, mode: Mode) -> PlayerModel {
    if mode == Mode::Auto && p.mode != Mode::Auto {
        PlayerModel { mode, velocity: (AUTO_VELOCITY_X, AUTO_VELOCITY_Y), ..p }
    } else {
        PlayerModel { mode, ..p }
    }
}

/// The player entity.
pub struct Player {
    x: i64,
    y: i64,
    size: i64,
    direction: Direction,
    mode: Mode,
    velocity: (i64, i64),
    tint: Rgb,
    is_touched: bool,
    drag_offset: (i64, i64),
}

impl View for Player {
    type V = PlayerModel;

    closed spec fn view(&self) -> PlayerModel {
        PlayerModel {
            x: self.x,
            y: self.y,
            size: self.size,
            direction: self.direction,
            mode: self.mode,
            velocity: self.velocity,
            tint: self.tint,
            touched: self.is_touched,
            drag_offset: self.drag_offset,
        }
    }
}

/// The bounds that keep a player's arithmetic exact.
pub open spec fn player_wf(p: PlayerModel) -> bool {
    &&& 0 < p.size <= MAX_SIZE
    &&& -POS_LIMIT <= p.x <= POS_LIMIT
    &&& -POS_LIMIT <= p.y <= POS_LIMIT
    &&& -MAX_SPEED <= p.velocity.0 <= MAX_SPEED
    &&& -MAX_SPEED <= p.velocity.1 <= MAX_SPEED
    &&& -p.size <= p.drag_offset.0 <= p.size
    &&& -p.size <= p.drag_offset.1 <= p.size
}

/// `v` held within [`lo`, `hi`], where `lo <= hi`.
fn clamp_units(v: i64, lo: i64, hi: i64) -> (r: i64)
    requires
        lo <= hi,
    ensures
        r == clamp(v as int, lo as int, hi as int),
{
    if v < lo {
        lo
    } else if v > hi {
        hi
    } else {
        v
    }
}

/// The range of centres on an axis of `bound` pixels, for half-side `half`.
fn axis_range(half: i64, bound: u32) -> (r: (i64, i64))
    requires
        0 <= half <= MAX_SIZE,
    ensures
        r.0 == axis_lo(half as int, units(bound)),
        r.1 == axis_hi(half as int, units(bound)),
        r.0 <= r.1,
        -MAX_SIZE <= r.0,
        r.1 <= POS_LIMIT,
{
    let far = bound as i64 * UNITS_PER_PIXEL - half;
    if half <= far {
        (half, far)
    } else {
        (far, half)
    }
}

/// How far velocity `v` carries in `micros` microseconds.
fn travel_units(v: i64, micros: i64) -> (r: i64)
    requires
        -MAX_SPEED <= v <= MAX_SPEED,
        0 <= micros <= MAX_STEP_MICROS,
    ensures
        r == travel(v as int, micros as int),
        -MAX_SPEED <= r <= MAX_SPEED,
{
    let mag: i64 = if v >= 0 { v } else { -v };
    proof {
        assert(0 <= mag * micros <= MAX_SPEED * MAX_STEP_MICROS) by (nonlinear_arith)
            requires
                0 <= mag <= MAX_SPEED,
                0 <= micros <= MAX_STEP_MICROS,
        ;
        assert(mag * micros / 1000000 <= MAX_SPEED) by (nonlinear_arith)
            requires
                0 <= mag * micros <= MAX_SPEED * MAX_STEP_MICROS,
        ;
    }
    let step = mag * micros / 1000000;
    if v >= 0 {
        step
    } else {
        -step
    }
}

impl Player {
    pub open spec fn wf(&self) -> bool {
        player_wf(self@)
    }

    /// A player of side `size` centred at (`x`, `y`), idle, in manual mode, white.
    pub fn new(x: i64, y: i64, size: i64) -> (r: Self)
        requires
            -POS_LIMIT <= x <= POS_LIMIT,
            -POS_LIMIT <= y <= POS_LIMIT,
            0 < size <= MAX_SIZE,
        ensures
            r.wf(),
            r@ == (PlayerModel {
                x,
                y,
                size,
                direction: Direction::Idle,
                mode: Mode::Manual,
                velocity: (0, 0),
                tint: Rgb { r: 255, g: 255, b: 255 },
                touched: false,
                drag_offset: (0, 0),
            }),
    {
        Player {
            x,
            y,
            size,
            direction: Direction::Idle,
            mode: Mode::Manual,
            velocity: (0, 0),
            tint: Rgb { r: 255, g: 255, b: 255 },
            is_touched: false,
            drag_offset: (0, 0),
        }
    }

    pub fn x(&self) -> (r: i64)
        ensures
            r == self@.x,
    {
        self.x
    }

    pub fn y(&self) -> (r: i64)
        ensures
            r == self@.y,
    {
        self.y
    }

    pub fn size(&self) -> (r: i64)
        ensures
            r == self@.size,
    {
        self.size
    }

    pub fn direction(&self) -> (r: Direction)
        ensures
            r == self@.direction,
    {
        self.direction
    }

    pub fn mode(&self) -> (r: Mode)
        ensures
            r == self@.mode,
    {
        self.mode
    }

    pub fn velocity(&self) -> (r: (i64, i64))
        ensures
            r == self@.velocity,
    {
        self.velocity
    }

    pub fn tint(&self) -> (r: Rgb)
        ensures
            r == self@.tint,
    {
        self.tint
    }

    pub fn is_touched(&self) -> (r: bool)
        ensures
            r == self@.touched,
    {
        self.is_touched
    }

    pub fn set_direction(&mut self, direction: Direction)
        requires
            old(self).wf(),
        ensures
            final(self).wf(),
            final(self)@ == (PlayerModel { direction, ..old(self)@ }),
    {
        self.direction = direction;
    }

    pub fn set_mode(&mut self, mode: Mode)
        requires
            old(self).wf(),
        ensures
            final(self).wf(),
            final(self)@ == after_set_mode(old(self)@, mode),
    {
        if mode == Mode::Auto && self.mode != Mode::Auto {
            self.velocity = (AUTO_VELOCITY_X, AUTO_VELOCITY_Y);
        }
        self.mode = mode;
    }

    /// Re-centres the player at (`x`, `y`).
    pub fn place(&mut self, x: i64, y: i64)
        requires
            old(self).wf(),
            -POS_LIMIT <= x <= POS_LIMIT,
            -POS_LIMIT <= y <= POS_LIMIT,
        ensures
            final(self).wf(),
            final(self)@ == (PlayerModel { x, y, ..old(self)@ }),
    {
        self.x = x;
        self.y = y;
    }

    /// Takes a touch at (`x`, `y`) in a window of `bounds` pixels.
    pub fn handle_touch(&mut self, x: i64, y: i64, action: TouchAction, bounds: (u32, u32))
        requires
            old(self).wf(),
        ensures
            final(self).wf(),
            final(self)@ == after_touch(old(self)@, x, y, action, bounds),
    {
        let half = self.size / 2;
        match action {
            TouchAction::Down => {
                let (tx, ty) = (x as i128, y as i128);
                let (px, py, h) = (self.x as i128, self.y as i128, half as i128);
                if px - h <= tx && tx <= px + h && py - h <= ty && ty <= py + h {
                    self.is_touched = true;
                    self.drag_offset = ((px - tx) as i64, (py - ty) as i64);
                }
            },
            TouchAction::Up => {
                self.is_touched = false;
            },
            TouchAction::Move => {
                if self.is_touched {
                    let (lo_x, hi_x) = axis_range(half, bounds.0);
                    let (lo_y, hi_y) = axis_range(half, bounds.1);
                    let nx = x as i128 + self.drag_offset.0 as i128;
                    let ny = y as i128 + self.drag_offset.1 as i128;
                    self.x = if nx < lo_x as i128 {
                        lo_x
                    } else if nx > hi_x as i128 {
                        hi_x
                    } else {
                        nx as i64
                    };
                    self.y = if ny < lo_y as i128 {
                        lo_y
                    } else if ny > hi_y as i128 {
                        hi_y
                    } else {
                        ny as i64
                    };
                }
            },
        }
    }

    /// Moves the player through one frame step of `micros` microseconds in a window
    /// of `bounds` pixels; `nanos` is a clock reading that picks the colour taken on
    /// a bounce.
    pub fn update(&mut self, micros: u64, bounds: (u32, u32), nanos: u64)
        requires
            old(self).wf(),
        ensures
            final(self).wf(),
            final(self)@ == after_update(old(self)@, micros, bounds, nanos),
    {
        if bounds.0 == 0 || bounds.1 == 0 {
            return;
        }
        let d: i64 = if micros < MAX_STEP_MICROS { micros as i64 } else { MAX_STEP_MICROS as i64 };
        let half = self.size / 2;
        match self.mode {
            Mode::Manual => {
                proof {
                    assert(0 <= MANUAL_SPEED * d <= MANUAL_SPEED * MAX_STEP_MICROS) by (nonlinear_arith)
                        requires
                            0 <= d <= MAX_STEP_MICROS,
                    ;
                }
                let step = MANUAL_SPEED * d / 1000000;
                match self.direction {
                    Direction::Up => self.y = self.y - step,
                    Direction::Down => self.y = self.y + step,
                    Direction::Left => self.x = self.x - step,
                    Direction::Right => self.x = self.x + step,
                    Direction::Idle => {},
                }
            },
            Mode::Auto => {
                let nx = self.x + travel_units(self.velocity.0, d);
                let ny = self.y + travel_units(self.velocity.1, d);
                let bx = bounds.0 as i64 * UNITS_PER_PIXEL;
                let by = bounds.1 as i64 * UNITS_PER_PIXEL;
                self.x = nx;
                self.y = ny;
                if nx <= half || nx >= bx - half {
                    self.velocity.0 = -self.velocity.0;
                    self.tint = bright_color(nanos);
                }
                if ny <= half || ny >= by - half {
                    self.velocity.1 = -self.velocity.1;
                    self.tint = bright_color(nanos);
                }
            },
        }
        let (lo_x, hi_x) = axis_range(half, bounds.0);
        let (lo_y, hi_y) = axis_range(half, bounds.1);
        self.x = clamp_units(self.x, lo_x, hi_x);
        self.y = clamp_units(self.y, lo_y, hi_y);
    }
}

/// What the game holds: its player and the window size, in pixels.
pub struct GameModel {
    pub player: PlayerModel,
    pub width: u32,
    pub height: u32,
}

/// A centre coordinate: half of `px` pixels, in position units.
pub open spec fn centre(px: u32) -> i64 {
    (units(px) / 2) as i64
}

/// The game after the window becomes `width` by `height` pixels. A game whose
/// window had an empty side puts the player at the centre of the new window.
pub open spec fn after_resize(g: GameModel, width: u32, height: u32) -> GameModel {
    GameModel {
        player: if g.width == 0 || g.height == 0 {
            PlayerModel { x: centre(width), y: centre(height), ..g.player }
        } else {
            g.player
        },
        width,
        height,
    }
}

/// A new game in a window of `width` by `height` pixels: a player of the standard
/// size at the centre, idle, in manual mode, white.
pub open spec fn new_game(width: u32, height: u32) -> GameModel {
    GameModel {
        player: PlayerModel {
            x: centre(width),
            y: centre(height),
            size: PLAYER_SIZE,
            direction: Direction::Idle,
            mode: Mode::Manual,
            velocity: (0, 0),
            tint: Rgb { r: 255, g: 255, b: 255 },
            touched: false,
            drag_offset: (0, 0),
        },
        width,
        height,
    }
}

/// The game state of a session.
pub struct GameAppState {
    player: Player,
    width: u32,
    height: u32,
}

impl View for GameAppState {
    type V = GameModel;

    closed spec fn view(&self) -> GameModel {
        GameModel { player: self.player@, width: self.width, height: self.height }
    }
}

impl GameAppState {
    pub open spec fn wf(&self) -> bool {
        player_wf(self@.player)
    }

    /// A game in a window of `width` by `height` pixels, with its player of the
    /// standard size at the centre.
    pub fn new(width: u32, height: u32) -> (r: Self)
        ensures
            r.wf(),
            r@ == new_game(width, height),
    {
        let x = width as i64 * UNITS_PER_PIXEL / 2;
        let y = height as i64 * UNITS_PER_PIXEL / 2;
        GameAppState { player: Player::new(x, y, PLAYER_SIZE), width, height }
    }

    pub fn player(&self) -> (r: &Player)
        requires
            self.wf(),
        ensures
            r@ == self@.player,
            r.wf(),
    {
        &self.player
    }

    pub fn player_x(&self) -> (r: i64)
        ensures
            r == self@.player.x,
    {
        self.player.x()
    }

    pub fn player_y(&self) -> (r: i64)
        ensures
            r == self@.player.y,
    {
        self.player.y()
    }

    pub fn size(&self) -> (r: (u32, u32))
        ensures
            r == (self@.width, self@.height),
    {
        (self.width, self.height)
    }

    /// Takes the window's new size.
    pub fn resize(&mut self, width: u32, height: u32)
        requires
            old(self).wf(),
        ensures
            final(self).wf(),
            final(self)@ == after_resize(old(self)@, width, height),
    {
        if self.width == 0 || self.height == 0 {
            let x = width as i64 * UNITS_PER_PIXEL / 2;
            let y = height as i64 * UNITS_PER_PIXEL / 2;
            self.player.place(x, y);
        }
        self.width = width;
        self.height = height;
    }

    /// Steers the player by a host direction code.
    pub fn set_direction(&mut self, code: i32)
        requires
            old(self).wf(),
        ensures
            final(self).wf(),
            final(self)@ == (GameModel {
                player: PlayerModel { direction: direction_of(code), ..old(self)@.player },
                ..old(self)@
            }),
    {
        self.player.set_direction(Direction::from(code));
    }

    /// Switches the mode by a host mode code.
    pub fn set_mode(&mut self, code: i32)
        requires
            old(self).wf(),
        ensures
            final(self).wf(),
            final(self)@ == (GameModel {
                player: after_set_mode(old(self)@.player, mode_of(code)),
                ..old(self)@
            }),
    {
        self.player.set_mode(Mode::from(code));
    }

    /// Takes a touch at (`x`, `y`), in position units, with a host action code.
    pub fn touch(&mut self, x: i64, y: i64, code: i32)
        requires
            old(self).wf(),
        ensures
            final(self).wf(),
            final(self)@ == (GameModel {
                player: after_touch(
                    old(self)@.player,
                    x,
                    y,
                    touch_action_of(code),
                    (old(self)@.width, old(self)@.height),
                ),
                ..old(self)@
            }),
    {
        let (w, h) = (self.width, self.height);
        self.player.handle_touch(x, y, TouchAction::from(code), (w, h));
    }

    /// One frame step of `micros` microseconds; `nanos` is a clock reading.
    pub fn update(&mut self, micros: u64, nanos: u64)
        requires
            old(self).wf(),
        ensures
            final(self).wf(),
            final(self)@ == (GameModel {
                player: after_update(old(self)@.player, micros, (old(self)@.width, old(self)@.height), nanos),
                ..old(self)@
            }),
    {
        let (w, h) = (self.width, self.height);
        self.player.update(micros, (w, h), nanos);
    }
}

/// The rules of touch: a touch down inside the player's square starts a drag and
/// records the offset from the finger to the centre; a move during a drag puts the
/// centre at the finger plus that offset, held per axis within
/// [half the side, bound minus half the side] when the window is at least as large
/// as the player; a touch up ends the drag wherever it lands.
pub proof fn lemma_touch_rules(p: PlayerModel, x: i64, y: i64, bounds: (u32, u32))
    requires
        player_wf(p),
    ensures
        covers(p, x as int, y as int) ==> ({
            let q = after_touch(p, x, y, TouchAction::Down, bounds);
            q.touched && q.drag_offset == ((p.x - x) as i64, (p.y - y) as i64)
                && q.x == p.x && q.y == p.y
        }),
        !covers(p, x as int, y as int) ==> after_touch(p, x, y, TouchAction::Down, bounds) == p,
        p.touched && p.size <= units(bounds.0) && p.size <= units(bounds.1) ==> ({
            let q = after_touch(p, x, y, TouchAction::Move, bounds);
            let half = p.size / 2;
            &&& q.x == clamp(x + p.drag_offset.0, half, units(bounds.0) - half)
            &&& q.y == clamp(y + p.drag_offset.1, half, units(bounds.1) - half)
            &&& half <= q.x <= units(bounds.0) - half
            &&& half <= q.y <= units(bounds.1) - half
            &&& q.touched
        }),
        !after_touch(p, x, y, TouchAction::Up, bounds).touched,
        after_touch(p, x, y, TouchAction::Up, bounds).x == p.x,
        after_touch(p, x, y, TouchAction::Up, bounds).y == p.y,
{
}

/// A game whose window had an empty side, resized to `width` by `height` pixels,
/// has its player at the centre of the new window.
pub proof fn lemma_resize_from_empty_centres(g: GameModel, width: u32, height: u32)
    requires
        g.width == 0 || g.height == 0,
    ensures
        after_resize(g, width, height).player.x == units(width) / 2,
        after_resize(g, width, height).player.y == units(height) / 2,
        after_resize(g, width, height).width == width,
        after_resize(g, width, height).height == height,
{
}

} // verus!
