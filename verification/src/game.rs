//! The player character: a kinematic context (animation frame, position,
//! velocity), six typed behavioural states, and the event-driven state
//! machine over them. The transition table is total: any pair of state and
//! event that it does not list leaves the state unchanged.

use vstd::prelude::*;

use crate::engine::{Cell, Point, Rect, Sheet};

verus! {

/// Height of the visible screen in pixels.
pub const HEIGHT: i16 = 600;

/// The vertical floor line: integration never moves the character below it.
pub const FLOOR: i16 = 479;

/// Offset between a sprite's draw box and where its feet rest.
pub const PLAYER_HEIGHT: i16 = HEIGHT - FLOOR;

/// Horizontal speed gained when the character starts running.
pub const RUNNING_SPEED: i16 = 4;

/// Initial horizontal position of the character.
pub const STARTING_POINT: i16 = -20;

/// Largest animation frame of each state; the counter wraps (or the state
/// ends) past it.
pub const IDLE_FRAMES: u8 = 29;

pub const RUNNING_FRAMES: u8 = 23;

pub const JUMPING_FRAMES: u8 = 34;

pub const SLIDING_FRAMES: u8 = 14;

pub const FALLING_FRAMES: u8 = 29;

/// Vertical velocity set on entering a jump; negative is upward.
pub const JUMP_SPEED: i16 = -18;

/// Added to the vertical velocity on every update below terminal velocity.
pub const GRAVITY: i16 = 1;

/// The vertical velocity never grows beyond this.
pub const TERMINAL_VELOCITY: i16 = 20;

/// Lowest vertical position a well-formed grounded state can reach.
pub const GROUND_BASE: i16 = -30000;

/// Lowest vertical position a well-formed airborne state can reach; a jump
/// can descend at most `JUMP_SPEED * JUMP_SPEED` pixels past where it began.
pub const AIR_BASE: i16 = -30324;

/// How far a context can still descend before its vertical velocity turns
/// non-negative: an over-approximation that shrinks by at least the distance
/// fallen on each update.
pub open spec fn descent_margin(v: int) -> int {
    if v < 0 {
        v * v
    } else {
        0
    }
}

/// The mutable kinematic state carried by the character regardless of its
/// behavioural state.
#[derive(Clone, Copy, PartialEq, Eq, Structural, Debug)]
pub struct RedHatBoyContext {
    pub frame: u8,
    pub position: Point,
    pub velocity: Point,
}

impl RedHatBoyContext {
    /// Velocities and positions stay far enough from the `i16` limits for
    /// one more update.
    pub open spec fn wf(self) -> bool {
        &&& JUMP_SPEED <= self.velocity.y <= TERMINAL_VELOCITY
        &&& 0 <= self.velocity.x <= RUNNING_SPEED
        &&& -30000 <= self.position.x <= 30000
        &&& -32000 <= self.position.y <= 30000
    }

    /// The vertical position stays above `base` through any run of updates:
    /// it is above `base` with room for the whole remaining descent.
    pub open spec fn above(self, base: int) -> bool {
        self.position.y >= base + descent_margin(self.velocity.y as int)
    }

    /// One tick of physics and animation: gravity up to terminal velocity,
    /// frame advance with wrap past `frame_count`, vertical integration,
    /// then the hard floor clamp.
    pub open spec fn spec_update(self, frame_count: u8) -> RedHatBoyContext {
        let vy = if self.velocity.y < TERMINAL_VELOCITY {
            self.velocity.y + GRAVITY
        } else {
            self.velocity.y as int
        };
        let frame = if self.frame < frame_count {
            self.frame + 1
        } else {
            0
        };
        let y0 = self.position.y + vy;
        let y = if y0 > FLOOR {
            FLOOR as int
        } else {
            y0
        };
        RedHatBoyContext {
            frame: frame as u8,
            position: Point { x: self.position.x, y: y as i16 },
            velocity: Point { x: self.velocity.x, y: vy as i16 },
        }
    }

    pub open spec fn spec_reset_frame(self) -> RedHatBoyContext {
        RedHatBoyContext { frame: 0, ..self }
    }

    pub open spec fn spec_set_vertical_velocity(self, y: i16) -> RedHatBoyContext {
        RedHatBoyContext { velocity: Point { x: self.velocity.x, y }, ..self }
    }

    pub open spec fn spec_run_right(self) -> RedHatBoyContext {
        RedHatBoyContext {
            velocity: Point {
                x: (self.velocity.x + RUNNING_SPEED) as i16,
                y: self.velocity.y,
            },
            ..self
        }
    }

    pub open spec fn spec_stop(self) -> RedHatBoyContext {
        RedHatBoyContext { velocity: Point { x: 0, y: 0 }, ..self }
    }

    /// Snap the feet onto a surface whose top edge is at `position`.
    pub open spec fn spec_set_on(self, position: i16) -> RedHatBoyContext {
        RedHatBoyContext {
            position: Point { x: self.position.x, y: (position - PLAYER_HEIGHT) as i16 },
            ..self
        }
    }

    pub fn update(self, frame_count: u8) -> (r: RedHatBoyContext)
        requires
            self.wf(),
        ensures
            r == self.spec_update(frame_count),
    {
        let mut ctx = self;
        if ctx.velocity.y < TERMINAL_VELOCITY {
            ctx.velocity.y = ctx.velocity.y + GRAVITY;
        }
        if ctx.frame < frame_count {
            ctx.frame = ctx.frame + 1;
        } else {
            ctx.frame = 0;
        }
        ctx.position.y = ctx.position.y + ctx.velocity.y;
        if ctx.position.y > FLOOR {
            ctx.position.y = FLOOR;
        }
        ctx
    }

    pub fn reset_frame(self) -> (r: RedHatBoyContext)
        ensures
            r == self.spec_reset_frame(),
    {
        let mut ctx = self;
        ctx.frame = 0;
        ctx
    }

    pub fn set_vertical_velocity(self, y: i16) -> (r: RedHatBoyContext)
        ensures
            r == self.spec_set_vertical_velocity(y),
    {
        let mut ctx = self;
        ctx.velocity.y = y;
        ctx
    }

    pub fn run_right(self) -> (r: RedHatBoyContext)
        requires
            self.velocity.x + RUNNING_SPEED <= i16::MAX,
        ensures
            r == self.spec_run_right(),
    {
        let mut ctx = self;
        ctx.velocity.x = ctx.velocity.x + RUNNING_SPEED;
        ctx
    }

    pub fn stop(self) -> (r: RedHatBoyContext)
        ensures
            r == self.spec_stop(),
    {
        let mut ctx = self;
        ctx.velocity.x = 0;
        ctx.velocity.y = 0;
        ctx
    }

    pub fn set_on(self, position: i16) -> (r: RedHatBoyContext)
        requires
            i16::MIN + PLAYER_HEIGHT <= position,
        ensures
            r == self.spec_set_on(position),
    {
        let mut ctx = self;
        ctx.position.y = position - PLAYER_HEIGHT;
        ctx
    }
}

/// The remaining descent of a well-formed velocity is at most the square of
/// the jump speed.
pub proof fn lemma_margin_bounds(v: int)
    requires
        JUMP_SPEED <= v <= TERMINAL_VELOCITY,
    ensures
        0 <= descent_margin(v) <= 324,
{
    if v < 0 {
        assert(0 <= v * v <= 324) by (nonlinear_arith)
            requires
                -18 <= v < 0,
        ;
    }
}

/// An update keeps a well-formed context well-formed, keeps it above its
/// descent base, and keeps the frame counter within `frame_count`.
pub proof fn lemma_update_preserves_above(c: RedHatBoyContext, frame_count: u8, base: int)
    requires
        c.wf(),
        c.above(base),
        -32000 <= base <= -30000,
    ensures
        c.spec_update(frame_count).wf(),
        c.spec_update(frame_count).above(base),
        c.spec_update(frame_count).frame <= frame_count,
        c.spec_update(frame_count).position.y <= FLOOR,
        c.velocity.y >= 0 ==> c.spec_update(frame_count).velocity.y >= 0,
        c.spec_update(frame_count).velocity.x == c.velocity.x,
        c.spec_update(frame_count).position.x == c.position.x,
{
    let v = c.velocity.y as int;
    let r = c.spec_update(frame_count);
    let vn = r.velocity.y as int;
    lemma_margin_bounds(v);
    lemma_margin_bounds(vn);
    if v < 0 {
        assert((v + 1) * (v + 1) == v * v + 2 * v + 1) by (nonlinear_arith);
    }
    assert(r.above(base));
}

/// `n` updates in a row, oldest first.
pub open spec fn spec_ticks(c: RedHatBoyContext, frame_count: u8, n: nat) -> RedHatBoyContext
    decreases n,
{
    if n == 0 {
        c
    } else {
        spec_ticks(c, frame_count, (n - 1) as nat).spec_update(frame_count)
    }
}

/// The animation counter cycles: each update advances it by one until the
/// state's frame count, then wraps it to zero, and it never exceeds the
/// frame count.
pub proof fn lemma_frame_counter_cycles(c: RedHatBoyContext, frame_count: u8)
    ensures
        c.spec_update(frame_count).frame == if c.frame < frame_count {
            (c.frame + 1) as u8
        } else {
            0u8
        },
        c.spec_update(frame_count).frame <= frame_count,
{
}

/// Any number of updates keeps a well-formed context well-formed and above
/// its descent base.
pub proof fn lemma_ticks_preserve_wf(c: RedHatBoyContext, frame_count: u8, base: int, n: nat)
    requires
        c.wf(),
        c.above(base),
        -32000 <= base <= -30000,
    ensures
        spec_ticks(c, frame_count, n).wf(),
        spec_ticks(c, frame_count, n).above(base),
    decreases n,
{
    if n > 0 {
        lemma_ticks_preserve_wf(c, frame_count, base, (n - 1) as nat);
        lemma_update_preserves_above(spec_ticks(c, frame_count, (n - 1) as nat), frame_count, base);
    }
}

/// However many updates run, a vertical velocity that starts at or below
/// terminal velocity never exceeds it.
pub proof fn lemma_velocity_never_exceeds_terminal(c: RedHatBoyContext, frame_count: u8, n: nat)
    requires
        c.velocity.y <= TERMINAL_VELOCITY,
    ensures
        spec_ticks(c, frame_count, n).velocity.y <= TERMINAL_VELOCITY,
    decreases n,
{
    if n > 0 {
        lemma_velocity_never_exceeds_terminal(c, frame_count, (n - 1) as nat);
    }
}

/// After any update at all the vertical position is at or above the floor
/// line: the clamp holds for arbitrarily many ticks.
pub proof fn lemma_floor_is_hard_clamp(c: RedHatBoyContext, frame_count: u8, n: nat)
    requires
        n >= 1,
        c.wf(),
        c.above(AIR_BASE as int),
    ensures
        spec_ticks(c, frame_count, n).position.y <= FLOOR,
{
    lemma_ticks_preserve_wf(c, frame_count, AIR_BASE as int, (n - 1) as nat);
    lemma_update_preserves_above(
        spec_ticks(c, frame_count, (n - 1) as nat),
        frame_count,
        AIR_BASE as int,
    );
}

/// Zero-size tags naming the six behavioural states.
#[derive(Clone, Copy, PartialEq, Eq, Structural, Debug)]
pub struct Idle;

#[derive(Clone, Copy, PartialEq, Eq, Structural, Debug)]
pub struct Running;

#[derive(Clone, Copy, PartialEq, Eq, Structural, Debug)]
pub struct Jumping;

#[derive(Clone, Copy, PartialEq, Eq, Structural, Debug)]
pub struct Sliding;

#[derive(Clone, Copy, PartialEq, Eq, Structural, Debug)]
pub struct Falling;

#[derive(Clone, Copy, PartialEq, Eq, Structural, Debug)]
pub struct KnockedOut;

/// A context together with the tag of the state that owns it.
#[derive(Clone, Copy, PartialEq, Eq, Structural, Debug)]
pub struct RedHatBoyState<S> {
    pub context: RedHatBoyContext,
    pub _state: S,
}

impl<S> RedHatBoyState<S> {
    pub fn context(&self) -> (r: &RedHatBoyContext)
        ensures
            *r == self.context,
    {
        &self.context
    }
}

impl RedHatBoyState<Idle> {
    pub open spec fn wf(self) -> bool {
        &&& self.context.wf()
        &&& self.context.above(GROUND_BASE as int)
        &&& self.context.frame <= IDLE_FRAMES
        &&& self.context.velocity.x == 0
    }

    pub fn new() -> (r: RedHatBoyState<Idle>)
        ensures
            r == (RedHatBoyState {
                context: RedHatBoyContext {
                    frame: 0,
                    position: Point { x: STARTING_POINT, y: FLOOR },
                    velocity: Point { x: 0, y: 0 },
                },
                _state: Idle,
            }),
            r.wf(),
    {
        RedHatBoyState {
            context: RedHatBoyContext {
                frame: 0,
                position: Point { x: STARTING_POINT, y: FLOOR },
                velocity: Point { x: 0, y: 0 },
            },
            _state: Idle,
        }
    }

    pub fn frame_name(&self) -> (r: &'static str)
        ensures
            r@ == "Idle"@,
    {
        "Idle"
    }

    pub fn update(self) -> (r: RedHatBoyState<Idle>)
        requires
            self.wf(),
        ensures
            r == (RedHatBoyState { context: self.context.spec_update(IDLE_FRAMES), _state: Idle }),
    {
        proof {
            lemma_update_preserves_above(self.context, IDLE_FRAMES, GROUND_BASE as int);
        }
        RedHatBoyState { context: self.context.update(IDLE_FRAMES), _state: Idle }
    }

    pub fn run(self) -> (r: RedHatBoyState<Running>)
        requires
            self.wf(),
        ensures
            r == (RedHatBoyState {
                context: self.context.spec_reset_frame().spec_run_right(),
                _state: Running,
            }),
    {
        RedHatBoyState { context: self.context.reset_frame().run_right(), _state: Running }
    }
}

impl RedHatBoyState<Running> {
    pub open spec fn wf(self) -> bool {
        &&& self.context.wf()
        &&& self.context.above(GROUND_BASE as int)
        &&& self.context.frame <= RUNNING_FRAMES
    }

    pub fn frame_name(&self) -> (r: &'static str)
        ensures
            r@ == "Run"@,
    {
        "Run"
    }

    pub fn update(self) -> (r: RedHatBoyState<Running>)
        requires
            self.wf(),
        ensures
            r == (RedHatBoyState {
                context: self.context.spec_update(RUNNING_FRAMES),
                _state: Running,
            }),
    {
        proof {
            lemma_update_preserves_above(self.context, RUNNING_FRAMES, GROUND_BASE as int);
        }
        RedHatBoyState { context: self.context.update(RUNNING_FRAMES), _state: Running }
    }

    pub fn jump(self) -> (r: RedHatBoyState<Jumping>)
        requires
            self.wf(),
        ensures
            r == (RedHatBoyState {
                context: self.context.spec_reset_frame().spec_set_vertical_velocity(JUMP_SPEED),
                _state: Jumping,
            }),
    {
        RedHatBoyState {
            context: self.context.reset_frame().set_vertical_velocity(JUMP_SPEED),
            _state: Jumping,
        }
    }

    pub fn slide(self) -> (r: RedHatBoyState<Sliding>)
        requires
            self.wf(),
        ensures
            r == (RedHatBoyState { context: self.context.spec_reset_frame(), _state: Sliding }),
    {
        RedHatBoyState { context: self.context.reset_frame(), _state: Sliding }
    }

    pub fn knock_out(self) -> (r: RedHatBoyState<Falling>)
        requires
            self.wf(),
        ensures
            r == (RedHatBoyState {
                context: self.context.spec_reset_frame().spec_stop(),
                _state: Falling,
            }),
    {
        RedHatBoyState { context: self.context.reset_frame().stop(), _state: Falling }
    }

    pub fn land_on(self, position: i16) -> (r: RedHatBoyState<Running>)
        requires
            self.wf(),
            -29000 <= position <= 29000,
        ensures
            r == (RedHatBoyState { context: self.context.spec_set_on(position), _state: Running }),
    {
        RedHatBoyState { context: self.context.set_on(position), _state: Running }
    }
}

/// What a jumping update resolves to: still airborne, or landed back in
/// `Running`.
pub enum JumpingEndState {
    Jumping(RedHatBoyState<Jumping>),
    Landing(RedHatBoyState<Running>),
}

impl RedHatBoyState<Jumping> {
    pub open spec fn wf(self) -> bool {
        &&& self.context.wf()
        &&& self.context.above(AIR_BASE as int)
        &&& self.context.frame <= JUMPING_FRAMES
    }

    pub fn frame_name(&self) -> (r: &'static str)
        ensures
            r@ == "Jump"@,
    {
        "Jump"
    }

    pub fn knock_out(self) -> (r: RedHatBoyState<Falling>)
        requires
            self.wf(),
        ensures
            r == (RedHatBoyState {
                context: self.context.spec_reset_frame().spec_stop(),
                _state: Falling,
            }),
    {
        RedHatBoyState { context: self.context.reset_frame().stop(), _state: Falling }
    }

    pub fn update(self) -> (r: JumpingEndState)
        requires
            self.wf(),
        ensures
            ({
                let c = self.context.spec_update(JUMPING_FRAMES);
                if c.position.y >= FLOOR {
                    r == JumpingEndState::Landing(RedHatBoyState::<Running> {
                        context: c.spec_reset_frame().spec_set_on(HEIGHT),
                        _state: Running,
                    })
                } else {
                    r == JumpingEndState::Jumping(RedHatBoyState::<Jumping> {
                        context: c,
                        _state: Jumping,
                    })
                }
            }),
    {
        proof {
            lemma_update_preserves_above(self.context, JUMPING_FRAMES, AIR_BASE as int);
        }
        let state = RedHatBoyState { context: self.context.update(JUMPING_FRAMES), _state: Jumping };
        if state.context.position.y >= FLOOR {
            JumpingEndState::Landing(state.land_on(HEIGHT))
        } else {
            JumpingEndState::Jumping(state)
        }
    }

    pub fn land_on(self, position: i16) -> (r: RedHatBoyState<Running>)
        requires
            self.wf(),
            -29000 <= position <= 29000,
        ensures
            r == (RedHatBoyState {
                context: self.context.spec_reset_frame().spec_set_on(position),
                _state: Running,
            }),
    {
        RedHatBoyState { context: self.context.reset_frame().set_on(position), _state: Running }
    }
}

/// What a sliding update resolves to: still sliding, or stood back up.
pub enum SlidingEndState {
    Sliding(RedHatBoyState<Sliding>),
    Running(RedHatBoyState<Running>),
}

impl RedHatBoyState<Sliding> {
    pub open spec fn wf(self) -> bool {
        &&& self.context.wf()
        &&& self.context.above(GROUND_BASE as int)
        &&& self.context.frame < SLIDING_FRAMES
    }

    pub fn frame_name(&self) -> (r: &'static str)
        ensures
            r@ == "Slide"@,
    {
        "Slide"
    }

    pub fn stand(self) -> (r: RedHatBoyState<Running>)
        requires
            self.wf(),
        ensures
            r == (RedHatBoyState { context: self.context.spec_reset_frame(), _state: Running }),
    {
        RedHatBoyState { context: self.context.reset_frame(), _state: Running }
    }

    pub fn knock_out(self) -> (r: RedHatBoyState<Falling>)
        requires
            self.wf(),
        ensures
            r == (RedHatBoyState {
                context: self.context.spec_reset_frame().spec_stop(),
                _state: Falling,
            }),
    {
        RedHatBoyState { context: self.context.reset_frame().stop(), _state: Falling }
    }

    pub fn update(self) -> (r: SlidingEndState)
        requires
            self.wf(),
        ensures
            ({
                let c = self.context.spec_update(SLIDING_FRAMES);
                if c.frame >= SLIDING_FRAMES {
                    r == SlidingEndState::Running(RedHatBoyState::<Running> {
                        context: c.spec_reset_frame(),
                        _state: Running,
                    })
                } else {
                    r == SlidingEndState::Sliding(RedHatBoyState::<Sliding> {
                        context: c,
                        _state: Sliding,
                    })
                }
            }),
    {
        proof {
            lemma_update_preserves_above(self.context, SLIDING_FRAMES, GROUND_BASE as int);
        }
        let state = RedHatBoyState { context: self.context.update(SLIDING_FRAMES), _state: Sliding };
        if state.context.frame >= SLIDING_FRAMES {
            SlidingEndState::Running(RedHatBoyState {
                context: state.context.reset_frame(),
                _state: Running,
            })
        } else {
            SlidingEndState::Sliding(state)
        }
    }

    pub fn land_on(self, position: i16) -> (r: RedHatBoyState<Sliding>)
        requires
            self.wf(),
            -29000 <= position <= 29000,
        ensures
            r == (RedHatBoyState { context: self.context.spec_set_on(position), _state: Sliding }),
    {
        RedHatBoyState { context: self.context.set_on(position), _state: Sliding }
    }
}

/// What a falling update resolves to: still falling, or come to rest
/// knocked out.
pub enum FallingEndState {
    KnockedOut(RedHatBoyState<KnockedOut>),
    Falling(RedHatBoyState<Falling>),
}

impl RedHatBoyState<Falling> {
    pub open spec fn wf(self) -> bool {
        &&& self.context.wf()
        &&& self.context.above(AIR_BASE as int)
        &&& self.context.frame < FALLING_FRAMES
        &&& self.context.velocity.y >= 0
    }

    pub fn frame_name(&self) -> (r: &'static str)
        ensures
            r@ == "Dead"@,
    {
        "Dead"
    }

    pub fn knock_out(self) -> (r: RedHatBoyState<KnockedOut>)
        ensures
            r == (RedHatBoyState { context: self.context, _state: KnockedOut }),
    {
        RedHatBoyState { context: self.context, _state: KnockedOut }
    }

    pub fn update(self) -> (r: FallingEndState)
        requires
            self.wf(),
        ensures
            ({
                let c = self.context.spec_update(FALLING_FRAMES);
                if c.frame >= FALLING_FRAMES {
                    r == FallingEndState::KnockedOut(RedHatBoyState::<KnockedOut> {
                        context: c,
                        _state: KnockedOut,
                    })
                } else {
                    r == FallingEndState::Falling(RedHatBoyState::<Falling> {
                        context: c,
                        _state: Falling,
                    })
                }
            }),
    {
        proof {
            lemma_update_preserves_above(self.context, FALLING_FRAMES, AIR_BASE as int);
        }
        let state = RedHatBoyState { context: self.context.update(FALLING_FRAMES), _state: Falling };
        if state.context.frame >= FALLING_FRAMES {
            FallingEndState::KnockedOut(state.knock_out())
        } else {
            FallingEndState::Falling(state)
        }
    }
}

impl RedHatBoyState<KnockedOut> {
    pub open spec fn wf(self) -> bool {
        &&& self.context.wf()
        &&& self.context.above(AIR_BASE as int)
        &&& self.context.frame <= FALLING_FRAMES
        &&& self.context.velocity.y >= 0
    }

    pub fn frame_name(&self) -> (r: &'static str)
        ensures
            r@ == "Dead"@,
    {
        "Dead"
    }

    pub fn land_on(self, position: i16) -> (r: RedHatBoyState<KnockedOut>)
        requires
            self.wf(),
            -29000 <= position <= 29000,
        ensures
            r == (RedHatBoyState { context: self.context.spec_set_on(position), _state: KnockedOut }),
    {
        RedHatBoyState { context: self.context.set_on(position), _state: KnockedOut }
    }
}

/// The events the session can issue into the character state machine.
/// `Update` is the once-per-tick physics event; `Land` carries the top edge
/// of the surface landed on.
#[derive(Clone, Copy, PartialEq, Eq, Structural, Debug)]
pub enum Event {
    Run,
    Jump,
    Slide,
    KnockOut,
    Land(i16),
    Update,
}

/// A `Land` payload far enough from the `i16` limits that the snapped
/// position stays well-formed.
pub open spec fn event_ok(event: Event) -> bool {
    match event {
        Event::Land(position) => -29000 <= position <= 29000,
        _ => true,
    }
}

/// The character state machine: one variant per behavioural state.
#[derive(Clone, Copy)]
pub enum RedHatBoyStateMachine {
    Idle(RedHatBoyState<Idle>),
    Running(RedHatBoyState<Running>),
    Sliding(RedHatBoyState<Sliding>),
    Jumping(RedHatBoyState<Jumping>),
    Falling(RedHatBoyState<Falling>),
    KnockedOut(RedHatBoyState<KnockedOut>),
}

impl RedHatBoyStateMachine {
    pub open spec fn wf(self) -> bool {
        match self {
            RedHatBoyStateMachine::Idle(state) => state.wf(),
            RedHatBoyStateMachine::Running(state) => state.wf(),
            RedHatBoyStateMachine::Sliding(state) => state.wf(),
            RedHatBoyStateMachine::Jumping(state) => state.wf(),
            RedHatBoyStateMachine::Falling(state) => state.wf(),
            RedHatBoyStateMachine::KnockedOut(state) => state.wf(),
        }
    }

    pub open spec fn spec_context(self) -> RedHatBoyContext {
        match self {
            RedHatBoyStateMachine::Idle(state) => state.context,
            RedHatBoyStateMachine::Running(state) => state.context,
            RedHatBoyStateMachine::Sliding(state) => state.context,
            RedHatBoyStateMachine::Jumping(state) => state.context,
            RedHatBoyStateMachine::Falling(state) => state.context,
            RedHatBoyStateMachine::KnockedOut(state) => state.context,
        }
    }

    /// The full transition table. Every pair of state and event that no arm
    /// below lists falls to the final arm and is the identity.
    pub open spec fn spec_transition(self, event: Event) -> RedHatBoyStateMachine {
        match (self, event) {
            (RedHatBoyStateMachine::Idle(state), Event::Run) => RedHatBoyStateMachine::Running(
                RedHatBoyState {
                    context: state.context.spec_reset_frame().spec_run_right(),
                    _state: Running,
                },
            ),
            (RedHatBoyStateMachine::Running(state), Event::Jump) => RedHatBoyStateMachine::Jumping(
                RedHatBoyState {
                    context: state.context.spec_reset_frame().spec_set_vertical_velocity(
                        JUMP_SPEED,
                    ),
                    _state: Jumping,
                },
            ),
            (RedHatBoyStateMachine::Running(state), Event::Slide) => RedHatBoyStateMachine::Sliding(
                RedHatBoyState { context: state.context.spec_reset_frame(), _state: Sliding },
            ),
            (RedHatBoyStateMachine::Running(state), Event::KnockOut) => {
                RedHatBoyStateMachine::Falling(
                    RedHatBoyState {
                        context: state.context.spec_reset_frame().spec_stop(),
                        _state: Falling,
                    },
                )
            },
            (RedHatBoyStateMachine::Running(state), Event::Land(position)) => {
                RedHatBoyStateMachine::Running(
                    RedHatBoyState { context: state.context.spec_set_on(position), _state: Running },
                )
            },
            (RedHatBoyStateMachine::Jumping(state), Event::KnockOut) => {
                RedHatBoyStateMachine::Falling(
                    RedHatBoyState {
                        context: state.context.spec_reset_frame().spec_stop(),
                        _state: Falling,
                    },
                )
            },
            (RedHatBoyStateMachine::Jumping(state), Event::Land(position)) => {
                RedHatBoyStateMachine::Running(
                    RedHatBoyState {
                        context: state.context.spec_reset_frame().spec_set_on(position),
                        _state: Running,
                    },
                )
            },
            (RedHatBoyStateMachine::Sliding(state), Event::KnockOut) => {
                RedHatBoyStateMachine::Falling(
                    RedHatBoyState {
                        context: state.context.spec_reset_frame().spec_stop(),
                        _state: Falling,
                    },
                )
            },
            (RedHatBoyStateMachine::Sliding(state), Event::Land(position)) => {
                RedHatBoyStateMachine::Sliding(
                    RedHatBoyState { context: state.context.spec_set_on(position), _state: Sliding },
                )
            },
            (RedHatBoyStateMachine::KnockedOut(state), Event::Land(position)) => {
                RedHatBoyStateMachine::KnockedOut(
                    RedHatBoyState {
                        context: state.context.spec_set_on(position),
                        _state: KnockedOut,
                    },
                )
            },
            (RedHatBoyStateMachine::Idle(state), Event::Update) => RedHatBoyStateMachine::Idle(
                RedHatBoyState { context: state.context.spec_update(IDLE_FRAMES), _state: Idle },
            ),
            (RedHatBoyStateMachine::Running(state), Event::Update) => {
                RedHatBoyStateMachine::Running(
                    RedHatBoyState {
                        context: state.context.spec_update(RUNNING_FRAMES),
                        _state: Running,
                    },
                )
            },
            (RedHatBoyStateMachine::Jumping(state), Event::Update) => {
                let c = state.context.spec_update(JUMPING_FRAMES);
                if c.position.y >= FLOOR {
                    RedHatBoyStateMachine::Running(
                        RedHatBoyState {
                            context: c.spec_reset_frame().spec_set_on(HEIGHT),
                            _state: Running,
                        },
                    )
                } else {
                    RedHatBoyStateMachine::Jumping(RedHatBoyState { context: c, _state: Jumping })
                }
            },
            (RedHatBoyStateMachine::Sliding(state), Event::Update) => {
                let c = state.context.spec_update(SLIDING_FRAMES);
                if c.frame >= SLIDING_FRAMES {
                    RedHatBoyStateMachine::Running(
                        RedHatBoyState { context: c.spec_reset_frame(), _state: Running },
                    )
                } else {
                    RedHatBoyStateMachine::Sliding(RedHatBoyState { context: c, _state: Sliding })
                }
            },
            (RedHatBoyStateMachine::Falling(state), Event::Update) => {
                let c = state.context.spec_update(FALLING_FRAMES);
                if c.frame >= FALLING_FRAMES {
                    RedHatBoyStateMachine::KnockedOut(
                        RedHatBoyState { context: c, _state: KnockedOut },
                    )
                } else {
                    RedHatBoyStateMachine::Falling(RedHatBoyState { context: c, _state: Falling })
                }
            },
            _ => self,
        }
    }

    pub open spec fn spec_frame_name(self) -> Seq<char> {
        match self {
            RedHatBoyStateMachine::Idle(_) => "Idle"@,
            RedHatBoyStateMachine::Running(_) => "Run"@,
            RedHatBoyStateMachine::Sliding(_) => "Slide"@,
            RedHatBoyStateMachine::Jumping(_) => "Jump"@,
            RedHatBoyStateMachine::Falling(_) => "Dead"@,
            RedHatBoyStateMachine::KnockedOut(_) => "Dead"@,
        }
    }

    pub fn transition(self, event: Event) -> (r: RedHatBoyStateMachine)
        requires
            self.wf(),
            event_ok(event),
        ensures
            r == self.spec_transition(event),
            r.wf(),
    {
        proof {
            lemma_transition_preserves_wf(self, event);
        }
        match (self, event) {
            (RedHatBoyStateMachine::Idle(state), Event::Run) => RedHatBoyStateMachine::Running(
                state.run(),
            ),
            (RedHatBoyStateMachine::Running(state), Event::Jump) => RedHatBoyStateMachine::Jumping(
                state.jump(),
            ),
            (RedHatBoyStateMachine::Running(state), Event::Slide) => RedHatBoyStateMachine::Sliding(
                state.slide(),
            ),
            (RedHatBoyStateMachine::Running(state), Event::KnockOut) => {
                RedHatBoyStateMachine::Falling(state.knock_out())
            },
            (RedHatBoyStateMachine::Running(state), Event::Land(position)) => {
                RedHatBoyStateMachine::Running(state.land_on(position))
            },
            (RedHatBoyStateMachine::Jumping(state), Event::KnockOut) => {
                RedHatBoyStateMachine::Falling(state.knock_out())
            },
            (RedHatBoyStateMachine::Jumping(state), Event::Land(position)) => {
                RedHatBoyStateMachine::Running(state.land_on(position))
            },
            (RedHatBoyStateMachine::Sliding(state), Event::KnockOut) => {
                RedHatBoyStateMachine::Falling(state.knock_out())
            },
            (RedHatBoyStateMachine::Sliding(state), Event::Land(position)) => {
                RedHatBoyStateMachine::Sliding(state.land_on(position))
            },
            (RedHatBoyStateMachine::KnockedOut(state), Event::Land(position)) => {
                RedHatBoyStateMachine::KnockedOut(state.land_on(position))
            },
            (RedHatBoyStateMachine::Idle(state), Event::Update) => RedHatBoyStateMachine::Idle(
                state.update(),
            ),
            (RedHatBoyStateMachine::Running(state), Event::Update) => {
                RedHatBoyStateMachine::Running(state.update())
            },
            (RedHatBoyStateMachine::Jumping(state), Event::Update) => {
                match state.update() {
                    JumpingEndState::Jumping(jumping) => RedHatBoyStateMachine::Jumping(jumping),
                    JumpingEndState::Landing(landing) => RedHatBoyStateMachine::Running(landing),
                }
            },
            (RedHatBoyStateMachine::Sliding(state), Event::Update) => {
                match state.update() {
                    SlidingEndState::Sliding(sliding) => RedHatBoyStateMachine::Sliding(sliding),
                    SlidingEndState::Running(running) => RedHatBoyStateMachine::Running(running),
                }
            },
            (RedHatBoyStateMachine::Falling(state), Event::Update) => {
                match state.update() {
                    FallingEndState::Falling(falling) => RedHatBoyStateMachine::Falling(falling),
                    FallingEndState::KnockedOut(dead) => RedHatBoyStateMachine::KnockedOut(dead),
                }
            },
            _ => self,
        }
    }

    pub fn update(self) -> (r: RedHatBoyStateMachine)
        requires
            self.wf(),
        ensures
            r == self.spec_transition(Event::Update),
            r.wf(),
    {
        self.transition(Event::Update)
    }

    pub fn context(&self) -> (r: RedHatBoyContext)
        ensures
            r == self.spec_context(),
    {
        match self {
            RedHatBoyStateMachine::Idle(state) => *state.context(),
            RedHatBoyStateMachine::Running(state) => *state.context(),
            RedHatBoyStateMachine::Sliding(state) => *state.context(),
            RedHatBoyStateMachine::Jumping(state) => *state.context(),
            RedHatBoyStateMachine::Falling(state) => *state.context(),
            RedHatBoyStateMachine::KnockedOut(state) => *state.context(),
        }
    }

    pub fn frame_name(&self) -> (r: &'static str)
        ensures
            r@ == self.spec_frame_name(),
    {
        match self {
            RedHatBoyStateMachine::Idle(state) => state.frame_name(),
            RedHatBoyStateMachine::Running(state) => state.frame_name(),
            RedHatBoyStateMachine::Sliding(state) => state.frame_name(),
            RedHatBoyStateMachine::Jumping(state) => state.frame_name(),
            RedHatBoyStateMachine::Falling(state) => state.frame_name(),
            RedHatBoyStateMachine::KnockedOut(state) => state.frame_name(),
        }
    }

    pub fn knocked_out(&self) -> (r: bool)
        ensures
            r == (self is KnockedOut),
    {
        match self {
            RedHatBoyStateMachine::KnockedOut(_) => true,
            _ => false,
        }
    }
}

/// The pairs of state and event that the transition table lists; every
/// other pair is a no-op.
pub open spec fn listed_in_table(machine: RedHatBoyStateMachine, event: Event) -> bool {
    match (machine, event) {
        (RedHatBoyStateMachine::Idle(_), Event::Run) => true,
        (RedHatBoyStateMachine::Idle(_), Event::Update) => true,
        (RedHatBoyStateMachine::Running(_), Event::Jump) => true,
        (RedHatBoyStateMachine::Running(_), Event::Slide) => true,
        (RedHatBoyStateMachine::Running(_), Event::KnockOut) => true,
        (RedHatBoyStateMachine::Running(_), Event::Land(_)) => true,
        (RedHatBoyStateMachine::Running(_), Event::Update) => true,
        (RedHatBoyStateMachine::Jumping(_), Event::KnockOut) => true,
        (RedHatBoyStateMachine::Jumping(_), Event::Land(_)) => true,
        (RedHatBoyStateMachine::Jumping(_), Event::Update) => true,
        (RedHatBoyStateMachine::Sliding(_), Event::KnockOut) => true,
        (RedHatBoyStateMachine::Sliding(_), Event::Land(_)) => true,
        (RedHatBoyStateMachine::Sliding(_), Event::Update) => true,
        (RedHatBoyStateMachine::Falling(_), Event::Update) => true,
        (RedHatBoyStateMachine::KnockedOut(_), Event::Land(_)) => true,
        _ => false,
    }
}

/// Any event a state does not list leaves the machine exactly as it was.
pub proof fn lemma_unlisted_event_is_identity(machine: RedHatBoyStateMachine, event: Event)
    requires
        !listed_in_table(machine, event),
    ensures
        machine.spec_transition(event) == machine,
{
}

/// The frame counter of every state stays within that state's frame count:
/// idle cycles within 0..=29, running within 0..=23, sliding within 0..=13,
/// jumping within 0..=34 and falling within 0..=28 (a falling counter that
/// reaches 29 is already the knocked-out state).
pub open spec fn frames_in_range(machine: RedHatBoyStateMachine) -> bool {
    match machine {
        RedHatBoyStateMachine::Idle(state) => state.context.frame <= IDLE_FRAMES,
        RedHatBoyStateMachine::Running(state) => state.context.frame <= RUNNING_FRAMES,
        RedHatBoyStateMachine::Sliding(state) => state.context.frame < SLIDING_FRAMES,
        RedHatBoyStateMachine::Jumping(state) => state.context.frame <= JUMPING_FRAMES,
        RedHatBoyStateMachine::Falling(state) => state.context.frame < FALLING_FRAMES,
        RedHatBoyStateMachine::KnockedOut(state) => state.context.frame <= FALLING_FRAMES,
    }
}

/// Transitions from well-formed states produce well-formed states; in
/// particular every frame counter stays in its state's range.
pub proof fn lemma_transition_preserves_wf(machine: RedHatBoyStateMachine, event: Event)
    requires
        machine.wf(),
        event_ok(event),
    ensures
        machine.spec_transition(event).wf(),
        frames_in_range(machine.spec_transition(event)),
{
    lemma_margin_bounds(machine.spec_context().velocity.y as int);
    match (machine, event) {
        (RedHatBoyStateMachine::Idle(state), Event::Update) => {
            lemma_update_preserves_above(state.context, IDLE_FRAMES, GROUND_BASE as int);
        },
        (RedHatBoyStateMachine::Running(state), Event::Update) => {
            lemma_update_preserves_above(state.context, RUNNING_FRAMES, GROUND_BASE as int);
        },
        (RedHatBoyStateMachine::Jumping(state), Event::Update) => {
            lemma_update_preserves_above(state.context, JUMPING_FRAMES, AIR_BASE as int);
            lemma_margin_bounds(
                state.context.spec_update(JUMPING_FRAMES).velocity.y as int,
            );
        },
        (RedHatBoyStateMachine::Sliding(state), Event::Update) => {
            lemma_update_preserves_above(state.context, SLIDING_FRAMES, GROUND_BASE as int);
        },
        (RedHatBoyStateMachine::Falling(state), Event::Update) => {
            lemma_update_preserves_above(state.context, FALLING_FRAMES, AIR_BASE as int);
        },
        _ => {},
    }
}

/// The player character: its state machine plus the sprite metadata used to
/// derive its draw and collision boxes.
#[derive(Clone)]
pub struct RedHatBoy {
    pub state_machine: RedHatBoyStateMachine,
    pub sprite_sheet: Sheet,
}

impl RedHatBoy {
    pub open spec fn wf(self) -> bool {
        &&& self.state_machine.wf()
        &&& self.sprite_sheet.wf()
    }

    /// The animation cell the character currently shows: one cell for every
    /// three ticks of the state's frame counter.
    pub open spec fn spec_current_sprite(self) -> Cell {
        let idx = self.state_machine.spec_context().frame as int / 3;
        match self.state_machine {
            RedHatBoyStateMachine::Idle(_) => self.sprite_sheet.idle@[idx],
            RedHatBoyStateMachine::Running(_) => self.sprite_sheet.run@[idx],
            RedHatBoyStateMachine::Sliding(_) => self.sprite_sheet.slide@[idx],
            RedHatBoyStateMachine::Jumping(_) => self.sprite_sheet.jump@[idx],
            RedHatBoyStateMachine::Falling(_) => self.sprite_sheet.dead@[idx],
            RedHatBoyStateMachine::KnockedOut(_) => self.sprite_sheet.dead@[idx],
        }
    }

    /// Where the current sprite is drawn: the character's position offset by
    /// the sprite's trim, at the sprite's own size.
    pub open spec fn spec_destination_box(self) -> Rect {
        let sprite = self.spec_current_sprite();
        let c = self.state_machine.spec_context();
        Rect {
            position: Point {
                x: (c.position.x + sprite.sprite_source_size.x) as i16,
                y: (c.position.y + sprite.sprite_source_size.y) as i16,
            },
            width: sprite.frame.w,
            height: sprite.frame.h,
        }
    }

    /// The gameplay collision box: the draw box inset by fixed pixel
    /// offsets, so that only clearly visible overlap counts as a hit.
    pub open spec fn spec_bounding_box(self) -> Rect {
        let dest = self.spec_destination_box();
        Rect {
            position: Point {
                x: (dest.position.x + 18) as i16,
                y: (dest.position.y + 14) as i16,
            },
            width: (dest.width - 28) as i16,
            height: (dest.height - 14) as i16,
        }
    }

    pub fn new(sprite_sheet: Sheet) -> (r: RedHatBoy)
        requires
            sprite_sheet.wf(),
        ensures
            r.sprite_sheet == sprite_sheet,
            r.state_machine == (RedHatBoyStateMachine::Idle(
                RedHatBoyState {
                    context: RedHatBoyContext {
                        frame: 0,
                        position: Point { x: STARTING_POINT, y: FLOOR },
                        velocity: Point { x: 0, y: 0 },
                    },
                    _state: Idle,
                },
            )),
            r.wf(),
    {
        RedHatBoy {
            state_machine: RedHatBoyStateMachine::Idle(RedHatBoyState::new()),
            sprite_sheet,
        }
    }

    pub fn run_right(&mut self)
        requires
            old(self).wf(),
        ensures
            final(self).state_machine == old(self).state_machine.spec_transition(Event::Run),
            final(self).sprite_sheet == old(self).sprite_sheet,
            final(self).wf(),
    {
        self.state_machine = self.state_machine.transition(Event::Run);
    }

    pub fn slide(&mut self)
        requires
            old(self).wf(),
        ensures
            final(self).state_machine == old(self).state_machine.spec_transition(Event::Slide),
            final(self).sprite_sheet == old(self).sprite_sheet,
            final(self).wf(),
    {
        self.state_machine = self.state_machine.transition(Event::Slide);
    }

    pub fn jump(&mut self)
        requires
            old(self).wf(),
        ensures
            final(self).state_machine == old(self).state_machine.spec_transition(Event::Jump),
            final(self).sprite_sheet == old(self).sprite_sheet,
            final(self).wf(),
    {
        self.state_machine = self.state_machine.transition(Event::Jump);
    }

    pub fn knock_out(&mut self)
        requires
            old(self).wf(),
        ensures
            final(self).state_machine == old(self).state_machine.spec_transition(Event::KnockOut),
            final(self).sprite_sheet == old(self).sprite_sheet,
            final(self).wf(),
    {
        self.state_machine = self.state_machine.transition(Event::KnockOut);
    }

    pub fn land_on(&mut self, position: i16)
        requires
            old(self).wf(),
            -29000 <= position <= 29000,
        ensures
            final(self).state_machine == old(self).state_machine.spec_transition(
                Event::Land(position),
            ),
            final(self).sprite_sheet == old(self).sprite_sheet,
            final(self).wf(),
    {
        self.state_machine = self.state_machine.transition(Event::Land(position));
    }

    pub fn update(&mut self)
        requires
            old(self).wf(),
        ensures
            final(self).state_machine == old(self).state_machine.spec_transition(Event::Update),
            final(self).sprite_sheet == old(self).sprite_sheet,
            final(self).wf(),
    {
        self.state_machine = self.state_machine.update();
    }

    pub fn pos_y(&self) -> (r: i16)
        ensures
            r == self.state_machine.spec_context().position.y,
    {
        self.state_machine.context().position.y
    }

    pub fn velocity_y(&self) -> (r: i16)
        ensures
            r == self.state_machine.spec_context().velocity.y,
    {
        self.state_machine.context().velocity.y
    }

    pub fn walking_speed(&self) -> (r: i16)
        ensures
            r == self.state_machine.spec_context().velocity.x,
    {
        self.state_machine.context().velocity.x
    }

    pub fn knocked_out(&self) -> (r: bool)
        ensures
            r == (self.state_machine is KnockedOut),
    {
        self.state_machine.knocked_out()
    }

    /// The renderer looks sprites up under a key built from this label and
    /// the sprite index; the library itself indexes the structured sheet.
    pub fn frame_label(&self) -> (r: &'static str)
        ensures
            r@ == self.state_machine.spec_frame_name(),
    {
        self.state_machine.frame_name()
    }

    /// Which cell of the current state's animation is showing.
    pub fn sprite_index(&self) -> (r: u8)
        ensures
            r == self.state_machine.spec_context().frame / 3,
    {
        self.state_machine.context().frame / 3
    }

    pub fn current_sprite(&self) -> (r: &Cell)
        requires
            self.wf(),
        ensures
            *r == self.spec_current_sprite(),
            r.wf(),
    {
        let frame: u8 = self.state_machine.context().frame;
        let idx: usize = (frame / 3) as usize;
        match &self.state_machine {
            RedHatBoyStateMachine::Idle(_) => &self.sprite_sheet.idle[idx],
            RedHatBoyStateMachine::Running(_) => &self.sprite_sheet.run[idx],
            RedHatBoyStateMachine::Sliding(_) => &self.sprite_sheet.slide[idx],
            RedHatBoyStateMachine::Jumping(_) => &self.sprite_sheet.jump[idx],
            RedHatBoyStateMachine::Falling(_) => &self.sprite_sheet.dead[idx],
            RedHatBoyStateMachine::KnockedOut(_) => &self.sprite_sheet.dead[idx],
        }
    }

    pub fn destination_box(&self) -> (r: Rect)
        requires
            self.wf(),
        ensures
            r == self.spec_destination_box(),
            r.edges_in_range(),
    {
        let sprite = self.current_sprite();
        let x: i16 = self.state_machine.context().position.x + sprite.sprite_source_size.x;
        let y: i16 = self.state_machine.context().position.y + sprite.sprite_source_size.y;
        Rect::new_from_x_y(x, y, sprite.frame.w, sprite.frame.h)
    }

    pub fn bounding_box(&self) -> (r: Rect)
        requires
            self.wf(),
        ensures
            r == self.spec_bounding_box(),
            r.edges_in_range(),
    {
        let dest = self.destination_box();
        Rect::new_from_x_y(dest.x() + 18, dest.y() + 14, dest.width - 28, dest.height - 14)
    }
}

} // verus!
