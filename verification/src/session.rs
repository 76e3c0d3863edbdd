//! Session orchestration: the `Walk` aggregate (character, live obstacle
//! list, looping background tiles and the generation watermark) and the
//! Ready / Walking / GameOver machine that drives one simulation tick per
//! frame.

use vstd::prelude::*;

use crate::engine::{Cell, Image, Point, Rect, Sheet};
use crate::game::{
    Event, Idle, RedHatBoy, RedHatBoyContext, RedHatBoyState, RedHatBoyStateMachine, FLOOR,
    STARTING_POINT,
};
use crate::obstacles::{
    is_moved, lemma_first_hit_in_range, lemma_live_anchor, lemma_moved_right,
    lemma_rightmost_append, moved_boxes, rightmost, spec_first_hit, spec_rightmost,
    spec_shift_rect, Obstacle,
};
use crate::segments::{
    platform_and_stone, spec_segment, stone_and_platform, FIRST_PLATFORM, HIGH_PLATFORM,
    LOW_PLATFORM, PLATFORM_AND_STONE_PLATFORM_OFFSET, PLATFORM_AND_STONE_STONE_OFFSET,
    PLATFORM_WIDTH, STONE_AND_PLATFORM_STONE_OFFSET,
};

verus! {

/// Generation runs while the watermark is below this lookahead.
pub const TIMELINE_MINIMUM: i16 = 1000;

/// Gap between the watermark and a newly generated segment.
pub const OBSTACLE_BUFFER: i16 = 20;

/// The logical inputs the session reads each tick, plus the one-shot
/// restart signal consumed only in GameOver.
#[derive(Clone, Copy, PartialEq, Eq, Structural, Debug)]
pub struct Inputs {
    pub move_right: bool,
    pub jump: bool,
    pub move_down: bool,
    pub restart: bool,
}

/// Relies on rand::Rng::gen_range over the range `0..2`: whichever value
/// the thread-local generator draws lies in that range.
#[verifier::external_body]
fn random_segment_choice() -> (r: u8)
    ensures
        r < 2,
{
    rand::Rng::gen_range(&mut rand::thread_rng(), 0..2)
}

fn clone_cells(cells: &Vec<Cell>) -> (r: Vec<Cell>)
    ensures
        r@ == cells@,
{
    let mut out: Vec<Cell> = Vec::new();
    let mut i: usize = 0;
    while i < cells.len()
        invariant
            i <= cells@.len(),
            out@ =~= cells@.take(i as int),
        decreases cells@.len() - i,
    {
        out.push(cells[i]);
        proof {
            assert(out@ =~= cells@.take(i + 1));
        }
        i = i + 1;
    }
    proof {
        assert(cells@.take(cells@.len() as int) =~= cells@);
    }
    out
}

/// A background tile wide enough to wrap and positioned where one more
/// scroll step keeps it in range.
pub open spec fn bg_wf(img: Image) -> bool {
    &&& 5 <= img.bounding_box.width <= 3000
    &&& 0 <= img.bounding_box.height <= 3000
    &&& -3000 <= img.bounding_box.position.y <= 3000
    &&& 0 <= img.bounding_box.spec_right() <= 6010
}

/// The two looping tiles cover each other: when one wraps, the other's
/// right edge is close enough to land it back in range.
pub open spec fn bg_pair_wf(first: Image, second: Image) -> bool {
    &&& bg_wf(first)
    &&& bg_wf(second)
    &&& first.bounding_box.spec_right() <= second.bounding_box.spec_right()
        + first.bounding_box.width + 5
    &&& second.bounding_box.spec_right() <= first.bounding_box.spec_right()
        + second.bounding_box.width + 5
}

/// One scroll step of the two looping tiles: both move left, and a tile
/// whose right edge has left the screen is placed after the other one.
pub open spec fn spec_scroll(first: Image, second: Image, velocity: i16) -> (Image, Image) {
    let f1 = Image { bounding_box: spec_shift_rect(first.bounding_box, velocity) };
    let s1 = Image { bounding_box: spec_shift_rect(second.bounding_box, velocity) };
    let f2 = if f1.bounding_box.spec_right() < 0 {
        Image {
            bounding_box: Rect {
                position: Point {
                    x: s1.bounding_box.spec_right() as i16,
                    y: f1.bounding_box.position.y,
                },
                width: f1.bounding_box.width,
                height: f1.bounding_box.height,
            },
        }
    } else {
        f1
    };
    let s2 = if s1.bounding_box.spec_right() < 0 {
        Image {
            bounding_box: Rect {
                position: Point {
                    x: f2.bounding_box.spec_right() as i16,
                    y: s1.bounding_box.position.y,
                },
                width: s1.bounding_box.width,
                height: s1.bounding_box.height,
            },
        }
    } else {
        s1
    };
    (f2, s2)
}

/// One collision step: the boy against one obstacle as it stands after
/// this tick's scroll by `velocity`.
pub open spec fn spec_hit_one(
    machine: RedHatBoyStateMachine,
    sheet: Sheet,
    obstacle: Obstacle,
    velocity: i16,
) -> RedHatBoyStateMachine {
    let boy = RedHatBoy { state_machine: machine, sprite_sheet: sheet };
    let bb = boy.spec_bounding_box();
    match obstacle {
        Obstacle::Barrier(b) => {
            if bb.spec_intersects(spec_shift_rect(b.image.bounding_box, velocity)) {
                machine.spec_transition(Event::KnockOut)
            } else {
                machine
            }
        },
        Obstacle::Platform(p) => {
            match spec_first_hit(moved_boxes(p.bounding_boxes@, velocity), bb) {
                Some(i) => {
                    let c = machine.spec_context();
                    if c.velocity.y > 0 && c.position.y < p.position.y {
                        machine.spec_transition(Event::Land(p.bounding_boxes@[i].position.y))
                    } else {
                        machine.spec_transition(Event::KnockOut)
                    }
                },
                None => machine,
            }
        },
    }
}

/// The boy after the first `k` obstacles of the tick have been moved and
/// checked against it, in list order.
pub open spec fn spec_boy_after(
    machine: RedHatBoyStateMachine,
    sheet: Sheet,
    obstacles: Seq<Obstacle>,
    velocity: i16,
    k: int,
) -> RedHatBoyStateMachine
    decreases k,
{
    if k <= 0 {
        machine
    } else {
        spec_hit_one(
            spec_boy_after(machine, sheet, obstacles, velocity, k - 1),
            sheet,
            obstacles[k - 1],
            velocity,
        )
    }
}

/// `news` is `olds` after this tick: every obstacle moved by `velocity`,
/// and exactly those whose right edge stayed on screen retained, in order.
pub open spec fn obstacles_step(olds: Seq<Obstacle>, news: Seq<Obstacle>, velocity: i16) -> bool
    decreases olds.len(),
{
    if olds.len() == 0 {
        news.len() == 0
    } else {
        let o = olds.last();
        if o.spec_right() + velocity > 0 {
            &&& news.len() >= 1
            &&& is_moved(news.last(), o, velocity)
            &&& obstacles_step(olds.drop_last(), news.drop_last(), velocity)
        } else {
            obstacles_step(olds.drop_last(), news, velocity)
        }
    }
}

/// A moved obstacle behaves against the boy exactly as the collision step
/// of the un-moved obstacle at this tick's scroll.
proof fn lemma_moved_check_is_hit_one(
    moved: Obstacle,
    orig: Obstacle,
    velocity: i16,
    boy: RedHatBoy,
)
    requires
        is_moved(moved, orig, velocity),
    ensures
        moved.spec_check(boy) == spec_hit_one(boy.state_machine, boy.sprite_sheet, orig, velocity),
{
    match (moved, orig) {
        (Obstacle::Platform(np), Obstacle::Platform(op)) => {
            let bb = boy.spec_bounding_box();
            assert(np.bounding_boxes@ == moved_boxes(op.bounding_boxes@, velocity));
            lemma_first_hit_in_range(np.bounding_boxes@, bb);
            match spec_first_hit(np.bounding_boxes@, bb) {
                Some(i) => {
                    assert(np.bounding_boxes@[i] == spec_shift_rect(op.bounding_boxes@[i], velocity));
                },
                None => {},
            }
        },
        _ => {},
    }
}

/// The session aggregate: the character, the two looping background tiles,
/// the live obstacle list in draw/check order, the platform sprite cells
/// and stone size that generation reuses, and the `timeline` watermark for
/// how far generation has progressed.
#[derive(Clone)]
pub struct Walk {
    pub boy: RedHatBoy,
    pub first_background: Image,
    pub second_background: Image,
    pub obstacles: Vec<Obstacle>,
    pub obstacle_sheet: Vec<Cell>,
    pub stone_width: i16,
    pub stone_height: i16,
    pub timeline: i16,
}

impl Walk {
    /// The session invariant: a well-formed character, on-screen obstacles
    /// only (none with its right edge at or left of zero is retained), the
    /// watermark at or below the rightmost obstacle edge, and background
    /// tiles that can keep looping.
    pub open spec fn wf(self) -> bool {
        &&& self.boy.wf()
        &&& forall|i: int| 0 <= i < self.obstacles@.len() ==> (#[trigger] self.obstacles@[i]).wf()
        &&& forall|i: int|
            0 <= i < self.obstacles@.len() ==> (#[trigger] self.obstacles@[i]).spec_right() > 0
        &&& spec_rightmost(self.obstacles@) >= self.timeline
        &&& 0 <= self.timeline <= 26000
        &&& forall|i: int|
            0 <= i < self.obstacle_sheet@.len() ==> (#[trigger] self.obstacle_sheet@[i]).wf()
        &&& self.obstacle_sheet@.len() <= 4
        &&& 0 <= self.stone_width <= 2000
        &&& 0 <= self.stone_height <= 2000
        &&& bg_pair_wf(self.first_background, self.second_background)
    }

    /// The fresh session aggregate: an idle character and one starting
    /// stone-and-platform segment at offset zero.
    pub fn new(
        boy: RedHatBoy,
        first_background: Image,
        second_background: Image,
        obstacle_sheet: Vec<Cell>,
        stone_width: i16,
        stone_height: i16,
    ) -> (r: Walk)
        requires
            boy.wf(),
            bg_pair_wf(first_background, second_background),
            forall|i: int| 0 <= i < obstacle_sheet@.len() ==> (#[trigger] obstacle_sheet@[i]).wf(),
            obstacle_sheet@.len() <= 4,
            0 <= stone_width <= 2000,
            0 <= stone_height <= 2000,
        ensures
            r.boy == boy,
            r.first_background == first_background,
            r.second_background == second_background,
            r.obstacle_sheet == obstacle_sheet,
            r.stone_width == stone_width,
            r.stone_height == stone_height,
            spec_segment(
                r.obstacles@,
                stone_width,
                stone_height,
                obstacle_sheet@,
                STONE_AND_PLATFORM_STONE_OFFSET as int,
                Point { x: FIRST_PLATFORM, y: LOW_PLATFORM },
            ),
            r.timeline == vstd::math::max(
                STONE_AND_PLATFORM_STONE_OFFSET + stone_width,
                FIRST_PLATFORM + PLATFORM_WIDTH,
            ),
            r.wf(),
    {
        let sprites = clone_cells(&obstacle_sheet);
        let starting_obstacles = stone_and_platform(stone_width, stone_height, sprites, 0);
        let timeline = rightmost(&starting_obstacles);
        Walk {
            boy,
            first_background,
            second_background,
            obstacles: starting_obstacles,
            obstacle_sheet,
            stone_width,
            stone_height,
            timeline,
        }
    }

    /// How far the world shifts left this tick.
    pub fn velocity(&self) -> (r: i16)
        requires
            self.boy.wf(),
        ensures
            r == 0 - self.boy.state_machine.spec_context().velocity.x,
    {
        0 - self.boy.walking_speed()
    }

    pub fn knocked_out(&self) -> (r: bool)
        ensures
            r == (self.boy.state_machine is KnockedOut),
    {
        self.boy.knocked_out()
    }

    /// Appends one randomly chosen segment just past the watermark and
    /// advances the watermark to the new rightmost edge.
    pub fn generate_next_segment(&mut self)
        requires
            0 <= old(self).timeline < TIMELINE_MINIMUM,
            forall|i: int|
                0 <= i < old(self).obstacle_sheet@.len() ==> (#[trigger] old(self).obstacle_sheet@[i]).wf(),
            old(self).obstacle_sheet@.len() <= 4,
            0 <= old(self).stone_width <= 2000,
            0 <= old(self).stone_height <= 2000,
            forall|i: int|
                0 <= i < old(self).obstacles@.len() ==> (#[trigger] old(self).obstacles@[i]).wf(),
            forall|i: int|
                0 <= i < old(self).obstacles@.len() ==> (#[trigger] old(self).obstacles@[i]).spec_right() > 0,
        ensures
            exists|pick: int| 0 <= pick < 2 && gen_rel(*old(self), *final(self), pick),
            forall|i: int|
                0 <= i < final(self).obstacles@.len() ==> (#[trigger] final(self).obstacles@[i]).wf(),
            forall|i: int|
                0 <= i < final(self).obstacles@.len() ==> (#[trigger] final(self).obstacles@[i]).spec_right() > 0,
            spec_rightmost(final(self).obstacles@) >= final(self).timeline,
            old(self).timeline + 604 <= final(self).timeline <= 26000,
    {
        let ghost w0 = *self;
        let pick = random_segment_choice();
        let sprites = clone_cells(&self.obstacle_sheet);
        let offset: i16 = self.timeline + OBSTACLE_BUFFER;
        let mut next = if pick == 0 {
            stone_and_platform(self.stone_width, self.stone_height, sprites, offset)
        } else {
            platform_and_stone(self.stone_width, self.stone_height, sprites, offset)
        };
        let ghost seg = next@;
        let new_timeline = rightmost(&next);
        self.timeline = new_timeline;
        self.obstacles.append(&mut next);
        proof {
            let n = w0.obstacles@.len() as int;
            assert(self.obstacles@.take(n) =~= w0.obstacles@);
            assert(self.obstacles@.skip(n) =~= seg);
            assert(gen_rel(w0, *self, pick as int));
            lemma_rightmost_append(w0.obstacles@, seg);
            assert forall|i: int|
                0 <= i < self.obstacles@.len() implies (#[trigger] self.obstacles@[i]).wf()
                && self.obstacles@[i].spec_right() > 0 by {
                if i < n {
                    assert(self.obstacles@[i] == w0.obstacles@[i]);
                } else {
                    assert(self.obstacles@[i] == seg[i - n]);
                }
            }
        }
    }

    /// One full Walking tick: issue this tick's commands and the `Update`
    /// event, scroll the backgrounds with wrap-around, move every obstacle
    /// and resolve its collision against the character in list order,
    /// drop what has scrolled off, then top the obstacle stream up when
    /// the watermark is low, or scroll the watermark along.
    ///
    /// Once past the lookahead threshold, the watermark never falls more
    /// than one scroll step below it, and no retained obstacle has its
    /// right edge at or left of zero.
    pub fn update(self, jump: bool, slide: bool) -> (r: Walk)
        requires
            self.wf(),
        ensures
            walk_tick_rel(self, r, jump, slide),
            r.wf(),
            self.timeline >= TIMELINE_MINIMUM ==> r.timeline >= TIMELINE_MINIMUM
                - crate::game::RUNNING_SPEED,
            self.timeline < TIMELINE_MINIMUM ==> r.timeline >= self.timeline + 604,
            self.timeline >= TIMELINE_MINIMUM - 604 ==> r.timeline >= TIMELINE_MINIMUM
                - crate::game::RUNNING_SPEED,
    {
        let ghost w0 = self;
        let Walk {
            mut boy,
            mut first_background,
            mut second_background,
            obstacles,
            obstacle_sheet,
            stone_width,
            stone_height,
            timeline,
        } = self;

        if jump {
            boy.jump();
        }
        if slide {
            boy.slide();
        }
        boy.update();
        let ghost m3 = boy.state_machine;
        let velocity: i16 = 0 - boy.walking_speed();

        first_background.move_horizontally(velocity);
        second_background.move_horizontally(velocity);
        if first_background.right() < 0 {
            let x = second_background.right();
            first_background.set_x(x);
        }
        if second_background.right() < 0 {
            let x = first_background.right();
            second_background.set_x(x);
        }
        proof {
            assert((first_background, second_background) == spec_scroll(
                w0.first_background,
                w0.second_background,
                velocity,
            ));
            assert(bg_pair_wf(first_background, second_background));
        }

        let ghost olds = obstacles@;
        let mut remaining = obstacles;
        let mut kept: Vec<Obstacle> = Vec::new();
        let ghost mut k: int = 0;
        while remaining.len() > 0
            invariant
                0 <= k <= olds.len(),
                remaining@ == olds.skip(k),
                -4 <= velocity <= 0,
                boy.wf(),
                boy.sprite_sheet == w0.boy.sprite_sheet,
                boy.state_machine == spec_boy_after(m3, w0.boy.sprite_sheet, olds, velocity, k),
                forall|j: int| 0 <= j < olds.len() ==> (#[trigger] olds[j]).wf(),
                forall|j: int| 0 <= j < olds.len() ==> (#[trigger] olds[j]).spec_right() > 0,
                forall|j: int| 0 <= j < kept@.len() ==> (#[trigger] kept@[j]).wf(),
                forall|j: int| 0 <= j < kept@.len() ==> (#[trigger] kept@[j]).spec_right() > 0,
                obstacles_step(olds.take(k), kept@, velocity),
                spec_rightmost(olds.take(k)) + velocity > 0 ==> spec_rightmost(kept@)
                    >= spec_rightmost(olds.take(k)) + velocity,
            decreases remaining@.len(),
        {
            let mut obstacle = remaining.remove(0);
            proof {
                assert(obstacle == olds[k]);
                assert(remaining@ =~= olds.skip(k + 1));
                lemma_live_anchor(olds[k]);
            }
            obstacle.move_horizontally(velocity);
            proof {
                lemma_moved_right(obstacle, olds[k], velocity);
                lemma_moved_check_is_hit_one(obstacle, olds[k], velocity, boy);
            }
            obstacle.check_intersection(&mut boy);
            let ghost kept0 = kept@;
            let keep_it = obstacle.right() > 0;
            if keep_it {
                kept.push(obstacle);
            }
            proof {
                assert(boy.state_machine == spec_boy_after(
                    m3,
                    w0.boy.sprite_sheet,
                    olds,
                    velocity,
                    k + 1,
                ));
                assert(olds.take(k + 1).drop_last() =~= olds.take(k));
                assert(olds.take(k + 1).last() == olds[k]);
                if keep_it {
                    assert(kept@.drop_last() =~= kept0);
                    assert(kept@.last() == obstacle);
                }
                assert(obstacles_step(olds.take(k + 1), kept@, velocity));
                let prev = spec_rightmost(olds.take(k));
                let rm1 = spec_rightmost(olds.take(k + 1));
                if rm1 + velocity > 0 {
                    if keep_it {
                        if kept0.len() > 0 {
                            assert(spec_rightmost(kept@) >= spec_rightmost(kept0));
                            assert(spec_rightmost(kept@) >= obstacle.spec_right());
                        }
                    }
                    assert(spec_rightmost(kept@) >= rm1 + velocity);
                }
                k = k + 1;
            }
        }
        proof {
            assert(olds.take(k) =~= olds);
        }

        let mut walk = Walk {
            boy,
            first_background,
            second_background,
            obstacles: kept,
            obstacle_sheet,
            stone_width,
            stone_height,
            timeline,
        };
        if walk.timeline < TIMELINE_MINIMUM {
            let ghost before_generation = walk;
            walk.generate_next_segment();
            proof {
                let pick = choose|pick: int|
                    0 <= pick < 2 && gen_rel(before_generation, walk, pick);
                assert(walk.obstacles@.take(walk.obstacles@.len() - 2) == kept@);
                assert(segment_appended(w0, walk, velocity, pick));
            }
        } else {
            walk.timeline = walk.timeline + velocity;
        }
        proof {
            assert(m3 == tick_boy_machine(w0, jump, slide));
            let vspec = tick_velocity(w0, jump, slide);
            assert(velocity == vspec);
            assert(walk.boy.state_machine == spec_boy_after(
                m3,
                w0.boy.sprite_sheet,
                w0.obstacles@,
                vspec,
                w0.obstacles@.len() as int,
            ));
            assert(walk.first_background == spec_scroll(
                w0.first_background,
                w0.second_background,
                vspec,
            ).0);
            assert(walk.second_background == spec_scroll(
                w0.first_background,
                w0.second_background,
                vspec,
            ).1);
            if w0.timeline < TIMELINE_MINIMUM {
                let pick = choose|pick: int|
                    0 <= pick < 2 && segment_appended(w0, walk, velocity, pick);
                assert(segment_appended(w0, walk, vspec, pick));
                assert(exists|p: int| 0 <= p < 2 && segment_appended(w0, walk, vspec, p));
            } else {
                assert(obstacles_step(w0.obstacles@, walk.obstacles@, vspec));
                assert(walk.timeline == w0.timeline + vspec);
            }
            assert(walk_tick_rel(w0, walk, jump, slide));
        }
        walk
    }
}

/// The fields of `n` equal those of `w` except that generation appended
/// the segment shaped by `pick` and advanced the watermark to its
/// rightmost edge.
pub open spec fn gen_rel(w: Walk, n: Walk, pick: int) -> bool {
    let offset = w.timeline + OBSTACLE_BUFFER;
    let stone_x = offset + if pick == 0 {
        STONE_AND_PLATFORM_STONE_OFFSET as int
    } else {
        PLATFORM_AND_STONE_STONE_OFFSET as int
    };
    let platform_position = if pick == 0 {
        Point { x: (offset + FIRST_PLATFORM) as i16, y: LOW_PLATFORM }
    } else {
        Point { x: (offset + PLATFORM_AND_STONE_PLATFORM_OFFSET) as i16, y: HIGH_PLATFORM }
    };
    &&& n.obstacles@.len() == w.obstacles@.len() + 2
    &&& n.obstacles@.take(w.obstacles@.len() as int) == w.obstacles@
    &&& spec_segment(
        n.obstacles@.skip(w.obstacles@.len() as int),
        w.stone_width,
        w.stone_height,
        w.obstacle_sheet@,
        stone_x,
        platform_position,
    )
    &&& n.timeline == vstd::math::max(stone_x + w.stone_width, platform_position.x + PLATFORM_WIDTH)
    &&& n.boy == w.boy
    &&& n.first_background == w.first_background
    &&& n.second_background == w.second_background
    &&& n.obstacle_sheet@ == w.obstacle_sheet@
    &&& n.stone_width == w.stone_width
    &&& n.stone_height == w.stone_height
}

/// The character machine after this tick's commands and `Update` event.
pub open spec fn tick_boy_machine(w: Walk, jump: bool, slide: bool) -> RedHatBoyStateMachine {
    let m1 = if jump {
        w.boy.state_machine.spec_transition(Event::Jump)
    } else {
        w.boy.state_machine
    };
    let m2 = if slide {
        m1.spec_transition(Event::Slide)
    } else {
        m1
    };
    m2.spec_transition(Event::Update)
}

/// How far the world scrolls this tick: the character's updated walking
/// speed, leftward.
pub open spec fn tick_velocity(w: Walk, jump: bool, slide: bool) -> i16 {
    (0 - tick_boy_machine(w, jump, slide).spec_context().velocity.x) as i16
}

/// What one Walking tick does to the whole aggregate, for whichever
/// segment the generator drew if generation ran.
pub open spec fn walk_tick_rel(w: Walk, n: Walk, jump: bool, slide: bool) -> bool {
    let m3 = tick_boy_machine(w, jump, slide);
    let velocity = tick_velocity(w, jump, slide);
    let scrolled = spec_scroll(w.first_background, w.second_background, velocity);
    &&& n.boy.sprite_sheet == w.boy.sprite_sheet
    &&& n.boy.state_machine == spec_boy_after(
        m3,
        w.boy.sprite_sheet,
        w.obstacles@,
        velocity,
        w.obstacles@.len() as int,
    )
    &&& n.first_background == scrolled.0
    &&& n.second_background == scrolled.1
    &&& n.obstacle_sheet@ == w.obstacle_sheet@
    &&& n.stone_width == w.stone_width
    &&& n.stone_height == w.stone_height
    &&& if w.timeline < TIMELINE_MINIMUM {
        exists|pick: int| 0 <= pick < 2 && segment_appended(w, n, velocity, pick)
    } else {
        obstacles_step(w.obstacles@, n.obstacles@, velocity) && n.timeline == w.timeline + velocity
    }
}

/// Fields unchanged but for the character machine becoming `m`.
pub open spec fn same_walk_but_boy(w: Walk, n: Walk, m: RedHatBoyStateMachine) -> bool {
    &&& n.boy.state_machine == m
    &&& n.boy.sprite_sheet == w.boy.sprite_sheet
    &&& n.first_background == w.first_background
    &&& n.second_background == w.second_background
    &&& n.obstacles@ == w.obstacles@
    &&& n.obstacle_sheet@ == w.obstacle_sheet@
    &&& n.stone_width == w.stone_width
    &&& n.stone_height == w.stone_height
    &&& n.timeline == w.timeline
}

/// A restart: the same assets and backgrounds, a fresh idle character, and
/// a fresh starting segment at offset zero.
pub open spec fn reset_rel(w: Walk, n: Walk) -> bool {
    &&& n.boy.sprite_sheet == w.boy.sprite_sheet
    &&& n.boy.state_machine == (RedHatBoyStateMachine::Idle(
        RedHatBoyState {
            context: RedHatBoyContext {
                frame: 0,
                position: Point { x: STARTING_POINT, y: FLOOR },
                velocity: Point { x: 0, y: 0 },
            },
            _state: Idle,
        },
    ))
    &&& n.first_background == w.first_background
    &&& n.second_background == w.second_background
    &&& n.obstacle_sheet@ == w.obstacle_sheet@
    &&& n.stone_width == w.stone_width
    &&& n.stone_height == w.stone_height
    &&& spec_segment(
        n.obstacles@,
        w.stone_width,
        w.stone_height,
        w.obstacle_sheet@,
        STONE_AND_PLATFORM_STONE_OFFSET as int,
        Point { x: FIRST_PLATFORM, y: LOW_PLATFORM },
    )
    &&& n.timeline == vstd::math::max(
        STONE_AND_PLATFORM_STONE_OFFSET + w.stone_width,
        FIRST_PLATFORM + PLATFORM_WIDTH,
    )
}

/// The application-level session machine: Ready awaits the first rightward
/// input and then issues `Run`; Walking runs the full simulation tick and
/// moves to GameOver on the tick after the character machine reports
/// knocked out; GameOver freezes the simulation until the restart signal
/// rebuilds the character and starting segment, reusing loaded assets.
pub enum WalkTheDogStateMachine {
    Ready(Walk),
    Walking(Walk),
    GameOver(Walk),
}

impl WalkTheDogStateMachine {
    pub open spec fn wf(self) -> bool {
        match self {
            WalkTheDogStateMachine::Ready(walk) => walk.wf(),
            WalkTheDogStateMachine::Walking(walk) => walk.wf(),
            WalkTheDogStateMachine::GameOver(walk) => walk.wf(),
        }
    }

    pub fn new(walk: Walk) -> (r: WalkTheDogStateMachine)
        requires
            walk.wf(),
        ensures
            r == WalkTheDogStateMachine::Ready(walk),
            r.wf(),
    {
        WalkTheDogStateMachine::Ready(walk)
    }

    /// One session tick, from the per-tick input snapshot.
    pub fn update(self, inputs: &Inputs) -> (r: WalkTheDogStateMachine)
        requires
            self.wf(),
        ensures
            r.wf(),
            ({
                match self {
                    WalkTheDogStateMachine::Ready(walk) => {
                        if inputs.move_right {
                            r matches WalkTheDogStateMachine::Walking(n) && same_walk_but_boy(
                                walk,
                                n,
                                walk.boy.state_machine.spec_transition(
                                    Event::Update,
                                ).spec_transition(Event::Run),
                            )
                        } else {
                            r matches WalkTheDogStateMachine::Ready(n) && same_walk_but_boy(
                                walk,
                                n,
                                walk.boy.state_machine.spec_transition(Event::Update),
                            )
                        }
                    },
                    WalkTheDogStateMachine::Walking(walk) => {
                        if walk.boy.state_machine is KnockedOut {
                            r == WalkTheDogStateMachine::GameOver(walk)
                        } else {
                            r matches WalkTheDogStateMachine::Walking(n) && walk_tick_rel(
                                walk,
                                n,
                                inputs.jump,
                                inputs.move_down,
                            )
                        }
                    },
                    WalkTheDogStateMachine::GameOver(walk) => {
                        if inputs.restart {
                            r matches WalkTheDogStateMachine::Ready(n) && reset_rel(walk, n)
                        } else {
                            r == WalkTheDogStateMachine::GameOver(walk)
                        }
                    },
                }
            }),
    {
        match self {
            WalkTheDogStateMachine::Ready(walk) => {
                let mut walk = walk;
                walk.boy.update();
                if inputs.move_right {
                    walk.boy.run_right();
                    WalkTheDogStateMachine::Walking(walk)
                } else {
                    WalkTheDogStateMachine::Ready(walk)
                }
            },
            WalkTheDogStateMachine::Walking(walk) => {
                if walk.knocked_out() {
                    WalkTheDogStateMachine::GameOver(walk)
                } else {
                    WalkTheDogStateMachine::Walking(walk.update(inputs.jump, inputs.move_down))
                }
            },
            WalkTheDogStateMachine::GameOver(walk) => {
                if inputs.restart {
                    let Walk {
                        boy,
                        first_background,
                        second_background,
                        obstacle_sheet,
                        stone_width,
                        stone_height,
                        ..
                    } = walk;
                    let new_boy = RedHatBoy::new(boy.sprite_sheet);
                    WalkTheDogStateMachine::Ready(
                        Walk::new(
                            new_boy,
                            first_background,
                            second_background,
                            obstacle_sheet,
                            stone_width,
                            stone_height,
                        ),
                    )
                } else {
                    WalkTheDogStateMachine::GameOver(walk)
                }
            },
        }
    }
}

/// After a generating tick: the survivors of this tick's scroll followed
/// by the new segment, with the watermark at the segment's rightmost edge.
pub open spec fn segment_appended(w: Walk, n: Walk, velocity: i16, pick: int) -> bool {
    let offset = w.timeline + OBSTACLE_BUFFER;
    let stone_x = offset + if pick == 0 {
        STONE_AND_PLATFORM_STONE_OFFSET as int
    } else {
        PLATFORM_AND_STONE_STONE_OFFSET as int
    };
    let platform_position = if pick == 0 {
        Point { x: (offset + FIRST_PLATFORM) as i16, y: LOW_PLATFORM }
    } else {
        Point { x: (offset + PLATFORM_AND_STONE_PLATFORM_OFFSET) as i16, y: HIGH_PLATFORM }
    };
    &&& n.obstacles@.len() >= 2
    &&& obstacles_step(w.obstacles@, n.obstacles@.take(n.obstacles@.len() - 2), velocity)
    &&& spec_segment(
        n.obstacles@.skip(n.obstacles@.len() - 2),
        w.stone_width,
        w.stone_height,
        w.obstacle_sheet@,
        stone_x,
        platform_position,
    )
    &&& n.timeline == vstd::math::max(stone_x + w.stone_width, platform_position.x + PLATFORM_WIDTH)
}

} // verus!
