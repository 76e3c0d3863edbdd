//! The obstacle model: a closed set of obstacle shapes (a multi-box
//! floating platform and a single-box barrier) and the collision policy
//! that turns an overlap with the character into a `Land` or `KnockOut`
//! event.

use vstd::prelude::*;

use crate::engine::{Cell, Image, Point, Rect};
use crate::game::{Event, RedHatBoy, RedHatBoyStateMachine};

verus! {

/// Bounds every live obstacle's collision box keeps: far from the `i16`
/// limits, with a `y` small enough to be a valid `Land` payload.
pub open spec fn obstacle_box_wf(r: Rect) -> bool {
    &&& -5000 <= r.position.x
    &&& r.position.x + r.width <= 30000
    &&& -2000 <= r.position.y <= 29000
    &&& 0 <= r.width <= 2000
    &&& 0 <= r.height <= 2000
}

/// A rectangle translated horizontally by `x`.
pub open spec fn spec_shift_rect(r: Rect, x: i16) -> Rect {
    Rect {
        position: Point { x: (r.position.x + x) as i16, y: r.position.y },
        width: r.width,
        height: r.height,
    }
}

pub open spec fn moved_boxes(boxes: Seq<Rect>, x: i16) -> Seq<Rect> {
    boxes.map_values(|b: Rect| spec_shift_rect(b, x))
}

/// The index of the first of `boxes` that `bb` strictly overlaps, if any.
pub open spec fn spec_first_hit(boxes: Seq<Rect>, bb: Rect) -> Option<int>
    decreases boxes.len(),
{
    if boxes.len() == 0 {
        None
    } else if bb.spec_intersects(boxes[0]) {
        Some(0int)
    } else {
        match spec_first_hit(boxes.drop_first(), bb) {
            Some(i) => Some(i + 1),
            None => None,
        }
    }
}

/// If nothing before `idx` overlaps and `idx` does, `idx` is the first hit.
pub proof fn lemma_first_hit_at(boxes: Seq<Rect>, bb: Rect, idx: int)
    requires
        0 <= idx < boxes.len(),
        bb.spec_intersects(boxes[idx]),
        forall|j: int| 0 <= j < idx ==> !bb.spec_intersects(#[trigger] boxes[j]),
    ensures
        spec_first_hit(boxes, bb) == Some(idx),
    decreases idx,
{
    if idx > 0 {
        lemma_first_hit_at(boxes.drop_first(), bb, idx - 1);
    }
}

/// If nothing overlaps there is no first hit.
pub proof fn lemma_first_hit_none(boxes: Seq<Rect>, bb: Rect)
    requires
        forall|j: int| 0 <= j < boxes.len() ==> !bb.spec_intersects(#[trigger] boxes[j]),
    ensures
        spec_first_hit(boxes, bb) is None,
    decreases boxes.len(),
{
    if boxes.len() > 0 {
        lemma_first_hit_none(boxes.drop_first(), bb);
    }
}

/// A first hit is a valid index of an overlapping box.
pub proof fn lemma_first_hit_in_range(boxes: Seq<Rect>, bb: Rect)
    ensures
        match spec_first_hit(boxes, bb) {
            Some(i) => 0 <= i < boxes.len() && bb.spec_intersects(boxes[i]),
            None => true,
        },
    decreases boxes.len(),
{
    if boxes.len() > 0 && !bb.spec_intersects(boxes[0]) {
        lemma_first_hit_in_range(boxes.drop_first(), bb);
    }
}

/// A floating platform: a cluster of sprite cells drawn side by side, with
/// a forgiving collision profile of one box per cell shape, all offset by
/// the platform's own position.
#[derive(Clone, Debug)]
pub struct Platform {
    pub sprites: Vec<Cell>,
    pub position: Point,
    pub bounding_boxes: Vec<Rect>,
}

/// A box of a platform's template, relative to the platform's origin.
pub open spec fn template_box_wf(r: Rect) -> bool {
    &&& 0 <= r.position.x
    &&& r.position.x + r.width <= 1000
    &&& 0 <= r.position.y <= 1000
    &&& 0 <= r.width <= 1000
    &&& 0 <= r.height <= 1000
}

impl Platform {
    pub open spec fn wf(self) -> bool {
        &&& -5000 <= self.position.x <= 28000
        &&& -2000 <= self.position.y <= 28000
        &&& self.sprites@.len() <= 4
        &&& self.bounding_boxes@.len() >= 1
        &&& forall|i: int|
            0 <= i < self.sprites@.len() ==> (#[trigger] self.sprites@[i]).wf()
        &&& forall|i: int|
            0 <= i < self.bounding_boxes@.len() ==> obstacle_box_wf(
                #[trigger] self.bounding_boxes@[i],
            )
        &&& forall|i: int|
            0 <= i < self.bounding_boxes@.len() ==> (#[trigger] self.bounding_boxes@[i]).position.x
                >= self.position.x
        &&& forall|i: int|
            0 <= i < self.bounding_boxes@.len() ==> (#[trigger] self.bounding_boxes@[i]).position.x
                + self.bounding_boxes@[i].width <= self.position.x + 2000
    }

    /// The collision policy applied to the character: against the first
    /// overlapping box, a descending character still above the platform's
    /// top lands on that box; any other overlap knocks it out.
    pub open spec fn spec_check(self, boy: RedHatBoy) -> RedHatBoyStateMachine {
        let bb = boy.spec_bounding_box();
        match spec_first_hit(self.bounding_boxes@, bb) {
            Some(i) => {
                let c = boy.state_machine.spec_context();
                if c.velocity.y > 0 && c.position.y < self.position.y {
                    boy.state_machine.spec_transition(
                        Event::Land(self.bounding_boxes@[i].position.y),
                    )
                } else {
                    boy.state_machine.spec_transition(Event::KnockOut)
                }
            },
            None => boy.state_machine,
        }
    }

    pub open spec fn spec_right(self) -> int {
        if self.bounding_boxes@.len() == 0 {
            0
        } else {
            self.bounding_boxes@.last().spec_right()
        }
    }

    /// Builds the platform at `position`: each box of the template is
    /// offset by the platform's origin.
    pub fn new(sprites: Vec<Cell>, position: Point, bounding_boxes: &Vec<Rect>) -> (r: Platform)
        requires
            -2000 <= position.x <= 27000,
            -2000 <= position.y <= 27000,
            sprites@.len() <= 4,
            bounding_boxes@.len() >= 1,
            forall|i: int| 0 <= i < sprites@.len() ==> (#[trigger] sprites@[i]).wf(),
            forall|i: int|
                0 <= i < bounding_boxes@.len() ==> template_box_wf(#[trigger] bounding_boxes@[i]),
        ensures
            r.sprites == sprites,
            r.position == position,
            r.bounding_boxes@.len() == bounding_boxes@.len(),
            forall|i: int|
                0 <= i < bounding_boxes@.len() ==> #[trigger] r.bounding_boxes@[i] == (Rect {
                    position: Point {
                        x: (bounding_boxes@[i].position.x + position.x) as i16,
                        y: (bounding_boxes@[i].position.y + position.y) as i16,
                    },
                    width: bounding_boxes@[i].width,
                    height: bounding_boxes@[i].height,
                }),
            r.wf(),
    {
        let mut placed: Vec<Rect> = Vec::new();
        let mut i: usize = 0;
        while i < bounding_boxes.len()
            invariant
                i <= bounding_boxes@.len(),
                placed@.len() == i,
                -2000 <= position.x <= 27000,
                -2000 <= position.y <= 27000,
                forall|j: int|
                    0 <= j < bounding_boxes@.len() ==> template_box_wf(
                        #[trigger] bounding_boxes@[j],
                    ),
                forall|j: int|
                    0 <= j < i ==> #[trigger] placed@[j] == (Rect {
                        position: Point {
                            x: (bounding_boxes@[j].position.x + position.x) as i16,
                            y: (bounding_boxes@[j].position.y + position.y) as i16,
                        },
                        width: bounding_boxes@[j].width,
                        height: bounding_boxes@[j].height,
                    }),
            decreases bounding_boxes@.len() - i,
        {
            let b = bounding_boxes[i];
            placed.push(Rect::new_from_x_y(b.x() + position.x, b.y() + position.y, b.width, b.height));
            i = i + 1;
        }
        Platform { sprites, position, bounding_boxes: placed }
    }

    pub fn check_intersection(&self, boy: &mut RedHatBoy)
        requires
            self.wf(),
            old(boy).wf(),
        ensures
            final(boy).sprite_sheet == old(boy).sprite_sheet,
            final(boy).state_machine == self.spec_check(*old(boy)),
            final(boy).wf(),
    {
        let bb = boy.bounding_box();
        let mut idx: usize = 0;
        while idx < self.bounding_boxes.len()
            invariant
                self.wf(),
                old(boy).wf(),
                *boy == *old(boy),
                bb == old(boy).spec_bounding_box(),
                bb.edges_in_range(),
                idx <= self.bounding_boxes@.len(),
                forall|j: int|
                    0 <= j < idx ==> !bb.spec_intersects(#[trigger] self.bounding_boxes@[j]),
            decreases self.bounding_boxes@.len() - idx,
        {
            if bb.intersects(&self.bounding_boxes[idx]) {
                proof {
                    lemma_first_hit_at(self.bounding_boxes@, bb, idx as int);
                }
                if boy.velocity_y() > 0 && boy.pos_y() < self.position.y {
                    let y = self.bounding_boxes[idx].y();
                    boy.land_on(y);
                } else {
                    boy.knock_out();
                }
                return;
            }
            idx = idx + 1;
        }
        proof {
            lemma_first_hit_none(self.bounding_boxes@, bb);
        }
    }

    pub fn move_horizontally(&mut self, x: i16)
        requires
            old(self).wf(),
            -5000 <= old(self).position.x + x <= 28000,
        ensures
            final(self).sprites == old(self).sprites,
            final(self).position == (Point {
                x: (old(self).position.x + x) as i16,
                y: old(self).position.y,
            }),
            final(self).bounding_boxes@ == moved_boxes(old(self).bounding_boxes@, x),
            final(self).wf(),
    {
        let mut placed: Vec<Rect> = Vec::new();
        let mut i: usize = 0;
        while i < self.bounding_boxes.len()
            invariant
                *self == *old(self),
                old(self).wf(),
                -5000 <= old(self).position.x + x <= 28000,
                i <= self.bounding_boxes@.len(),
                placed@.len() == i,
                forall|j: int|
                    0 <= j < i ==> #[trigger] placed@[j] == spec_shift_rect(
                        old(self).bounding_boxes@[j],
                        x,
                    ),
            decreases self.bounding_boxes@.len() - i,
        {
            let b = self.bounding_boxes[i];
            placed.push(Rect::new_from_x_y(b.x() + x, b.y(), b.width, b.height));
            i = i + 1;
        }
        self.position.x = self.position.x + x;
        self.bounding_boxes = placed;
        proof {
            assert(self.bounding_boxes@ =~= moved_boxes(old(self).bounding_boxes@, x));
        }
    }

    pub fn right(&self) -> (r: i16)
        requires
            self.wf(),
        ensures
            r == self.spec_right(),
    {
        if self.bounding_boxes.len() == 0 {
            0
        } else {
            self.bounding_boxes[self.bounding_boxes.len() - 1].right()
        }
    }

    /// The sprite-to-screen rectangle pairs the renderer draws, one per
    /// cell, laid out side by side from the platform's position.
    pub fn draw_rects(&self) -> (r: Vec<(Rect, Rect)>)
        requires
            self.wf(),
        ensures
            r@.len() == self.sprites@.len(),
            forall|i: int|
                0 <= i < self.sprites@.len() ==> (#[trigger] r@[i]).0 == (Rect {
                    position: Point {
                        x: self.sprites@[i].frame.x,
                        y: self.sprites@[i].frame.y,
                    },
                    width: self.sprites@[i].frame.w,
                    height: self.sprites@[i].frame.h,
                }),
            forall|i: int|
                0 <= i < self.sprites@.len() ==> (#[trigger] r@[i]).1 == (Rect {
                    position: Point {
                        x: (self.position.x + spec_span_width(self.sprites@, i)) as i16,
                        y: self.position.y,
                    },
                    width: self.sprites@[i].frame.w,
                    height: self.sprites@[i].frame.h,
                }),
    {
        let mut out: Vec<(Rect, Rect)> = Vec::new();
        let mut x: i16 = 0;
        let mut i: usize = 0;
        while i < self.sprites.len()
            invariant
                self.wf(),
                i <= self.sprites@.len(),
                out@.len() == i,
                x == spec_span_width(self.sprites@, i as int),
                0 <= x <= 1024 * i,
                forall|j: int|
                    0 <= j < i ==> (#[trigger] out@[j]).0 == (Rect {
                        position: Point {
                            x: self.sprites@[j].frame.x,
                            y: self.sprites@[j].frame.y,
                        },
                        width: self.sprites@[j].frame.w,
                        height: self.sprites@[j].frame.h,
                    }),
                forall|j: int|
                    0 <= j < i ==> (#[trigger] out@[j]).1 == (Rect {
                        position: Point {
                            x: (self.position.x + spec_span_width(self.sprites@, j)) as i16,
                            y: self.position.y,
                        },
                        width: self.sprites@[j].frame.w,
                        height: self.sprites@[j].frame.h,
                    }),
            decreases self.sprites@.len() - i,
        {
            let sprite = self.sprites[i];
            let source = Rect::new_from_x_y(
                sprite.frame.x,
                sprite.frame.y,
                sprite.frame.w,
                sprite.frame.h,
            );
            let destination = Rect::new_from_x_y(
                self.position.x + x,
                self.position.y,
                sprite.frame.w,
                sprite.frame.h,
            );
            out.push((source, destination));
            x = x + sprite.frame.w;
            i = i + 1;
        }
        out
    }
}

/// Total width of the first `i` cells of a cluster.
pub open spec fn spec_span_width(sprites: Seq<Cell>, i: int) -> int
    decreases i,
{
    if i <= 0 {
        0
    } else {
        spec_span_width(sprites, i - 1) + sprites[i - 1].frame.w
    }
}

/// A ground hazard with a single collision box: any contact knocks the
/// character out.
#[derive(Clone, Copy, PartialEq, Eq, Structural, Debug)]
pub struct Barrier {
    pub image: Image,
}

impl Barrier {
    pub open spec fn wf(self) -> bool {
        &&& obstacle_box_wf(self.image.bounding_box)
        &&& self.image.bounding_box.position.x <= 28000
    }

    pub open spec fn spec_check(self, boy: RedHatBoy) -> RedHatBoyStateMachine {
        if boy.spec_bounding_box().spec_intersects(self.image.bounding_box) {
            boy.state_machine.spec_transition(Event::KnockOut)
        } else {
            boy.state_machine
        }
    }

    pub fn new(image: Image) -> (r: Barrier)
        ensures
            r == (Barrier { image }),
    {
        Barrier { image }
    }

    pub fn check_intersection(&self, boy: &mut RedHatBoy)
        requires
            self.wf(),
            old(boy).wf(),
        ensures
            final(boy).sprite_sheet == old(boy).sprite_sheet,
            final(boy).state_machine == self.spec_check(*old(boy)),
            final(boy).wf(),
    {
        if boy.bounding_box().intersects(self.image.bounding_box()) {
            boy.knock_out()
        }
    }

    pub fn move_horizontally(&mut self, x: i16)
        requires
            old(self).wf(),
            -5000 <= old(self).image.bounding_box.position.x + x <= 28000,
        ensures
            final(self).image.bounding_box == spec_shift_rect(old(self).image.bounding_box, x),
            final(self).wf(),
    {
        self.image.move_horizontally(x);
    }

    pub fn right(&self) -> (r: i16)
        requires
            self.wf(),
        ensures
            r == self.image.bounding_box.spec_right(),
    {
        self.image.right()
    }
}

/// The closed set of obstacle shapes, dispatched by pattern match.
#[derive(Clone, Debug)]
pub enum Obstacle {
    Platform(Platform),
    Barrier(Barrier),
}

impl Obstacle {
    pub open spec fn wf(self) -> bool {
        match self {
            Obstacle::Platform(p) => p.wf(),
            Obstacle::Barrier(b) => b.wf(),
        }
    }

    pub open spec fn spec_right(self) -> int {
        match self {
            Obstacle::Platform(p) => p.spec_right(),
            Obstacle::Barrier(b) => b.image.bounding_box.spec_right(),
        }
    }

    pub open spec fn spec_check(self, boy: RedHatBoy) -> RedHatBoyStateMachine {
        match self {
            Obstacle::Platform(p) => p.spec_check(boy),
            Obstacle::Barrier(b) => b.spec_check(boy),
        }
    }

    /// The leftmost coordinate from which this obstacle may still be moved
    /// without leaving the well-formed range.
    pub open spec fn spec_anchor_x(self) -> int {
        match self {
            Obstacle::Platform(p) => p.position.x as int,
            Obstacle::Barrier(b) => b.image.bounding_box.position.x as int,
        }
    }

    pub fn check_intersection(&self, boy: &mut RedHatBoy)
        requires
            self.wf(),
            old(boy).wf(),
        ensures
            final(boy).sprite_sheet == old(boy).sprite_sheet,
            final(boy).state_machine == self.spec_check(*old(boy)),
            final(boy).wf(),
    {
        match self {
            Obstacle::Platform(p) => p.check_intersection(boy),
            Obstacle::Barrier(b) => b.check_intersection(boy),
        }
    }

    pub fn move_horizontally(&mut self, x: i16)
        requires
            old(self).wf(),
            -5000 <= old(self).spec_anchor_x() + x <= 28000,
        ensures
            is_moved(*final(self), *old(self), x),
            final(self).wf(),
    {
        match self {
            Obstacle::Platform(p) => p.move_horizontally(x),
            Obstacle::Barrier(b) => b.move_horizontally(x),
        }
    }

    pub fn right(&self) -> (r: i16)
        requires
            self.wf(),
        ensures
            r == self.spec_right(),
    {
        match self {
            Obstacle::Platform(p) => p.right(),
            Obstacle::Barrier(b) => b.right(),
        }
    }
}

/// `new` is `old_obstacle` translated horizontally by `x`.
pub open spec fn is_moved(new: Obstacle, old_obstacle: Obstacle, x: i16) -> bool {
    match (new, old_obstacle) {
        (Obstacle::Barrier(nb), Obstacle::Barrier(ob)) => nb.image.bounding_box == spec_shift_rect(
            ob.image.bounding_box,
            x,
        ),
        (Obstacle::Platform(np), Obstacle::Platform(op)) => {
            &&& np.sprites@ == op.sprites@
            &&& np.position == (Point { x: (op.position.x + x) as i16, y: op.position.y })
            &&& np.bounding_boxes@ == moved_boxes(op.bounding_boxes@, x)
        },
        _ => false,
    }
}

/// A translated obstacle's right edge is the old one shifted by `x`.
pub proof fn lemma_moved_right(new: Obstacle, old_obstacle: Obstacle, x: i16)
    requires
        is_moved(new, old_obstacle, x),
        old_obstacle.wf(),
        -5000 <= old_obstacle.spec_anchor_x() + x <= 28000,
    ensures
        new.spec_right() == old_obstacle.spec_right() + x,
{
    match (new, old_obstacle) {
        (Obstacle::Platform(np), Obstacle::Platform(op)) => {
            let n = op.bounding_boxes@.len() as int;
            assert(np.bounding_boxes@[n - 1] == spec_shift_rect(op.bounding_boxes@[n - 1], x));
        },
        _ => {},
    }
}

/// An obstacle that has not fully scrolled off screen sits where one more
/// scroll step cannot push it out of the well-formed range.
pub proof fn lemma_live_anchor(o: Obstacle)
    requires
        o.wf(),
        o.spec_right() > 0,
    ensures
        -2000 <= o.spec_anchor_x() <= 28000,
{
    match o {
        Obstacle::Platform(p) => {
            let n = p.bounding_boxes@.len() as int;
            assert(p.bounding_boxes@[n - 1].position.x + p.bounding_boxes@[n - 1].width
                <= p.position.x + 2000);
        },
        Obstacle::Barrier(_) => {},
    }
}

/// The largest right edge over a list of obstacles, `0` for an empty list.
pub open spec fn spec_rightmost(obstacles: Seq<Obstacle>) -> int
    decreases obstacles.len(),
{
    if obstacles.len() == 0 {
        0
    } else if obstacles.len() == 1 {
        obstacles[0].spec_right()
    } else {
        let rest = spec_rightmost(obstacles.drop_last());
        let last = obstacles.last().spec_right();
        if last > rest {
            last
        } else {
            rest
        }
    }
}

/// Appending keeps the rightmost edge at least as far right as either
/// part's.
pub proof fn lemma_rightmost_append(a: Seq<Obstacle>, b: Seq<Obstacle>)
    requires
        b.len() >= 1,
    ensures
        spec_rightmost(a + b) >= spec_rightmost(b),
        a.len() >= 1 ==> spec_rightmost(a + b) >= spec_rightmost(a),
    decreases b.len(),
{
    if b.len() == 1 {
        if a.len() == 0 {
            assert(a + b =~= b);
        } else {
            assert((a + b).drop_last() =~= a);
            assert((a + b).last() == b[0]);
        }
    } else {
        lemma_rightmost_append(a, b.drop_last());
        assert((a + b).drop_last() =~= a + b.drop_last());
        assert((a + b).last() == b.last());
    }
}

pub fn rightmost(obstacle_list: &Vec<Obstacle>) -> (r: i16)
    requires
        forall|i: int| 0 <= i < obstacle_list@.len() ==> (#[trigger] obstacle_list@[i]).wf(),
    ensures
        r == spec_rightmost(obstacle_list@),
{
    let mut right_most: i16 = 0;
    let mut i: usize = 0;
    while i < obstacle_list.len()
        invariant
            i <= obstacle_list@.len(),
            forall|j: int| 0 <= j < obstacle_list@.len() ==> (#[trigger] obstacle_list@[j]).wf(),
            right_most == spec_rightmost(obstacle_list@.take(i as int)),
            -32000 <= right_most <= 30000,
        decreases obstacle_list@.len() - i,
    {
        let candidate = obstacle_list[i].right();
        if i == 0 || candidate > right_most {
            right_most = candidate;
        }
        proof {
            assert(obstacle_list@.take(i + 1).drop_last() =~= obstacle_list@.take(i as int));
            assert(obstacle_list@.take(i + 1).last() == obstacle_list@[i as int]);
        }
        i = i + 1;
    }
    proof {
        assert(obstacle_list@.take(obstacle_list@.len() as int) =~= obstacle_list@);
    }
    right_most
}

} // verus!
