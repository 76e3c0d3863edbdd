//! Screen-space geometry and sprite metadata: points, axis-aligned
//! rectangles with a strict intersection test, sprite-sheet cells, and a
//! positioned image box for background tiles and barriers.

use vstd::prelude::*;

verus! {

/// A rectangle inside a sprite-sheet image, in sheet pixel coordinates.
#[derive(Clone, Copy, PartialEq, Eq, Structural, Debug)]
pub struct SheetRect {
    pub x: i16,
    pub y: i16,
    pub w: i16,
    pub h: i16,
}

/// One animation cell of a sprite sheet: where its pixels sit in the sheet
/// (`frame`) and how the trimmed sprite is offset inside its draw box
/// (`sprite_source_size`).
#[derive(Clone, Copy, PartialEq, Eq, Structural, Debug)]
pub struct Cell {
    pub frame: SheetRect,
    pub sprite_source_size: SheetRect,
}

impl Cell {
    /// All coordinates of a usable cell are small non-negative pixel counts,
    /// so that box arithmetic on them stays far from the `i16` limits.
    pub open spec fn wf(self) -> bool {
        &&& 0 <= self.frame.x <= 1024
        &&& 0 <= self.frame.y <= 1024
        &&& 0 <= self.frame.w <= 1024
        &&& 0 <= self.frame.h <= 1024
        &&& 0 <= self.sprite_source_size.x <= 1024
        &&& 0 <= self.sprite_source_size.y <= 1024
        &&& 0 <= self.sprite_source_size.w <= 1024
        &&& 0 <= self.sprite_source_size.h <= 1024
    }
}

/// The character's animation cells, one vector per state label, indexed by
/// `frame / 3`. The renderer-facing sheet maps key strings to cells; here the
/// same metadata is held in lookup order so that every access is a checked
/// vector index.
#[derive(Clone, Debug)]
pub struct Sheet {
    pub idle: Vec<Cell>,
    pub run: Vec<Cell>,
    pub slide: Vec<Cell>,
    pub jump: Vec<Cell>,
    pub dead: Vec<Cell>,
}

impl Sheet {
    /// Every state has a cell for each animation frame it can show.
    pub open spec fn wf(self) -> bool {
        &&& self.idle@.len() >= 10
        &&& self.run@.len() >= 8
        &&& self.slide@.len() >= 5
        &&& self.jump@.len() >= 12
        &&& self.dead@.len() >= 10
        &&& forall|i: int| 0 <= i < self.idle@.len() ==> (#[trigger] self.idle@[i]).wf()
        &&& forall|i: int| 0 <= i < self.run@.len() ==> (#[trigger] self.run@[i]).wf()
        &&& forall|i: int| 0 <= i < self.slide@.len() ==> (#[trigger] self.slide@[i]).wf()
        &&& forall|i: int| 0 <= i < self.jump@.len() ==> (#[trigger] self.jump@[i]).wf()
        &&& forall|i: int| 0 <= i < self.dead@.len() ==> (#[trigger] self.dead@[i]).wf()
    }
}

/// A point in screen space; `y` grows downward.
#[derive(Clone, Copy, PartialEq, Eq, Structural, Debug)]
pub struct Point {
    pub x: i16,
    pub y: i16,
}

/// An axis-aligned rectangle: top-left corner plus extent.
#[derive(Clone, Copy, PartialEq, Eq, Structural, Debug)]
pub struct Rect {
    pub position: Point,
    pub width: i16,
    pub height: i16,
}

impl Rect {
    /// The right and bottom edges can be computed without leaving `i16`.
    pub open spec fn edges_in_range(self) -> bool {
        &&& i16::MIN <= self.position.x + self.width <= i16::MAX
        &&& i16::MIN <= self.position.y + self.height <= i16::MAX
    }

    pub open spec fn spec_right(self) -> int {
        self.position.x + self.width
    }

    pub open spec fn spec_bottom(self) -> int {
        self.position.y + self.height
    }

    /// Strict overlap of both axis intervals: rectangles that merely touch
    /// along an edge do not intersect.
    pub open spec fn spec_intersects(self, other: Rect) -> bool {
        &&& self.position.x < other.spec_right()
        &&& self.spec_right() > other.position.x
        &&& self.position.y < other.spec_bottom()
        &&& self.spec_bottom() > other.position.y
    }

    pub fn new(position: Point, width: i16, height: i16) -> (r: Rect)
        ensures
            r == (Rect { position, width, height }),
    {
        Rect { position, width, height }
    }

    pub fn new_from_x_y(x: i16, y: i16, width: i16, height: i16) -> (r: Rect)
        ensures
            r == (Rect { position: Point { x, y }, width, height }),
    {
        Rect::new(Point { x, y }, width, height)
    }

    pub fn intersects(&self, rect: &Rect) -> (r: bool)
        requires
            self.edges_in_range(),
            rect.edges_in_range(),
        ensures
            r == self.spec_intersects(*rect),
    {
        self.x() < rect.right() && self.right() > rect.x() && self.y() < rect.bottom()
            && self.bottom() > rect.y()
    }

    pub fn right(&self) -> (r: i16)
        requires
            i16::MIN <= self.position.x + self.width <= i16::MAX,
        ensures
            r == self.spec_right(),
    {
        self.x() + self.width
    }

    pub fn bottom(&self) -> (r: i16)
        requires
            i16::MIN <= self.position.y + self.height <= i16::MAX,
        ensures
            r == self.spec_bottom(),
    {
        self.y() + self.height
    }

    pub fn set_x(&mut self, x: i16)
        ensures
            *final(self) == (Rect { position: Point { x, ..old(self).position }, ..*old(self) }),
    {
        self.position.x = x
    }

    pub fn x(&self) -> (r: i16)
        ensures
            r == self.position.x,
    {
        self.position.x
    }

    pub fn y(&self) -> (r: i16)
        ensures
            r == self.position.y,
    {
        self.position.y
    }
}

/// Intersection does not depend on the order of the two rectangles.
pub proof fn lemma_intersects_symmetric(a: Rect, b: Rect)
    ensures
        a.spec_intersects(b) == b.spec_intersects(a),
{
}

/// A drawable image reduced to what the simulation reads: its box on screen.
#[derive(Clone, Copy, PartialEq, Eq, Structural, Debug)]
pub struct Image {
    pub bounding_box: Rect,
}

impl Image {
    pub fn new(position: Point, width: i16, height: i16) -> (r: Image)
        ensures
            r.bounding_box == (Rect { position, width, height }),
    {
        Image { bounding_box: Rect::new(position, width, height) }
    }

    pub fn bounding_box(&self) -> (r: &Rect)
        ensures
            *r == self.bounding_box,
    {
        &self.bounding_box
    }

    pub fn move_horizontally(&mut self, distance: i16)
        requires
            i16::MIN <= old(self).bounding_box.position.x + distance <= i16::MAX,
        ensures
            *final(self) == (Image {
                bounding_box: Rect {
                    position: Point {
                        x: (old(self).bounding_box.position.x + distance) as i16,
                        ..old(self).bounding_box.position
                    },
                    ..old(self).bounding_box
                },
            }),
    {
        let x: i16 = self.bounding_box.x() + distance;
        self.set_x(x);
    }

    pub fn set_x(&mut self, x: i16)
        ensures
            *final(self) == (Image {
                bounding_box: Rect {
                    position: Point { x, ..old(self).bounding_box.position },
                    ..old(self).bounding_box
                },
            }),
    {
        self.bounding_box.set_x(x);
    }

    pub fn right(&self) -> (r: i16)
        requires
            self.bounding_box.edges_in_range(),
        ensures
            r == self.bounding_box.spec_right(),
    {
        self.bounding_box.right()
    }
}

} // verus!
