//! Segment templates: pre-composed obstacle clusters — a ground stone plus
//! a floating platform at one of two height presets — placed at a supplied
//! horizontal offset by the generator.

use vstd::prelude::*;

use crate::engine::{Cell, Image, Point, Rect};
use crate::obstacles::{
    spec_rightmost, template_box_wf, Barrier, Obstacle, Platform,
};

verus! {

/// Vertical position of the lower floating-platform preset.
pub const LOW_PLATFORM: i16 = 420;

/// Vertical position of the higher floating-platform preset.
pub const HIGH_PLATFORM: i16 = 375;

/// Horizontal offset of the platform within the first segment template.
pub const FIRST_PLATFORM: i16 = 370;

/// Vertical position at which a stone rests on the ground.
pub const STONE_ON_GROUND: i16 = 546;

pub const PLATFORM_WIDTH: i16 = 384;

pub const PLATFORM_HEIGHT: i16 = 93;

pub const PLATFORM_EDGE_WIDTH: i16 = 60;

pub const PLATFORM_EDGE_HEIGHT: i16 = 54;

/// Stone offset within the stone-then-platform template.
pub const STONE_AND_PLATFORM_STONE_OFFSET: i16 = 150;

/// Stone offset within the platform-then-stone template.
pub const PLATFORM_AND_STONE_STONE_OFFSET: i16 = 400;

/// Platform offset within the platform-then-stone template.
pub const PLATFORM_AND_STONE_PLATFORM_OFFSET: i16 = 200;

/// The floating platform's collision template, relative to its origin: two
/// rounded end caps of reduced height around one full-height middle span —
/// a more forgiving profile than one box over the whole cluster.
pub open spec fn spec_floating_platform_template() -> Seq<Rect> {
    seq![
        Rect {
            position: Point { x: 0, y: 0 },
            width: PLATFORM_EDGE_WIDTH,
            height: PLATFORM_EDGE_HEIGHT,
        },
        Rect {
            position: Point { x: PLATFORM_EDGE_WIDTH, y: 0 },
            width: (PLATFORM_WIDTH - PLATFORM_EDGE_WIDTH * 2) as i16,
            height: PLATFORM_HEIGHT,
        },
        Rect {
            position: Point { x: (PLATFORM_WIDTH - PLATFORM_EDGE_WIDTH) as i16, y: 0 },
            width: PLATFORM_EDGE_WIDTH,
            height: PLATFORM_EDGE_HEIGHT,
        },
    ]
}

/// The template placed at `position`.
pub open spec fn spec_floating_boxes_at(position: Point) -> Seq<Rect> {
    spec_floating_platform_template().map_values(
        |b: Rect| Rect {
            position: Point {
                x: (b.position.x + position.x) as i16,
                y: (b.position.y + position.y) as i16,
            },
            width: b.width,
            height: b.height,
        },
    )
}

pub fn floating_platform_bounding_boxes() -> (r: Vec<Rect>)
    ensures
        r@ == spec_floating_platform_template(),
        forall|i: int| 0 <= i < r@.len() ==> template_box_wf(#[trigger] r@[i]),
{
    let mut boxes: Vec<Rect> = Vec::new();
    boxes.push(Rect::new_from_x_y(0, 0, PLATFORM_EDGE_WIDTH, PLATFORM_EDGE_HEIGHT));
    boxes.push(
        Rect::new_from_x_y(
            PLATFORM_EDGE_WIDTH,
            0,
            PLATFORM_WIDTH - PLATFORM_EDGE_WIDTH * 2,
            PLATFORM_HEIGHT,
        ),
    );
    boxes.push(
        Rect::new_from_x_y(
            PLATFORM_WIDTH - PLATFORM_EDGE_WIDTH,
            0,
            PLATFORM_EDGE_WIDTH,
            PLATFORM_EDGE_HEIGHT,
        ),
    );
    proof {
        assert(boxes@ =~= spec_floating_platform_template());
        assert(template_box_wf(spec_floating_platform_template()[0]));
        assert(template_box_wf(spec_floating_platform_template()[1]));
        assert(template_box_wf(spec_floating_platform_template()[2]));
    }
    boxes
}

pub fn create_floating_platform(sprites: Vec<Cell>, position: Point) -> (r: Platform)
    requires
        -2000 <= position.x <= 27000,
        -2000 <= position.y <= 27000,
        sprites@.len() <= 4,
        forall|i: int| 0 <= i < sprites@.len() ==> (#[trigger] sprites@[i]).wf(),
    ensures
        r.sprites == sprites,
        r.position == position,
        r.bounding_boxes@ == spec_floating_boxes_at(position),
        r.spec_right() == position.x + PLATFORM_WIDTH,
        r.wf(),
{
    let boxes = floating_platform_bounding_boxes();
    let platform = Platform::new(sprites, position, &boxes);
    proof {
        assert(platform.bounding_boxes@ =~= spec_floating_boxes_at(position));
        assert(platform.bounding_boxes@[2] == (Rect {
            position: Point {
                x: (position.x + PLATFORM_WIDTH - PLATFORM_EDGE_WIDTH) as i16,
                y: position.y,
            },
            width: PLATFORM_EDGE_WIDTH,
            height: PLATFORM_EDGE_HEIGHT,
        }));
    }
    platform
}

/// What a stone barrier placed at `x` looks like.
pub open spec fn spec_stone_at(x: int, stone_width: i16, stone_height: i16) -> Obstacle {
    Obstacle::Barrier(
        Barrier {
            image: Image {
                bounding_box: Rect {
                    position: Point { x: x as i16, y: STONE_ON_GROUND },
                    width: stone_width,
                    height: stone_height,
                },
            },
        },
    )
}

/// Both segment templates place a stone and a floating platform; this
/// pins each produced obstacle given the template's two placements.
pub open spec fn spec_segment(
    r: Seq<Obstacle>,
    stone_width: i16,
    stone_height: i16,
    sprites: Seq<Cell>,
    stone_x: int,
    platform_position: Point,
) -> bool {
    &&& r.len() == 2
    &&& r[0] == spec_stone_at(stone_x, stone_width, stone_height)
    &&& r[1] matches Obstacle::Platform(p) && p.sprites@ == sprites && p.position
        == platform_position && p.bounding_boxes@ == spec_floating_boxes_at(platform_position)
    &&& forall|i: int| 0 <= i < r.len() ==> (#[trigger] r[i]).wf()
    &&& spec_rightmost(r) == vstd::math::max(
        stone_x + stone_width,
        platform_position.x + PLATFORM_WIDTH,
    )
}

/// A stone near the segment's start and a low floating platform behind it.
pub fn stone_and_platform(
    stone_width: i16,
    stone_height: i16,
    platform_sprites: Vec<Cell>,
    offset_x: i16,
) -> (r: Vec<Obstacle>)
    requires
        0 <= stone_width <= 2000,
        0 <= stone_height <= 2000,
        platform_sprites@.len() <= 4,
        forall|i: int| 0 <= i < platform_sprites@.len() ==> (#[trigger] platform_sprites@[i]).wf(),
        0 <= offset_x <= 26000,
    ensures
        spec_segment(
            r@,
            stone_width,
            stone_height,
            platform_sprites@,
            offset_x + STONE_AND_PLATFORM_STONE_OFFSET,
            Point { x: (offset_x + FIRST_PLATFORM) as i16, y: LOW_PLATFORM },
        ),
{
    let mut segment: Vec<Obstacle> = Vec::new();
    segment.push(
        Obstacle::Barrier(
            Barrier::new(
                Image::new(
                    Point { x: offset_x + STONE_AND_PLATFORM_STONE_OFFSET, y: STONE_ON_GROUND },
                    stone_width,
                    stone_height,
                ),
            ),
        ),
    );
    segment.push(
        Obstacle::Platform(
            create_floating_platform(
                platform_sprites,
                Point { x: offset_x + FIRST_PLATFORM, y: LOW_PLATFORM },
            ),
        ),
    );
    proof {
        assert(segment@.len() == 2);
        assert(segment@.drop_last() =~= seq![segment@[0]]);
        assert(segment@[0].wf());
        assert(segment@[1].wf());
        assert forall|i: int| 0 <= i < segment@.len() implies (#[trigger] segment@[i]).wf() by {
            if i == 0 {
                assert(segment@[0].wf());
            } else {
                assert(segment@[1].wf());
            }
        }
        assert(spec_rightmost(seq![segment@[0]]) == segment@[0].spec_right());
    }
    segment
}

/// A high floating platform near the segment's start and a stone behind it.
pub fn platform_and_stone(
    stone_width: i16,
    stone_height: i16,
    platform_sprites: Vec<Cell>,
    offset_x: i16,
) -> (r: Vec<Obstacle>)
    requires
        0 <= stone_width <= 2000,
        0 <= stone_height <= 2000,
        platform_sprites@.len() <= 4,
        forall|i: int| 0 <= i < platform_sprites@.len() ==> (#[trigger] platform_sprites@[i]).wf(),
        0 <= offset_x <= 26000,
    ensures
        spec_segment(
            r@,
            stone_width,
            stone_height,
            platform_sprites@,
            offset_x + PLATFORM_AND_STONE_STONE_OFFSET,
            Point { x: (offset_x + PLATFORM_AND_STONE_PLATFORM_OFFSET) as i16, y: HIGH_PLATFORM },
        ),
{
    let mut segment: Vec<Obstacle> = Vec::new();
    segment.push(
        Obstacle::Barrier(
            Barrier::new(
                Image::new(
                    Point { x: offset_x + PLATFORM_AND_STONE_STONE_OFFSET, y: STONE_ON_GROUND },
                    stone_width,
                    stone_height,
                ),
            ),
        ),
    );
    segment.push(
        Obstacle::Platform(
            create_floating_platform(
                platform_sprites,
                Point { x: offset_x + PLATFORM_AND_STONE_PLATFORM_OFFSET, y: HIGH_PLATFORM },
            ),
        ),
    );
    proof {
        assert(segment@.len() == 2);
        assert(segment@.drop_last() =~= seq![segment@[0]]);
        assert(segment@[0].wf());
        assert(segment@[1].wf());
        assert forall|i: int| 0 <= i < segment@.len() implies (#[trigger] segment@[i]).wf() by {
            if i == 0 {
                assert(segment@[0].wf());
            } else {
                assert(segment@[1].wf());
            }
        }
        assert(spec_rightmost(seq![segment@[0]]) == segment@[0].spec_right());
    }
    segment
}

} // verus!
