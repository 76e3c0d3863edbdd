use walk_the_dog::engine::{Cell, Image, Point, Rect, Sheet, SheetRect};
use walk_the_dog::game::RedHatBoy;
use walk_the_dog::obstacles::{rightmost, Barrier, Obstacle, Platform};
use walk_the_dog::segments::{
    create_floating_platform, platform_and_stone, stone_and_platform,
};

fn test_cell() -> Cell {
    Cell {
        frame: SheetRect {
            x: 0,
            y: 0,
            w: 160,
            h: 160,
        },
        sprite_source_size: SheetRect {
            x: 0,
            y: 0,
            w: 160,
            h: 160,
        },
    }
}

fn test_sheet() -> Sheet {
    Sheet {
        idle: vec![test_cell(); 12],
        run: vec![test_cell(); 12],
        slide: vec![test_cell(); 12],
        jump: vec![test_cell(); 12],
        dead: vec![test_cell(); 12],
    }
}

fn running_boy() -> RedHatBoy {
    let mut boy = RedHatBoy::new(test_sheet());
    boy.run_right();
    boy
}

// A platform whose single box sits under the boy's collision box.
fn platform_at(y: i16, relative_box_y: i16) -> Platform {
    Platform::new(
        vec![test_cell()],
        Point { x: 0, y },
        &vec![Rect::new_from_x_y(0, relative_box_y, 200, 100)],
    )
}

#[test]
fn descending_boy_above_platform_lands_on_it() {
    let mut boy = running_boy();
    boy.update();
    assert!(boy.velocity_y() > 0);
    assert_eq!(boy.pos_y(), 479);
    // Platform top below the boy's feet: a descending boy lands on the box.
    let platform = platform_at(500, 0);
    platform.check_intersection(&mut boy);
    assert_eq!(boy.frame_label(), "Run");
    assert_eq!(boy.pos_y(), 379);
}

#[test]
fn ascending_boy_is_knocked_out_by_platform() {
    let mut boy = running_boy();
    boy.jump();
    assert!(boy.velocity_y() < 0);
    let platform = platform_at(500, 0);
    platform.check_intersection(&mut boy);
    assert_eq!(boy.frame_label(), "Dead");
    assert_eq!(boy.walking_speed(), 0);
    assert_eq!(boy.velocity_y(), 0);
}

#[test]
fn boy_at_platform_height_is_knocked_out() {
    let mut boy = running_boy();
    boy.update();
    assert!(boy.velocity_y() > 0);
    // The platform's nominal top is above the boy: side or underside hit.
    let platform = platform_at(400, 50);
    platform.check_intersection(&mut boy);
    assert_eq!(boy.frame_label(), "Dead");
}

#[test]
fn non_overlapping_platform_leaves_boy_alone() {
    let mut boy = running_boy();
    boy.update();
    let platform = Platform::new(
        vec![test_cell()],
        Point { x: 1000, y: 500 },
        &vec![Rect::new_from_x_y(0, 0, 200, 100)],
    );
    platform.check_intersection(&mut boy);
    assert_eq!(boy.frame_label(), "Run");
    assert_eq!(boy.pos_y(), 479);
}

#[test]
fn barrier_knocks_out_on_any_contact() {
    let mut boy = running_boy();
    let barrier = Barrier::new(Image::new(Point { x: 0, y: 500 }, 100, 100));
    barrier.check_intersection(&mut boy);
    assert_eq!(boy.frame_label(), "Dead");

    let mut untouched = running_boy();
    let far = Barrier::new(Image::new(Point { x: 2000, y: 500 }, 100, 100));
    far.check_intersection(&mut untouched);
    assert_eq!(untouched.frame_label(), "Run");
}

#[test]
fn landing_snaps_to_the_first_overlapping_box() {
    let mut boy = running_boy();
    boy.update();
    // Two boxes both overlap; the first one in the list decides the snap.
    let platform = Platform::new(
        vec![test_cell()],
        Point { x: 0, y: 490 },
        &vec![
            Rect::new_from_x_y(0, 10, 200, 100),
            Rect::new_from_x_y(0, 30, 200, 100),
        ],
    );
    platform.check_intersection(&mut boy);
    assert_eq!(boy.frame_label(), "Run");
    assert_eq!(boy.pos_y(), 500 - 121);
}

#[test]
fn platform_offsets_template_boxes_by_its_position() {
    let platform = create_floating_platform(vec![test_cell(); 3], Point { x: 100, y: 400 });
    assert_eq!(platform.bounding_boxes.len(), 3);
    let first = platform.bounding_boxes[0];
    assert_eq!((first.x(), first.y(), first.width, first.height), (100, 400, 60, 54));
    let middle = platform.bounding_boxes[1];
    assert_eq!((middle.x(), middle.y(), middle.width, middle.height), (160, 400, 264, 93));
    let last = platform.bounding_boxes[2];
    assert_eq!((last.x(), last.y(), last.width, last.height), (424, 400, 60, 54));
    assert_eq!(platform.right(), 484);
}

#[test]
fn platform_draw_rects_lay_cells_side_by_side() {
    let mut wide = test_cell();
    wide.frame.w = 100;
    let platform = Platform::new(
        vec![wide, wide, wide],
        Point { x: 50, y: 400 },
        &vec![Rect::new_from_x_y(0, 0, 300, 93)],
    );
    let rects = platform.draw_rects();
    assert_eq!(rects.len(), 3);
    assert_eq!(rects[0].1.x(), 50);
    assert_eq!(rects[1].1.x(), 150);
    assert_eq!(rects[2].1.x(), 250);
    assert_eq!(rects[0].0.x(), 0);
    assert_eq!(rects[0].1.y(), 400);
    assert_eq!(rects[0].1.width, 100);
}

#[test]
fn obstacles_move_with_the_world() {
    let mut platform = Obstacle::Platform(platform_at(500, 0));
    assert_eq!(platform.right(), 200);
    platform.move_horizontally(-50);
    assert_eq!(platform.right(), 150);

    let mut barrier = Obstacle::Barrier(Barrier::new(Image::new(Point { x: 30, y: 546 }, 90, 54)));
    assert_eq!(barrier.right(), 120);
    barrier.move_horizontally(-20);
    assert_eq!(barrier.right(), 100);
}

#[test]
fn rightmost_takes_the_largest_right_edge() {
    let empty: Vec<Obstacle> = Vec::new();
    assert_eq!(rightmost(&empty), 0);
    let list = stone_and_platform(90, 54, vec![test_cell(); 3], 0);
    assert_eq!(list[0].right(), 240);
    assert_eq!(list[1].right(), 754);
    assert_eq!(rightmost(&list), 754);
}

#[test]
fn segment_templates_place_stone_and_platform() {
    let seg = stone_and_platform(90, 54, vec![test_cell(); 3], 1000);
    assert_eq!(seg.len(), 2);
    match &seg[0] {
        Obstacle::Barrier(b) => {
            assert_eq!(b.image.bounding_box.x(), 1150);
            assert_eq!(b.image.bounding_box.y(), 546);
        }
        _ => panic!("expected the stone first"),
    }
    match &seg[1] {
        Obstacle::Platform(p) => {
            assert_eq!(p.position, Point { x: 1370, y: 420 });
        }
        _ => panic!("expected the platform second"),
    }

    let other = platform_and_stone(90, 54, vec![test_cell(); 3], 1000);
    match &other[0] {
        Obstacle::Barrier(b) => assert_eq!(b.image.bounding_box.x(), 1400),
        _ => panic!("expected the stone first"),
    }
    match &other[1] {
        Obstacle::Platform(p) => {
            assert_eq!(p.position, Point { x: 1200, y: 375 });
        }
        _ => panic!("expected the platform second"),
    }
}

#[test]
fn boy_collides_through_the_obstacle_wrapper() {
    let mut boy = running_boy();
    boy.update();
    let obstacle = Obstacle::Platform(platform_at(500, 0));
    obstacle.check_intersection(&mut boy);
    assert_eq!(boy.frame_label(), "Run");
    assert_eq!(boy.pos_y(), 379);
}
