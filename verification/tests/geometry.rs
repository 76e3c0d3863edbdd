use walk_the_dog::engine::{Image, Point, Rect};

#[test]
fn two_rects_that_intersect_on_the_left() {
    let rect1 = Rect {
        position: Point { x: 10, y: 10 },
        height: 100,
        width: 100,
    };

    let rect2 = Rect {
        position: Point { x: 0, y: 10 },
        height: 100,
        width: 100,
    };

    assert_eq!(rect2.intersects(&rect1), true);
}

#[test]
fn intersection_is_symmetric() {
    let a = Rect::new_from_x_y(0, 0, 50, 50);
    let b = Rect::new_from_x_y(25, 25, 50, 50);
    let c = Rect::new_from_x_y(100, 100, 10, 10);
    assert_eq!(a.intersects(&b), b.intersects(&a));
    assert!(a.intersects(&b));
    assert_eq!(a.intersects(&c), c.intersects(&a));
    assert!(!a.intersects(&c));
}

#[test]
fn touching_edges_do_not_intersect() {
    let a = Rect::new_from_x_y(0, 0, 50, 50);
    let right_neighbour = Rect::new_from_x_y(50, 0, 50, 50);
    let below_neighbour = Rect::new_from_x_y(0, 50, 50, 50);
    assert!(!a.intersects(&right_neighbour));
    assert!(!a.intersects(&below_neighbour));
    assert!(!right_neighbour.intersects(&a));
    assert!(!below_neighbour.intersects(&a));
}

#[test]
fn rect_edges_and_accessors() {
    let r = Rect::new(Point { x: -7, y: 11 }, 20, 30);
    assert_eq!(r.x(), -7);
    assert_eq!(r.y(), 11);
    assert_eq!(r.right(), 13);
    assert_eq!(r.bottom(), 41);
    let mut moved = r;
    moved.set_x(100);
    assert_eq!(moved.x(), 100);
    assert_eq!(moved.y(), 11);
    assert_eq!(moved.right(), 120);
}

#[test]
fn image_moves_horizontally() {
    let mut image = Image::new(Point { x: 10, y: 20 }, 100, 50);
    assert_eq!(image.right(), 110);
    image.move_horizontally(-15);
    assert_eq!(image.bounding_box().x(), -5);
    assert_eq!(image.bounding_box().y(), 20);
    assert_eq!(image.right(), 95);
    image.set_x(600);
    assert_eq!(image.right(), 700);
}
