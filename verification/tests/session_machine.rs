use walk_the_dog::engine::{Cell, Image, Point, Sheet, SheetRect};
use walk_the_dog::game::RedHatBoy;
use walk_the_dog::obstacles::{Barrier, Obstacle};
use walk_the_dog::session::{Inputs, Walk, WalkTheDogStateMachine};

fn test_cell() -> Cell {
    Cell {
        frame: SheetRect {
            x: 0,
            y: 0,
            w: 160,
            h: 160,
        },
        sprite_source_size: SheetRect {
            x: 0,
            y: 0,
            w: 160,
            h: 160,
        },
    }
}

fn test_sheet() -> Sheet {
    Sheet {
        idle: vec![test_cell(); 12],
        run: vec![test_cell(); 12],
        slide: vec![test_cell(); 12],
        jump: vec![test_cell(); 12],
        dead: vec![test_cell(); 12],
    }
}

fn no_input() -> Inputs {
    Inputs {
        move_right: false,
        jump: false,
        move_down: false,
        restart: false,
    }
}

fn backgrounds() -> (Image, Image) {
    (
        Image::new(Point { x: 0, y: 0 }, 600, 600),
        Image::new(Point { x: 600, y: 0 }, 600, 600),
    )
}

fn fresh_walk() -> Walk {
    let (first, second) = backgrounds();
    Walk::new(
        RedHatBoy::new(test_sheet()),
        first,
        second,
        vec![test_cell(); 3],
        90,
        54,
    )
}

#[test]
fn a_fresh_walk_starts_with_one_segment() {
    let walk = fresh_walk();
    assert_eq!(walk.obstacles.len(), 2);
    assert_eq!(walk.timeline, 754);
    assert_eq!(walk.obstacles[0].right(), 240);
    assert_eq!(walk.obstacles[1].right(), 754);
    assert_eq!(walk.boy.frame_label(), "Idle");
}

#[test]
fn generation_appends_one_of_the_two_templates() {
    let mut walk = fresh_walk();
    walk.generate_next_segment();
    assert_eq!(walk.obstacles.len(), 4);
    // Offset 774: the stone sits at 924 or at 1174, depending on the draw.
    let stone_x = match &walk.obstacles[2] {
        Obstacle::Barrier(b) => b.image.bounding_box.x(),
        _ => panic!("expected a stone"),
    };
    assert!(stone_x == 924 || stone_x == 1174, "stone at {stone_x}");
    if stone_x == 924 {
        assert_eq!(walk.timeline, 1528);
    } else {
        assert_eq!(walk.timeline, 1358);
    }
    assert!(walk.timeline >= 754 + 604);
    for obstacle in walk.obstacles.iter() {
        assert!(obstacle.right() > 0);
    }
}

#[test]
fn ready_waits_for_the_first_rightward_input() {
    let session = WalkTheDogStateMachine::new(fresh_walk());
    let session = session.update(&no_input());
    let session = match session {
        WalkTheDogStateMachine::Ready(walk) => {
            assert_eq!(walk.boy.frame_label(), "Idle");
            assert_eq!(walk.boy.walking_speed(), 0);
            WalkTheDogStateMachine::Ready(walk)
        }
        _ => panic!("expected to stay Ready without input"),
    };
    let run = Inputs {
        move_right: true,
        ..no_input()
    };
    match session.update(&run) {
        WalkTheDogStateMachine::Walking(walk) => {
            assert_eq!(walk.boy.frame_label(), "Run");
            assert_eq!(walk.boy.walking_speed(), 4);
        }
        _ => panic!("expected Walking after the rightward input"),
    }
}

#[test]
fn walking_keeps_the_obstacle_stream_covered() {
    let mut session = WalkTheDogStateMachine::new(fresh_walk());
    session = session.update(&Inputs {
        move_right: true,
        ..no_input()
    });
    let mut walked_ticks = 0;
    loop {
        session = session.update(&no_input());
        match &session {
            WalkTheDogStateMachine::Walking(walk) => {
                walked_ticks += 1;
                // Once generation has run, the watermark never drops more
                // than one scroll step below the lookahead threshold.
                assert!(walk.timeline >= 996, "timeline {}", walk.timeline);
                for obstacle in walk.obstacles.iter() {
                    assert!(obstacle.right() > 0);
                }
            }
            WalkTheDogStateMachine::GameOver(_) => break,
            WalkTheDogStateMachine::Ready(_) => panic!("cannot go back to Ready"),
        }
        assert!(walked_ticks < 5000, "the run should end at the first stone");
    }
    assert!(walked_ticks > 0);
}

#[test]
fn barrier_collision_runs_the_knock_out_clock() {
    let (first, second) = backgrounds();
    let mut boy = RedHatBoy::new(test_sheet());
    boy.run_right();
    let walk = Walk {
        boy,
        first_background: first,
        second_background: second,
        obstacles: vec![Obstacle::Barrier(Barrier::new(Image::new(
            Point { x: 0, y: 500 },
            100,
            100,
        )))],
        obstacle_sheet: vec![test_cell(); 3],
        stone_width: 90,
        stone_height: 54,
        timeline: 100,
    };
    let mut session = WalkTheDogStateMachine::Walking(walk);

    // The collision tick: the character starts falling at once.
    session = session.update(&no_input());
    match &session {
        WalkTheDogStateMachine::Walking(walk) => {
            assert_eq!(walk.boy.frame_label(), "Dead");
            assert!(!walk.boy.knocked_out());
            assert_eq!(walk.boy.walking_speed(), 0);
        }
        _ => panic!("still walking on the collision tick"),
    }

    // Twenty-nine further update ticks reach the terminal state.
    for tick in 1..=29 {
        session = session.update(&no_input());
        match &session {
            WalkTheDogStateMachine::Walking(walk) => {
                assert_eq!(walk.boy.knocked_out(), tick == 29);
            }
            _ => panic!("the session reacts one tick after the knock-out"),
        }
    }

    // The session detects the terminal state on the following tick.
    session = session.update(&no_input());
    match &session {
        WalkTheDogStateMachine::GameOver(walk) => {
            assert!(walk.boy.knocked_out());
        }
        _ => panic!("expected GameOver"),
    }

    // Frozen until restarted, then Ready with a fresh character and segment.
    session = session.update(&no_input());
    assert!(matches!(session, WalkTheDogStateMachine::GameOver(_)));
    session = session.update(&Inputs {
        restart: true,
        ..no_input()
    });
    match session {
        WalkTheDogStateMachine::Ready(walk) => {
            assert_eq!(walk.boy.frame_label(), "Idle");
            assert_eq!(walk.boy.pos_y(), 479);
            assert_eq!(walk.obstacles.len(), 2);
            assert_eq!(walk.timeline, 754);
        }
        _ => panic!("expected Ready after restart"),
    }
}

#[test]
fn walking_issues_jump_and_slide_commands() {
    let start = WalkTheDogStateMachine::new(fresh_walk()).update(&Inputs {
        move_right: true,
        ..no_input()
    });
    match start.update(&Inputs {
        jump: true,
        ..no_input()
    }) {
        WalkTheDogStateMachine::Walking(walk) => {
            assert_eq!(walk.boy.frame_label(), "Jump");
            assert!(walk.boy.velocity_y() < 0);
        }
        _ => panic!("expected to stay Walking"),
    }

    let start = WalkTheDogStateMachine::new(fresh_walk()).update(&Inputs {
        move_right: true,
        ..no_input()
    });
    match start.update(&Inputs {
        move_down: true,
        ..no_input()
    }) {
        WalkTheDogStateMachine::Walking(walk) => {
            assert_eq!(walk.boy.frame_label(), "Slide");
        }
        _ => panic!("expected to stay Walking"),
    }
}

#[test]
fn walk_velocity_mirrors_the_walking_speed() {
    let walk = fresh_walk();
    assert_eq!(walk.velocity(), 0);
    let mut running = fresh_walk();
    running.boy.run_right();
    assert_eq!(running.velocity(), -4);
}
