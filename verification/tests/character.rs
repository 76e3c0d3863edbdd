use walk_the_dog::engine::{Cell, Point, Sheet, SheetRect};
use walk_the_dog::game::{
    Event, Idle, RedHatBoy, RedHatBoyContext, RedHatBoyState, RedHatBoyStateMachine, Running,
};

fn test_cell() -> Cell {
    Cell {
        frame: SheetRect {
            x: 0,
            y: 0,
            w: 160,
            h: 160,
        },
        sprite_source_size: SheetRect {
            x: 0,
            y: 0,
            w: 160,
            h: 160,
        },
    }
}

fn test_sheet() -> Sheet {
    Sheet {
        idle: vec![test_cell(); 12],
        run: vec![test_cell(); 12],
        slide: vec![test_cell(); 12],
        jump: vec![test_cell(); 12],
        dead: vec![test_cell(); 12],
    }
}

fn running_machine() -> RedHatBoyStateMachine {
    RedHatBoyStateMachine::Running(RedHatBoyState {
        context: RedHatBoyContext {
            frame: 0,
            position: Point { x: -20, y: 479 },
            velocity: Point { x: 0, y: 0 },
        },
        _state: Running,
    })
}

#[test]
fn unlisted_events_are_ignored() {
    let idle = RedHatBoyStateMachine::Idle(RedHatBoyState::<Idle>::new());
    let after = idle.transition(Event::Jump);
    assert_eq!(after.frame_name(), "Idle");
    assert_eq!(after.context(), idle.context());
    let after = idle.transition(Event::Slide);
    assert_eq!(after.frame_name(), "Idle");
    assert_eq!(after.context(), idle.context());
    let after = idle.transition(Event::KnockOut);
    assert_eq!(after.frame_name(), "Idle");
    assert_eq!(after.context(), idle.context());

    let running = running_machine();
    let after = running.transition(Event::Run);
    assert_eq!(after.frame_name(), "Run");
    assert_eq!(after.context(), running.context());

    let jumping = running.transition(Event::Jump);
    let after = jumping.transition(Event::Slide);
    assert_eq!(after.frame_name(), "Jump");
    assert_eq!(after.context(), jumping.context());
}

#[test]
fn knocked_out_ignores_everything_but_land() {
    let mut machine = running_machine().transition(Event::KnockOut);
    for _ in 0..29 {
        machine = machine.update();
    }
    assert!(machine.knocked_out());
    let frozen = machine.context();
    for event in [Event::Run, Event::Jump, Event::Slide, Event::KnockOut, Event::Update] {
        let after = machine.transition(event);
        assert!(after.knocked_out());
        assert_eq!(after.context(), frozen);
    }
    let landed = machine.transition(Event::Land(500));
    assert!(landed.knocked_out());
    assert_eq!(landed.context().position.y, 379);
}

#[test]
fn idle_frames_cycle_to_twenty_nine_and_wrap() {
    let mut machine = RedHatBoyStateMachine::Idle(RedHatBoyState::<Idle>::new());
    for tick in 1..=29 {
        machine = machine.update();
        assert_eq!(machine.frame_name(), "Idle");
        assert_eq!(machine.context().frame, tick);
    }
    machine = machine.update();
    assert_eq!(machine.context().frame, 0);
    for _ in 0..100 {
        machine = machine.update();
        assert!(machine.context().frame <= 29);
    }
}

#[test]
fn running_frames_cycle_to_twenty_three() {
    let mut machine = running_machine();
    for tick in 1..=23 {
        machine = machine.update();
        assert_eq!(machine.frame_name(), "Run");
        assert_eq!(machine.context().frame, tick);
    }
    machine = machine.update();
    assert_eq!(machine.context().frame, 0);
    for _ in 0..100 {
        machine = machine.update();
        assert!(machine.context().frame <= 23);
    }
}

#[test]
fn jumping_frames_cycle_to_thirty_four() {
    // Jump from a high platform so the flight outlasts one frame cycle.
    let mut machine = running_machine().transition(Event::Land(375)).transition(Event::Jump);
    assert_eq!(machine.context().position.y, 254);
    for tick in 1..=34 {
        machine = machine.update();
        assert_eq!(machine.frame_name(), "Jump");
        assert_eq!(machine.context().frame, tick);
    }
    machine = machine.update();
    assert_eq!(machine.frame_name(), "Jump");
    assert_eq!(machine.context().frame, 0);
}

#[test]
fn sliding_ends_on_the_fourteenth_tick() {
    let mut machine = running_machine().transition(Event::Slide);
    for tick in 1..=13 {
        machine = machine.update();
        assert_eq!(machine.frame_name(), "Slide");
        assert_eq!(machine.context().frame, tick);
    }
    machine = machine.update();
    assert_eq!(machine.frame_name(), "Run");
    assert_eq!(machine.context().frame, 0);
}

#[test]
fn falling_saturates_into_knocked_out_at_twenty_nine() {
    let mut machine = running_machine().transition(Event::KnockOut);
    assert_eq!(machine.frame_name(), "Dead");
    assert_eq!(machine.context().velocity, Point { x: 0, y: 0 });
    for tick in 1..=28 {
        machine = machine.update();
        assert_eq!(machine.frame_name(), "Dead");
        assert!(!machine.knocked_out());
        assert_eq!(machine.context().frame, tick);
    }
    machine = machine.update();
    assert!(machine.knocked_out());
    assert_eq!(machine.context().frame, 29);
    machine = machine.update();
    assert_eq!(machine.context().frame, 29);
}

#[test]
fn velocity_never_exceeds_terminal_velocity() {
    // Land high up, then fall: gravity accumulates up to the cap.
    let mut machine = running_machine().transition(Event::Land(221));
    assert_eq!(machine.context().position.y, 100);
    let mut seen_terminal = false;
    for _ in 0..100 {
        machine = machine.update();
        assert!(machine.context().velocity.y <= 20);
        if machine.context().velocity.y == 20 {
            seen_terminal = true;
        }
    }
    assert!(seen_terminal);
}

#[test]
fn floor_clamp_holds_for_many_ticks() {
    let mut machine = running_machine().transition(Event::Jump);
    for _ in 0..200 {
        machine = machine.update();
        assert!(machine.context().position.y <= 479);
    }
    assert_eq!(machine.context().position.y, 479);
}

#[test]
fn jump_from_floor_lands_running_after_thirty_five_ticks() {
    let mut machine = running_machine().transition(Event::Jump);
    assert_eq!(machine.frame_name(), "Jump");
    assert_eq!(machine.context().velocity.y, -18);
    for _ in 1..=34 {
        machine = machine.update();
        assert_eq!(machine.frame_name(), "Jump");
    }
    machine = machine.update();
    assert_eq!(machine.frame_name(), "Run");
    assert_eq!(machine.context().frame, 0);
    assert_eq!(machine.context().position.y, 479);
}

#[test]
fn landing_snaps_to_the_surface_top() {
    let machine = running_machine().transition(Event::Land(420));
    assert_eq!(machine.frame_name(), "Run");
    assert_eq!(machine.context().position.y, 299);

    let sliding = running_machine().transition(Event::Slide).transition(Event::Land(420));
    assert_eq!(sliding.frame_name(), "Slide");
    assert_eq!(sliding.context().position.y, 299);
}

#[test]
fn boy_boxes_follow_the_sprite_metadata() {
    let boy = RedHatBoy::new(test_sheet());
    assert_eq!(boy.frame_label(), "Idle");
    assert_eq!(boy.sprite_index(), 0);
    let dest = boy.destination_box();
    assert_eq!(dest.x(), -20);
    assert_eq!(dest.y(), 479);
    assert_eq!(dest.width, 160);
    assert_eq!(dest.height, 160);
    let bb = boy.bounding_box();
    assert_eq!(bb.x(), -2);
    assert_eq!(bb.y(), 493);
    assert_eq!(bb.width, 132);
    assert_eq!(bb.height, 146);
}

#[test]
fn sprite_index_advances_every_three_frames() {
    let mut boy = RedHatBoy::new(test_sheet());
    for _ in 0..4 {
        boy.update();
    }
    assert_eq!(boy.sprite_index(), 1);
    assert_eq!(boy.pos_y(), 479);
    assert_eq!(boy.walking_speed(), 0);
    boy.run_right();
    assert_eq!(boy.frame_label(), "Run");
    assert_eq!(boy.walking_speed(), 4);
}
