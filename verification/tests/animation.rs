use alp_and_run::animation::advance_frame;
use alp_and_run::animation::animate_character;
use alp_and_run::animation::AnimationGroup;
use alp_and_run::animation::FRAMES_PER_GROUP;
use alp_and_run::animation::FRAME_COUNT;
use alp_and_run::clock::AnimationClock;
use alp_and_run::movement::Character;
use alp_and_run::movement::MovementState;

const ALL_STATES: [MovementState; 9] = [
    MovementState::Up,
    MovementState::Down,
    MovementState::Right,
    MovementState::Left,
    MovementState::UpLeft,
    MovementState::UpRight,
    MovementState::DownLeft,
    MovementState::DownRight,
    MovementState::Idle,
];

fn finished_clock() -> AnimationClock {
    let mut clock = AnimationClock::new();
    clock.tick(50_000);
    assert!(clock.finished());
    clock
}

fn character_in(state: MovementState) -> Character {
    Character { move_state: state, speed: 400 }
}

#[test]
fn sheet_has_four_rows_of_nine() {
    assert_eq!(FRAMES_PER_GROUP, 9);
    assert_eq!(FRAME_COUNT, 36);
    assert_eq!(AnimationGroup::Up.base_frame(), 0);
    assert_eq!(AnimationGroup::Up.last_frame(), 8);
    assert_eq!(AnimationGroup::Left.base_frame(), 9);
    assert_eq!(AnimationGroup::Left.last_frame(), 17);
    assert_eq!(AnimationGroup::Down.base_frame(), 18);
    assert_eq!(AnimationGroup::Down.last_frame(), 26);
    assert_eq!(AnimationGroup::Right.base_frame(), 27);
    assert_eq!(AnimationGroup::Right.last_frame(), 35);
}

#[test]
fn states_map_to_their_rows() {
    assert_eq!(AnimationGroup::for_state(MovementState::Up), Some(AnimationGroup::Up));
    assert_eq!(AnimationGroup::for_state(MovementState::Down), Some(AnimationGroup::Down));
    assert_eq!(AnimationGroup::for_state(MovementState::Left), Some(AnimationGroup::Left));
    assert_eq!(AnimationGroup::for_state(MovementState::UpLeft), Some(AnimationGroup::Left));
    assert_eq!(AnimationGroup::for_state(MovementState::DownLeft), Some(AnimationGroup::Left));
    assert_eq!(AnimationGroup::for_state(MovementState::Right), Some(AnimationGroup::Right));
    assert_eq!(AnimationGroup::for_state(MovementState::UpRight), Some(AnimationGroup::Right));
    assert_eq!(AnimationGroup::for_state(MovementState::DownRight), Some(AnimationGroup::Right));
    assert_eq!(AnimationGroup::for_state(MovementState::Idle), None);
}

#[test]
fn frames_map_to_their_rows() {
    for index in 0..=8u32 {
        assert_eq!(AnimationGroup::for_frame(index), Some(AnimationGroup::Up));
    }
    for index in 9..=17u32 {
        assert_eq!(AnimationGroup::for_frame(index), Some(AnimationGroup::Left));
    }
    for index in 18..=26u32 {
        assert_eq!(AnimationGroup::for_frame(index), Some(AnimationGroup::Down));
    }
    for index in 27..=35u32 {
        assert_eq!(AnimationGroup::for_frame(index), Some(AnimationGroup::Right));
    }
    assert_eq!(AnimationGroup::for_frame(36), None);
    assert_eq!(AnimationGroup::for_frame(u32::MAX), None);
}

#[test]
fn right_group_advances_then_wraps() {
    for state in [MovementState::Right, MovementState::DownRight, MovementState::UpRight] {
        for index in 27..=34u32 {
            assert_eq!(advance_frame(state, index), index + 1);
        }
        assert_eq!(advance_frame(state, 35), 27);
    }
}

#[test]
fn down_group_advances_then_wraps() {
    for index in 18..=25u32 {
        assert_eq!(advance_frame(MovementState::Down, index), index + 1);
    }
    assert_eq!(advance_frame(MovementState::Down, 26), 18);
}

#[test]
fn left_group_advances_then_wraps() {
    for state in [MovementState::Left, MovementState::DownLeft, MovementState::UpLeft] {
        for index in 9..=16u32 {
            assert_eq!(advance_frame(state, index), index + 1);
        }
        assert_eq!(advance_frame(state, 17), 9);
    }
}

#[test]
fn up_group_advances_then_wraps() {
    for index in 0..=7u32 {
        assert_eq!(advance_frame(MovementState::Up, index), index + 1);
    }
    assert_eq!(advance_frame(MovementState::Up, 8), 0);
}

#[test]
fn change_of_state_snaps_to_the_new_row() {
    assert_eq!(advance_frame(MovementState::Right, 3), 27);
    assert_eq!(advance_frame(MovementState::Right, 26), 27);
    assert_eq!(advance_frame(MovementState::Right, 36), 27);
    assert_eq!(advance_frame(MovementState::Down, 17), 18);
    assert_eq!(advance_frame(MovementState::Down, 27), 18);
    assert_eq!(advance_frame(MovementState::Left, 8), 9);
    assert_eq!(advance_frame(MovementState::Left, 18), 9);
    assert_eq!(advance_frame(MovementState::Up, 9), 0);
    assert_eq!(advance_frame(MovementState::Up, u32::MAX), 0);
}

#[test]
fn idle_snaps_to_the_base_of_the_current_row() {
    assert_eq!(advance_frame(MovementState::Idle, 31), 27);
    assert_eq!(advance_frame(MovementState::Idle, 27), 27);
    assert_eq!(advance_frame(MovementState::Idle, 5), 0);
    assert_eq!(advance_frame(MovementState::Idle, 12), 9);
    assert_eq!(advance_frame(MovementState::Idle, 20), 18);
}

#[test]
fn idle_snaps_from_the_last_frame_of_each_row() {
    assert_eq!(advance_frame(MovementState::Idle, 8), 0);
    assert_eq!(advance_frame(MovementState::Idle, 17), 9);
    assert_eq!(advance_frame(MovementState::Idle, 26), 18);
    assert_eq!(advance_frame(MovementState::Idle, 35), 27);
}

#[test]
fn idle_leaves_a_frame_beyond_the_sheet_alone() {
    assert_eq!(advance_frame(MovementState::Idle, 36), 36);
    assert_eq!(advance_frame(MovementState::Idle, 1000), 1000);
    assert_eq!(advance_frame(MovementState::Idle, u32::MAX), u32::MAX);
}

#[test]
fn idle_snap_is_idempotent_on_every_frame() {
    for index in 0..64u32 {
        let once = advance_frame(MovementState::Idle, index);
        assert_eq!(advance_frame(MovementState::Idle, once), once);
    }
}

#[test]
fn frames_on_the_sheet_stay_on_the_sheet() {
    for state in ALL_STATES {
        for index in 0..FRAME_COUNT {
            assert!(advance_frame(state, index) < FRAME_COUNT);
        }
    }
}

#[test]
fn nine_firings_close_a_walk_cycle() {
    for state in ALL_STATES {
        if let Some(group) = AnimationGroup::for_state(state) {
            for start in group.base_frame()..=group.last_frame() {
                let mut index = start;
                for _ in 0..9 {
                    index = advance_frame(state, index);
                }
                assert_eq!(index, start);
            }
        }
    }
}

#[test]
fn no_firing_no_change() {
    for state in ALL_STATES {
        for index in [0u32, 8, 9, 17, 18, 26, 27, 31, 35, 36, 99] {
            let mut clock = AnimationClock::new();
            clock.tick(49_999);
            let mut frame = index;
            animate_character(&mut clock, &character_in(state), &mut frame);
            assert_eq!(frame, index);
            assert_eq!(clock.elapsed_us(), 49_999);
            assert!(!clock.finished());
        }
    }
}

#[test]
fn firing_rearms_the_clock_and_moves_the_frame() {
    let mut clock = AnimationClock::new();
    clock.tick(60_000);
    assert!(clock.finished());
    assert_eq!(clock.elapsed_us(), 10_000);
    let mut frame = 30u32;
    animate_character(&mut clock, &character_in(MovementState::DownRight), &mut frame);
    assert_eq!(frame, 31);
    assert!(!clock.finished());
    assert_eq!(clock.elapsed_us(), 0);
}

#[test]
fn idle_firing_snaps_once_and_then_rests() {
    let mut frame = 31u32;
    let mut clock = finished_clock();
    animate_character(&mut clock, &character_in(MovementState::Idle), &mut frame);
    assert_eq!(frame, 27);
    let mut clock = finished_clock();
    animate_character(&mut clock, &character_in(MovementState::Idle), &mut frame);
    assert_eq!(frame, 27);
}
