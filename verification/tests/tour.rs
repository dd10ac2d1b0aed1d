use yew_tou_rs::config::TourConfig;
use yew_tou_rs::position::{PlacementResult, Side};
use yew_tou_rs::rect::Rect;
use yew_tou_rs::step::TourStep;
use yew_tou_rs::tour::{
    Persistence, TourEffect, TourError, TourEvent, TourFrame, TourRunState, TOOLTIP_HEIGHT,
    TOOLTIP_WIDTH,
};

fn config_with(step_count: usize) -> TourConfig {
    let mut steps = Vec::new();
    for index in 0..step_count {
        steps.push(TourStep {
            selector: format!(".step-{}", index),
            content: format!("Step {}", index),
        });
    }
    TourConfig { id: None, steps }
}

fn tour(step_count: usize) -> TourRunState {
    match TourRunState::new(&config_with(step_count), Persistence::Disabled) {
        Ok(state) => state,
        Err(error) => panic!("a tour with steps was refused: {:?}", error),
    }
}

fn stored(step_count: usize, flag: Option<bool>) -> TourRunState {
    match TourRunState::new(&config_with(step_count), Persistence::Enabled(flag)) {
        Ok(state) => state,
        Err(error) => panic!("a tour with steps was refused: {:?}", error),
    }
}

#[test]
fn tooltip_size_is_fixed() {
    assert_eq!(TOOLTIP_WIDTH, 300);
    assert_eq!(TOOLTIP_HEIGHT, 230);
}

#[test]
fn a_tour_starts_at_the_first_step_and_visible() {
    let state = tour(3);
    assert_eq!(state.current_step(), 0);
    assert_eq!(state.step_count(), 3);
    assert!(state.is_visible());
    assert_eq!(state.step_number(), 1);
}

#[test]
fn a_config_without_steps_is_refused() {
    assert!(matches!(
        TourRunState::new(&config_with(0), Persistence::Disabled),
        Err(TourError::NoSteps)
    ));
    assert!(matches!(
        TourRunState::new(&config_with(0), Persistence::Enabled(Some(false))),
        Err(TourError::NoSteps)
    ));
}

#[test]
fn absent_flag_starts_visible() {
    let state = stored(3, None);
    assert!(state.is_visible());
    assert_eq!(state.current_step(), 0);
}

#[test]
fn stored_dismissal_starts_dismissed() {
    let state = stored(3, Some(true));
    assert!(!state.is_visible());
    assert_eq!(state.current_step(), 0);
    assert_eq!(state.frame(None, 800, 600), None);
}

#[test]
fn stored_false_starts_visible() {
    let state = stored(3, Some(false));
    assert!(state.is_visible());
}

#[test]
fn goto_out_of_range_changes_nothing() {
    let mut state = tour(3);
    state.next();
    state.goto(5);
    assert_eq!(state.current_step(), 1);
    assert!(state.is_visible());
    state.goto(3);
    assert_eq!(state.current_step(), 1);
    state.goto(usize::MAX);
    assert_eq!(state.current_step(), 1);
}

#[test]
fn goto_in_range_sets_the_step() {
    let mut state = tour(3);
    state.goto(2);
    assert_eq!(state.current_step(), 2);
    state.goto(0);
    assert_eq!(state.current_step(), 0);
    state.goto(1);
    assert_eq!(state.current_step(), 1);
    assert_eq!(state.step_number(), 2);
}

#[test]
fn next_stops_at_the_last_step() {
    let mut state = tour(3);
    state.next();
    assert_eq!(state.current_step(), 1);
    state.next();
    assert_eq!(state.current_step(), 2);
    state.next();
    assert_eq!(state.current_step(), 2);
}

#[test]
fn previous_stops_at_the_first_step() {
    let mut state = tour(3);
    state.previous();
    assert_eq!(state.current_step(), 0);
    state.goto(2);
    state.previous();
    assert_eq!(state.current_step(), 1);
    state.previous();
    state.previous();
    assert_eq!(state.current_step(), 0);
}

#[test]
fn a_single_step_tour_never_moves() {
    let mut state = tour(1);
    state.next();
    assert_eq!(state.current_step(), 0);
    state.previous();
    assert_eq!(state.current_step(), 0);
    state.goto(1);
    assert_eq!(state.current_step(), 0);
}

#[test]
fn the_step_stays_in_bounds_under_any_walk() {
    for step_count in 1..6usize {
        let mut state = tour(step_count);
        let mut seed: u32 = 12345;
        for _ in 0..200 {
            seed = seed.wrapping_mul(1664525).wrapping_add(1013904223);
            if (seed >> 16) % 2 == 0 {
                state.next();
            } else {
                state.previous();
            }
            assert!(state.current_step() < step_count);
            assert_eq!(state.step_count(), step_count);
        }
    }
}

#[test]
fn skip_dismisses_for_good() {
    let mut state = tour(3);
    state.next();
    assert_eq!(state.skip(), TourEffect::Nothing);
    assert!(!state.is_visible());
    state.next();
    assert!(!state.is_visible());
    state.previous();
    assert!(!state.is_visible());
    state.goto(2);
    assert!(!state.is_visible());
    assert_eq!(state.current_step(), 1);
    assert_eq!(state.apply(TourEvent::Next), TourEffect::Nothing);
    assert_eq!(state.apply(TourEvent::Goto(0)), TourEffect::Nothing);
    assert!(!state.is_visible());
    assert_eq!(state.current_step(), 1);
}

#[test]
fn skip_asks_to_store_the_dismissal_once() {
    let mut state = stored(3, None);
    assert_eq!(state.skip(), TourEffect::PersistDismissal);
    assert!(!state.is_visible());
    assert_eq!(state.skip(), TourEffect::Nothing);
    assert_eq!(state.apply(TourEvent::Skip), TourEffect::Nothing);
}

#[test]
fn skip_of_a_dismissed_tour_stores_nothing() {
    let mut state = stored(2, Some(true));
    assert_eq!(state.skip(), TourEffect::Nothing);
    assert!(!state.is_visible());
}

#[test]
fn apply_carries_out_each_event() {
    let mut state = stored(4, Some(false));
    assert_eq!(state.apply(TourEvent::Next), TourEffect::Nothing);
    assert_eq!(state.current_step(), 1);
    assert_eq!(state.apply(TourEvent::Goto(3)), TourEffect::Nothing);
    assert_eq!(state.current_step(), 3);
    assert_eq!(state.apply(TourEvent::Next), TourEffect::Nothing);
    assert_eq!(state.current_step(), 3);
    assert_eq!(state.apply(TourEvent::Previous), TourEffect::Nothing);
    assert_eq!(state.current_step(), 2);
    assert_eq!(state.apply(TourEvent::Goto(4)), TourEffect::Nothing);
    assert_eq!(state.current_step(), 2);
    assert_eq!(state.apply(TourEvent::Skip), TourEffect::PersistDismissal);
    assert!(!state.is_visible());
    assert_eq!(state.current_step(), 2);
}

#[test]
fn progress_marks_the_current_step() {
    let mut state = tour(4);
    assert_eq!(state.progress_marks(), vec![true, false, false, false]);
    state.goto(2);
    assert_eq!(state.progress_marks(), vec![false, false, true, false]);
    assert_eq!(tour(1).progress_marks(), vec![true]);
}

#[test]
fn frame_places_the_tooltip_against_the_target() {
    let mut state = tour(3);
    state.next();
    let target = Rect {
        x: 200,
        y: 20,
        width: 100,
        height: 50,
    };
    assert_eq!(
        state.frame(Some(target), 800, 600),
        Some(TourFrame {
            step_index: 1,
            step_count: 3,
            target,
            placement: PlacementResult {
                side: Side::Bottom,
                x: 100,
                y: 80
            },
            tooltip_left: -100,
            tooltip_top: 60,
        })
    );
}

#[test]
fn frame_falls_back_when_the_element_is_missing() {
    let state = tour(2);
    assert_eq!(
        state.frame(None, 800, 600),
        Some(TourFrame {
            step_index: 0,
            step_count: 2,
            target: Rect {
                x: 0,
                y: 0,
                width: 0,
                height: 0
            },
            placement: PlacementResult {
                side: Side::Right,
                x: 10,
                y: 0
            },
            tooltip_left: 10,
            tooltip_top: 0,
        })
    );
}

#[test]
fn frame_offsets_do_not_overflow() {
    let state = tour(1);
    let target = Rect {
        x: i32::MIN,
        y: i32::MIN,
        width: 0,
        height: 0,
    };
    let frame = state.frame(Some(target), i32::MAX, i32::MAX);
    match frame {
        Some(frame) => {
            assert_eq!(frame.placement.x, 0);
            assert_eq!(frame.tooltip_left, 2147483648);
            assert_eq!(frame.tooltip_top, 2147483648);
        }
        None => panic!("a visible tour has a frame"),
    }
}

#[test]
fn a_dismissed_tour_has_no_frame() {
    let mut state = tour(3);
    state.skip();
    assert_eq!(state.frame(None, 800, 600), None);
    let target = Rect {
        x: 1,
        y: 2,
        width: 3,
        height: 4,
    };
    assert_eq!(state.frame(Some(target), 800, 600), None);
}
