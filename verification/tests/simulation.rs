use troll_overlay::input::{poll_exit, InputSnapshot, TickSignal, EXIT_CODE};
use troll_overlay::palette::{Color, Palette};
use troll_overlay::presentation::{enforce, PresentationCommand, PresentationFlags};
use troll_overlay::progress::{DRAW_SPAN, FULL, SEED};
use troll_overlay::render::{Caption, DrawCommand, Typeface};
use troll_overlay::simulation::{SimulationState, TickOutcome, POSITION_CEILING};

const IDLE: InputSnapshot = InputSnapshot { space_pressed: false };
const EXIT: InputSnapshot = InputSnapshot { space_pressed: true };

#[test]
fn the_exit_key_and_nothing_else_asks_for_termination() {
    assert_eq!(poll_exit(&EXIT), TickSignal::Terminate);
    assert_eq!(poll_exit(&IDLE), TickSignal::Continue);
    assert_eq!(EXIT_CODE, 0);
}

#[test]
fn the_overlay_starts_seeded_with_the_standard_palette() {
    let state = SimulationState::init();
    assert_eq!(state.sprites().len(), 5);
    assert_eq!(state.progress().value(), SEED);
    assert_eq!(state.palette(), &Palette::standard());
}

#[test]
fn a_tick_with_the_exit_key_stops_before_anything_moves() {
    let mut state = SimulationState::init();
    let outcome = state.update(&EXIT, 1500, 1000);
    assert_eq!(outcome, TickOutcome::Terminate { exit_code: 0 });
    assert_eq!(state, SimulationState::init());
    let outcome = state.update_with(&EXIT, 1500, 1000, 1_000_000);
    assert_eq!(outcome, TickOutcome::Terminate { exit_code: 0 });
    assert_eq!(state, SimulationState::init());
}

#[test]
fn the_exit_key_stops_a_later_tick_as_well() {
    let mut state = SimulationState::init();
    for _ in 0..250 {
        state.update(&IDLE, 1500, 1000);
    }
    let sprites = state.sprites().clone();
    let progress = *state.progress();
    let outcome = state.update(&EXIT, 1500, 1000);
    assert_eq!(outcome, TickOutcome::Terminate { exit_code: 0 });
    assert_eq!(state.sprites(), &sprites);
    assert_eq!(state.progress(), &progress);
}

#[test]
fn every_tick_that_goes_on_issues_the_same_presentation() {
    let fixed = PresentationCommand {
        position: (0, 0),
        flags: PresentationFlags { style: 0x160A_0000, ex_style: 0x0008_00B8 },
    };
    assert_eq!(enforce(), fixed);
    let mut state = SimulationState::init();
    for tick in 0..2000 {
        let width = 1500 - (tick % 7) * 100;
        let outcome = state.update(&IDLE, width, 1000);
        assert_eq!(outcome, TickOutcome::Continue { presentation: fixed });
    }
}

#[test]
fn a_tick_with_a_given_increment_is_exact() {
    let mut state = SimulationState::init();
    let outcome = state.update_with(&IDLE, 1500, 1000, 4_242);
    assert_eq!(outcome, TickOutcome::Continue { presentation: enforce() });
    assert_eq!(state.progress().value(), SEED + 4_242);
    let positions: Vec<(i32, i32)> = state.sprites().iter().map(|s| s.position).collect();
    assert_eq!(positions, vec![(202, 298), (48, 202), (502, 602), (698, 52), (398, 648)]);
}

#[test]
fn a_random_tick_adds_less_than_the_span() {
    let mut state = SimulationState::init();
    let mut last = state.progress().value();
    for _ in 0..3000 {
        state.update(&IDLE, 1500, 1000);
        let now = state.progress().value();
        assert!(last <= now && now <= FULL);
        assert!(now - last < DRAW_SPAN);
        last = now;
    }
}

#[test]
fn the_gauge_fills_and_the_frame_swaps_the_bar_for_the_caption() {
    let mut state = SimulationState::init();
    state.update_with(&IDLE, 1500, 1000, FULL - SEED - 1);
    assert!(!state.progress().is_terminal());
    let frame = state.draw(1500, 1000);
    assert!(frame.iter().any(|c| matches!(c, DrawCommand::Gauge { .. })));
    state.update_with(&IDLE, 1500, 1000, 1);
    assert!(state.progress().is_terminal());
    for _ in 0..50 {
        state.update(&IDLE, 1500, 1000);
        assert_eq!(state.progress().value(), FULL);
        let frame = state.draw(1500, 1000);
        assert!(!frame.iter().any(|c| matches!(c, DrawCommand::Gauge { .. })));
        assert!(frame
            .iter()
            .any(|c| matches!(c, DrawCommand::Text { caption: Caption::JustKidding, .. })));
    }
}

#[test]
fn a_drawn_frame_is_the_rendered_frame_with_a_palette_color() {
    let state = SimulationState::init();
    let palette = [
        Color::Orange,
        Color::Red,
        Color::Yellow,
        Color::Green,
        Color::Purple,
        Color::Blue,
        Color::Pink,
    ];
    for _ in 0..200 {
        let frame = state.draw(1500, 1000);
        assert_eq!(frame.len(), 10);
        let color = match frame[6] {
            DrawCommand::CenteredText {
                typeface: Typeface::Display,
                caption: Caption::Headline,
                twice_x: 1500,
                twice_y: 1000,
                size: 256,
                color,
            } => color,
            other => panic!("the seventh command is {:?}", other),
        };
        assert!(palette.contains(&color));
        assert_eq!(frame, state.render(1500, 1000, color));
    }
}

#[test]
fn the_headline_flickers_between_frames() {
    let state = SimulationState::init();
    let first = state.draw(1500, 1000);
    let mut varied = false;
    for _ in 0..500 {
        if state.draw(1500, 1000) != first {
            varied = true;
        }
    }
    assert!(varied);
}

#[test]
fn sprites_never_climb_past_the_ceiling_whatever_the_viewport() {
    assert_eq!(POSITION_CEILING, i32::MAX - 200 + 2);
    let mut state = SimulationState::init();
    let viewports = [(i32::MAX, i32::MAX), (i32::MIN, i32::MIN), (0, 0), (1500, 1000), (-1, 199)];
    for tick in 0..10_000usize {
        let (width, height) = viewports[tick % viewports.len()];
        state.update_with(&IDLE, width, height, 0);
        for s in state.sprites().iter() {
            assert!(s.position.0 <= POSITION_CEILING && s.position.1 <= POSITION_CEILING);
            assert!(s.velocity.0.abs() == 2 && s.velocity.1.abs() == 2);
        }
    }
    assert_eq!(state.progress().value(), SEED);
}

#[test]
fn the_overlay_keeps_its_sprites_within_one_step_of_the_window() {
    let mut state = SimulationState::init();
    for _ in 0..20_000 {
        state.update_with(&IDLE, 1500, 1000, 1);
        for s in state.sprites().iter() {
            assert!(-2 <= s.position.0 && s.position.0 <= 1302);
            assert!(-2 <= s.position.1 && s.position.1 <= 802);
        }
    }
    assert_eq!(state.progress().value(), SEED + 20_000);
}
