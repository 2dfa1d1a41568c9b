use troll_overlay::motion::{ImageId, Sprite};
use troll_overlay::palette::Color;
use troll_overlay::progress::{ProgressState, FULL, SEED};
use troll_overlay::render::{render, Caption, DrawCommand, Typeface};
use troll_overlay::simulation::SimulationState;

fn headline(twice_x: i32, twice_y: i32, color: Color) -> DrawCommand {
    DrawCommand::CenteredText {
        typeface: Typeface::Display,
        caption: Caption::Headline,
        twice_x,
        twice_y,
        size: 256,
        color,
    }
}

fn panel(x: i64, y: i64) -> DrawCommand {
    DrawCommand::Panel { x, y, width: 500, height: 70, radius: 4, color: Color::Rgba(0x2222_22FF) }
}

fn bar(x: i64, y: i64, filled: u64) -> DrawCommand {
    DrawCommand::Gauge {
        x,
        y,
        filled,
        full: 16_777_216_000,
        max_width: 480,
        height: 12,
        radius: 4,
        color: Color::Green,
    }
}

fn closing(x: i64, y: i64) -> DrawCommand {
    DrawCommand::Text {
        typeface: Typeface::Body,
        caption: Caption::JustKidding,
        x,
        y,
        size: 20,
        color: Color::Green,
    }
}

fn title(x: i64, y: i64) -> DrawCommand {
    DrawCommand::Text {
        typeface: Typeface::Body,
        caption: Caption::Installing,
        x,
        y,
        size: 24,
        color: Color::White,
    }
}

#[test]
fn the_first_frame_lists_everything_back_to_front() {
    let state = SimulationState::init();
    let commands = state.render(1500, 1000, Color::Purple);
    let expected = vec![
        DrawCommand::Clear { color: Color::Transparent },
        DrawCommand::Image { image: ImageId::Kekw, x: 200, y: 300, side: 200 },
        DrawCommand::Image { image: ImageId::Kekw, x: 50, y: 200, side: 200 },
        DrawCommand::Image { image: ImageId::Troll, x: 500, y: 600, side: 200 },
        DrawCommand::Image { image: ImageId::Rage, x: 700, y: 50, side: 200 },
        DrawCommand::Image { image: ImageId::Rage, x: 400, y: 650, side: 200 },
        headline(1500, 1000, Color::Purple),
        panel(500, 650),
        bar(510, 692, SEED),
        title(510, 660),
    ];
    assert_eq!(commands, expected);
}

#[test]
fn a_full_gauge_shows_the_closing_caption_in_place_of_the_bar() {
    let sprites: Vec<Sprite> = Vec::new();
    let full = ProgressState::new(FULL).unwrap();
    let commands = render(&sprites, &full, 1500, 1000, Color::Red);
    let expected = vec![
        DrawCommand::Clear { color: Color::Transparent },
        headline(1500, 1000, Color::Red),
        panel(500, 650),
        closing(510, 690),
        title(510, 660),
    ];
    assert_eq!(commands, expected);
    assert!(!commands.iter().any(|c| matches!(c, DrawCommand::Gauge { .. })));
}

#[test]
fn a_gauge_one_unit_short_of_full_still_shows_the_bar() {
    let sprites: Vec<Sprite> = Vec::new();
    let nearly = ProgressState::new(FULL - 1).unwrap();
    let commands = render(&sprites, &nearly, 1500, 1000, Color::Red);
    assert_eq!(commands[3], bar(510, 692, FULL - 1));
    assert!(!commands
        .iter()
        .any(|c| matches!(c, DrawCommand::Text { caption: Caption::JustKidding, .. })));
}

#[test]
fn the_bar_is_as_full_as_the_gauge() {
    let sprites: Vec<Sprite> = Vec::new();
    for value in [0, 1, SEED, FULL / 2, FULL - 1] {
        let progress = ProgressState::new(value).unwrap();
        let commands = render(&sprites, &progress, 1500, 1000, Color::Red);
        assert_eq!(commands[3], bar(510, 692, value));
    }
}

#[test]
fn an_odd_frame_keeps_its_half_pixel_for_the_headline_only() {
    let sprites: Vec<Sprite> = Vec::new();
    let progress = ProgressState::seeded();
    let commands = render(&sprites, &progress, 1501, 1001, Color::Blue);
    assert_eq!(commands[1], headline(1501, 1001, Color::Blue));
    assert_eq!(commands[2], panel(500, 650));
    assert_eq!(commands[3], bar(510, 692, SEED));
    assert_eq!(commands[4], title(510, 660));
}

#[test]
fn a_small_frame_puts_the_panel_left_of_the_frame() {
    let sprites: Vec<Sprite> = Vec::new();
    let progress = ProgressState::seeded();
    let commands = render(&sprites, &progress, 100, 50, Color::Blue);
    assert_eq!(commands[2], panel(-200, 175));
    assert_eq!(commands[3], bar(-190, 217, SEED));
    assert_eq!(commands[4], title(-190, 185));
}

#[test]
fn halving_rounds_towards_zero() {
    let sprites: Vec<Sprite> = Vec::new();
    let progress = ProgressState::seeded();
    let commands = render(&sprites, &progress, -3, -1, Color::Blue);
    assert_eq!(commands[2], panel(-251, 150));
    let commands = render(&sprites, &progress, i32::MIN, i32::MAX, Color::Blue);
    assert_eq!(commands[1], headline(i32::MIN, i32::MAX, Color::Blue));
    assert_eq!(commands[2], panel(-1_073_741_824 - 250, 1_073_741_823 + 150));
}

#[test]
fn sprites_are_drawn_in_list_order_at_their_positions() {
    let sprites = vec![
        Sprite { position: (-2, 802), velocity: (2, -2), image: ImageId::Rage },
        Sprite { position: (i32::MAX, i32::MIN), velocity: (2, 2), image: ImageId::Troll },
    ];
    let progress = ProgressState::seeded();
    let commands = render(&sprites, &progress, 1500, 1000, Color::Pink);
    assert_eq!(commands.len(), 7);
    assert_eq!(commands[1], DrawCommand::Image { image: ImageId::Rage, x: -2, y: 802, side: 200 });
    assert_eq!(
        commands[2],
        DrawCommand::Image {
            image: ImageId::Troll,
            x: 2_147_483_647,
            y: -2_147_483_648,
            side: 200
        }
    );
}

#[test]
fn rendering_leaves_the_state_alone() {
    let state = SimulationState::init();
    let first = state.render(1500, 1000, Color::Orange);
    let second = state.render(1500, 1000, Color::Orange);
    assert_eq!(first, second);
    assert_eq!(state, SimulationState::init());
}

#[test]
fn the_captions_read_as_they_should() {
    assert_eq!(Caption::Headline.text(), "REKT!");
    assert_eq!(Caption::Installing.text(), "Installing cryto miner....");
    assert_eq!(Caption::JustKidding.text(), "JUST KIDDING");
}
