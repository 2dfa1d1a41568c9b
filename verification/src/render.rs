//! Renderer: turns the state of one tick into the display list of a frame.
//!
//! The list is drawn in order, back to front: the backdrop, the sprites,
//! the headline, the progress panel, then inside the panel either the bar
//! or, once the gauge is full, the closing caption, and last the panel's
//! title. Rendering reads the state and changes nothing.

use crate::motion::{views, ImageId, Sprite, SpriteView, SPRITE_SIZE};
use crate::palette::Color;
use crate::progress::{ProgressState, FULL};
use vstd::prelude::*;

verus! {

/// Point size of the headline.
pub const HEADLINE_SIZE: u32 = 256;

/// How far left of the frame's middle the panel begins.
pub const PANEL_REACH: i64 = 250;

/// How far below the frame's middle the panel begins.
pub const PANEL_DROP: i64 = 150;

/// Width of the panel.
pub const PANEL_WIDTH: u32 = 500;

/// Height of the panel.
pub const PANEL_HEIGHT: u32 = 70;

/// Fill of the panel, as `0xRRGGBBAA`.
pub const PANEL_FILL: u32 = 0x2222_22FF;

/// Corner radius of the panel and of the bar.
pub const CORNER_RADIUS: u32 = 4;

/// Distance of the panel's contents from its left edge.
pub const PANEL_INSET: i64 = 10;

/// Width of the bar when the gauge is full.
pub const BAR_MAX_WIDTH: u32 = 480;

/// Height of the bar.
pub const BAR_HEIGHT: u32 = 12;

/// Distance of the bar from the panel's top.
pub const BAR_DROP: i64 = 42;

/// Distance of the closing caption from the panel's top.
pub const CLOSING_DROP: i64 = 40;

/// Point size of the closing caption.
pub const CLOSING_SIZE: u32 = 20;

/// Distance of the panel's title from the panel's top.
pub const TITLE_DROP: i64 = 10;

/// Point size of the panel's title.
pub const TITLE_SIZE: u32 = 24;

/// Which of the two loaded fonts a text is set in.
#[derive(Clone, Copy, Debug, PartialEq, Eq)]
pub enum Typeface {
    /// The bold display face of the headline.
    Display,
    /// The face of the panel's texts.
    Body,
}

/// The texts the overlay shows.
#[derive(Clone, Copy, Debug, PartialEq, Eq)]
pub enum Caption {
    Headline,
    Installing,
    JustKidding,
}

impl Caption {
    /// The characters of the caption.
    pub open spec fn spec_text(self) -> Seq<char> {
        match self {
            Caption::Headline => "REKT!"@,
            Caption::Installing => "Installing cryto miner...."@,
            Caption::JustKidding => "JUST KIDDING"@,
        }
    }

    /// The caption as a string.
    pub fn text(&self) -> (text: &'static str)
        ensures
            text@ == self.spec_text(),
    {
        match self {
            Caption::Headline => "REKT!",
            Caption::Installing => "Installing cryto miner....",
            Caption::JustKidding => "JUST KIDDING",
        }
    }
}

/// One entry of a frame's display list. Coordinates are in pixels, `x` to
/// the right and `y` down, and name the top-left corner of what is drawn
/// unless said otherwise.
#[derive(Clone, Copy, Debug, PartialEq, Eq)]
pub enum DrawCommand {
    /// Fill the whole frame with `color`.
    Clear { color: Color },
    /// Draw `image` scaled into a square of side `side`.
    Image { image: ImageId, x: i64, y: i64, side: i32 },
    /// Draw `caption` centred, both ways, on a point given in half pixels:
    /// the point is `(twice_x / 2, twice_y / 2)`, so the middle of a frame
    /// of odd size keeps its half pixel.
    CenteredText {
        typeface: Typeface,
        caption: Caption,
        twice_x: i32,
        twice_y: i32,
        size: u32,
        color: Color,
    },
    /// Draw `caption` with its top-left corner at the point.
    Text { typeface: Typeface, caption: Caption, x: i64, y: i64, size: u32, color: Color },
    /// Draw a filled rectangle with rounded corners.
    Panel { x: i64, y: i64, width: u32, height: u32, radius: u32, color: Color },
    /// Draw a filled bar with rounded corners whose width is the share
    /// `filled / full` of `max_width`.
    Gauge {
        x: i64,
        y: i64,
        filled: u64,
        full: u64,
        max_width: u32,
        height: u32,
        radius: u32,
        color: Color,
    },
}

/// A display-list entry over the mathematical integers.
pub enum DrawCommandView {
    Clear { color: Color },
    Image { image: ImageId, x: int, y: int, side: int },
    CenteredText {
        typeface: Typeface,
        caption: Caption,
        twice_x: int,
        twice_y: int,
        size: int,
        color: Color,
    },
    Text { typeface: Typeface, caption: Caption, x: int, y: int, size: int, color: Color },
    Panel { x: int, y: int, width: int, height: int, radius: int, color: Color },
    Gauge {
        x: int,
        y: int,
        filled: int,
        full: int,
        max_width: int,
        height: int,
        radius: int,
        color: Color,
    },
}

impl View for DrawCommand {
    type V = DrawCommandView;

    open spec fn view(&self) -> DrawCommandView {
        match *self {
            DrawCommand::Clear { color } => DrawCommandView::Clear { color },
            DrawCommand::Image { image, x, y, side } => DrawCommandView::Image {
                image,
                x: x as int,
                y: y as int,
                side: side as int,
            },
            DrawCommand::CenteredText { typeface, caption, twice_x, twice_y, size, color } => {
                DrawCommandView::CenteredText {
                    typeface,
                    caption,
                    twice_x: twice_x as int,
                    twice_y: twice_y as int,
                    size: size as int,
                    color,
                }
            },
            DrawCommand::Text { typeface, caption, x, y, size, color } => DrawCommandView::Text {
                typeface,
                caption,
                x: x as int,
                y: y as int,
                size: size as int,
                color,
            },
            DrawCommand::Panel { x, y, width, height, radius, color } => DrawCommandView::Panel {
                x: x as int,
                y: y as int,
                width: width as int,
                height: height as int,
                radius: radius as int,
                color,
            },
            DrawCommand::Gauge { x, y, filled, full, max_width, height, radius, color } => {
                DrawCommandView::Gauge {
                    x: x as int,
                    y: y as int,
                    filled: filled as int,
                    full: full as int,
                    max_width: max_width as int,
                    height: height as int,
                    radius: radius as int,
                    color,
                }
            },
        }
    }
}

/// The views of a display list, in order.
pub open spec fn command_views(commands: Seq<DrawCommand>) -> Seq<DrawCommandView> {
    Seq::new(commands.len(), |i: int| commands[i]@)
}

/// Half of a frame dimension, rounded towards zero.
pub open spec fn half_of(n: int) -> int {
    if n >= 0 {
        n / 2
    } else {
        -((-n) / 2)
    }
}

/// Left edge of the panel in a frame of the given width.
pub open spec fn panel_x(width: int) -> int {
    half_of(width) - PANEL_REACH
}

/// Top edge of the panel in a frame of the given height.
pub open spec fn panel_y(height: int) -> int {
    half_of(height) + PANEL_DROP
}

/// The backdrop: the frame cleared to full transparency.
pub open spec fn backdrop() -> DrawCommandView {
    DrawCommandView::Clear { color: Color::Transparent }
}

/// A sprite's picture at the sprite's position.
pub open spec fn picture(sprite: SpriteView) -> DrawCommandView {
    DrawCommandView::Image {
        image: sprite.image,
        x: sprite.x,
        y: sprite.y,
        side: SPRITE_SIZE as int,
    }
}

/// The headline, centred on the middle of the frame.
pub open spec fn headline(width: int, height: int, color: Color) -> DrawCommandView {
    DrawCommandView::CenteredText {
        typeface: Typeface::Display,
        caption: Caption::Headline,
        twice_x: width,
        twice_y: height,
        size: HEADLINE_SIZE as int,
        color,
    }
}

/// The panel behind the gauge.
pub open spec fn panel(width: int, height: int) -> DrawCommandView {
    DrawCommandView::Panel {
        x: panel_x(width),
        y: panel_y(height),
        width: PANEL_WIDTH as int,
        height: PANEL_HEIGHT as int,
        radius: CORNER_RADIUS as int,
        color: Color::Rgba(PANEL_FILL),
    }
}

/// The bar of a gauge that stands at `progress`.
pub open spec fn bar(progress: nat, width: int, height: int) -> DrawCommandView {
    DrawCommandView::Gauge {
        x: panel_x(width) + PANEL_INSET,
        y: panel_y(height) + BAR_DROP,
        filled: progress as int,
        full: FULL as int,
        max_width: BAR_MAX_WIDTH as int,
        height: BAR_HEIGHT as int,
        radius: CORNER_RADIUS as int,
        color: Color::Green,
    }
}

/// The caption that takes the bar's place once the gauge is full.
pub open spec fn closing_caption(width: int, height: int) -> DrawCommandView {
    DrawCommandView::Text {
        typeface: Typeface::Body,
        caption: Caption::JustKidding,
        x: panel_x(width) + PANEL_INSET,
        y: panel_y(height) + CLOSING_DROP,
        size: CLOSING_SIZE as int,
        color: Color::Green,
    }
}

/// What the panel shows of the gauge: the closing caption when the gauge is
/// exactly full, the bar otherwise.
pub open spec fn status(progress: nat, width: int, height: int) -> DrawCommandView {
    if progress == FULL {
        closing_caption(width, height)
    } else {
        bar(progress, width, height)
    }
}

/// The title of the panel.
pub open spec fn title(width: int, height: int) -> DrawCommandView {
    DrawCommandView::Text {
        typeface: Typeface::Body,
        caption: Caption::Installing,
        x: panel_x(width) + PANEL_INSET,
        y: panel_y(height) + TITLE_DROP,
        size: TITLE_SIZE as int,
        color: Color::White,
    }
}

/// The pictures of the sprites, in list order.
pub open spec fn pictures(sprites: Seq<SpriteView>) -> Seq<DrawCommandView> {
    Seq::new(sprites.len(), |i: int| picture(sprites[i]))
}

/// What closes every frame after the sprites: headline, panel, the gauge's
/// status, and the panel's title.
pub open spec fn foreground(progress: nat, width: int, height: int, color: Color) -> Seq<
    DrawCommandView,
> {
    seq![
        headline(width, height, color),
        panel(width, height),
        status(progress, width, height),
        title(width, height),
    ]
}

/// The display list of a frame of the given size, with the headline in
/// `color`.
pub open spec fn frame(
    sprites: Seq<SpriteView>,
    progress: nat,
    width: int,
    height: int,
    color: Color,
) -> Seq<DrawCommandView> {
    seq![backdrop()] + pictures(sprites) + foreground(progress, width, height, color)
}

/// The command draws the gauge's bar.
pub open spec fn is_bar(command: DrawCommandView) -> bool {
    command is Gauge
}

/// The command draws the closing caption.
pub open spec fn is_closing_caption(command: DrawCommandView) -> bool {
    command matches DrawCommandView::Text { caption, .. } && caption == Caption::JustKidding
}

/// Half of a frame dimension, rounded towards zero.
fn half(n: i32) -> (h: i64)
    ensures
        h == half_of(n as int),
{
    if n >= 0 {
        (n / 2) as i64
    } else {
        -((-(n as i64)) / 2)
    }
}

/// Composes the display list of one frame: backdrop, each sprite's picture
/// at its position, the headline in `headline_color`, the panel, the bar or
/// (for a full gauge) the closing caption, and the panel's title.
pub fn render(
    sprites: &Vec<Sprite>,
    progress: &ProgressState,
    frame_width: i32,
    frame_height: i32,
    headline_color: Color,
) -> (commands: Vec<DrawCommand>)
    ensures
        command_views(commands@) == frame(
            views(sprites@),
            progress@,
            frame_width as int,
            frame_height as int,
            headline_color,
        ),
{
    let mut commands: Vec<DrawCommand> = Vec::new();
    commands.push(DrawCommand::Clear { color: Color::Transparent });
    let mut i: usize = 0;
    while i < sprites.len()
        invariant
            i <= sprites.len(),
            commands.len() == i + 1,
            commands[0]@ == backdrop(),
            forall|j: int| 0 <= j < i ==> (#[trigger] commands[j + 1])@ == picture(sprites[j]@),
        decreases sprites.len() - i,
    {
        let sprite = sprites[i];
        commands.push(
            DrawCommand::Image {
                image: sprite.image,
                x: sprite.position.0 as i64,
                y: sprite.position.1 as i64,
                side: SPRITE_SIZE,
            },
        );
        i += 1;
    }
    let left: i64 = half(frame_width) - PANEL_REACH;
    let top: i64 = half(frame_height) + PANEL_DROP;
    commands.push(
        DrawCommand::CenteredText {
            typeface: Typeface::Display,
            caption: Caption::Headline,
            twice_x: frame_width,
            twice_y: frame_height,
            size: HEADLINE_SIZE,
            color: headline_color,
        },
    );
    commands.push(
        DrawCommand::Panel {
            x: left,
            y: top,
            width: PANEL_WIDTH,
            height: PANEL_HEIGHT,
            radius: CORNER_RADIUS,
            color: Color::Rgba(PANEL_FILL),
        },
    );
    if progress.is_terminal() {
        commands.push(
            DrawCommand::Text {
                typeface: Typeface::Body,
                caption: Caption::JustKidding,
                x: left + PANEL_INSET,
                y: top + CLOSING_DROP,
                size: CLOSING_SIZE,
                color: Color::Green,
            },
        );
    } else {
        commands.push(
            DrawCommand::Gauge {
                x: left + PANEL_INSET,
                y: top + BAR_DROP,
                filled: progress.value(),
                full: FULL,
                max_width: BAR_MAX_WIDTH,
                height: BAR_HEIGHT,
                radius: CORNER_RADIUS,
                color: Color::Green,
            },
        );
    }
    commands.push(
        DrawCommand::Text {
            typeface: Typeface::Body,
            caption: Caption::Installing,
            x: left + PANEL_INSET,
            y: top + TITLE_DROP,
            size: TITLE_SIZE,
            color: Color::White,
        },
    );
    proof {
        let n = sprites.len() as int;
        let expected = frame(
            views(sprites@),
            progress@,
            frame_width as int,
            frame_height as int,
            headline_color,
        );
        let got = command_views(commands@);
        assert(got.len() == expected.len());
        assert forall|k: int| 0 <= k < got.len() implies got[k] == expected[k] by {
            if 1 <= k <= n {
                assert(commands[(k - 1) + 1]@ == picture(sprites[k - 1]@));
            }
        }
        assert(got =~= expected);
    }
    commands
}

/// The bar and the closing caption never appear together. A frame of a full
/// gauge holds the closing caption and no bar; a frame of any other gauge
/// holds the bar and no closing caption.
pub proof fn lemma_full_gauge_swaps_bar_for_caption(
    sprites: Seq<SpriteView>,
    progress: nat,
    width: int,
    height: int,
    color: Color,
)
    ensures
        ({
            let list = frame(sprites, progress, width, height, color);
            let slot = sprites.len() as int + 3;
            &&& list.len() == sprites.len() + 5
            &&& progress == FULL ==> is_closing_caption(list[slot]) && forall|i: int|
                0 <= i < list.len() ==> !is_bar(#[trigger] list[i])
            &&& progress != FULL ==> is_bar(list[slot]) && forall|i: int|
                0 <= i < list.len() ==> !is_closing_caption(#[trigger] list[i])
        }),
{
    let list = frame(sprites, progress, width, height, color);
    let closing = foreground(progress, width, height, color);
    let n = sprites.len() as int;
    assert(list.len() == n + 5);
    assert forall|i: int| 0 <= i < list.len() && i != n + 3 implies !is_bar(#[trigger] list[i])
        && !is_closing_caption(list[i]) by {
        if i == 0 {
            assert(list[i] == backdrop());
        } else if i <= n {
            assert(list[i] == picture(sprites[i - 1]));
        } else {
            assert(list[i] == closing[i - n - 1]);
        }
    }
    assert(list[n + 3] == closing[2]);
}

} // verus!
