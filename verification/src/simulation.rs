//! Frame orchestrator: the state of the whole overlay and its two per-frame
//! operations, the update of a tick and the drawing of a frame.
//!
//! A tick first asks the input watcher whether to stop. If not, it issues
//! the window presentation command, advances the gauge, and moves the
//! sprites. The embedding program carries out what the tick's outcome asks
//! for: it ends the process, or applies the command to the window.

use crate::input::{poll_exit, InputSnapshot, TickSignal, EXIT_CODE};
use crate::motion::{
    advance, in_band, lemma_band_is_kept, step, step_all, step_n, views, ImageId, Sprite,
    SpriteView, SPRITE_SIZE,
};
use crate::palette::{standard_colors, Color, Palette};
use crate::presentation::{
    enforce, lemma_overlay_attributes, overlay_flags, overlay_presentation, overlay_startup,
    PresentationCommand,
};
use crate::progress::{advanced, draw_increment, ProgressState, DRAW_SPAN, FULL, SEED};
use crate::render::{command_views, frame, render, DrawCommand};
use vstd::prelude::*;

verus! {

/// The largest coordinate a sprite of the overlay can ever stand at: from
/// no higher can a tick lead beyond the `i32` range, whatever the viewport.
pub const POSITION_CEILING: i32 = 2_147_483_449;

/// What a tick asks the embedding program to do.
#[derive(Clone, Copy, Debug, PartialEq, Eq)]
pub enum TickOutcome {
    /// Apply `presentation` to the window and go on to draw the frame.
    Continue { presentation: PresentationCommand },
    /// End the process with `exit_code`, before anything else happens.
    Terminate { exit_code: i32 },
}

/// Everything the overlay keeps between frames.
#[derive(Debug, PartialEq, Eq)]
pub struct SimulationState {
    sprites: Vec<Sprite>,
    palette: Palette,
    progress: ProgressState,
}

/// The state over mathematical values.
pub struct SimulationView {
    pub sprites: Seq<SpriteView>,
    pub palette: Seq<Color>,
    pub progress: nat,
}

impl SimulationView {
    /// Every sprite is [`settled`], the palette is not empty, and the gauge
    /// is at most full.
    pub open spec fn wf(self) -> bool {
        &&& forall|i: int| 0 <= i < self.sprites.len() ==> settled(#[trigger] self.sprites[i])
        &&& self.palette.len() > 0
        &&& self.progress <= FULL
    }
}

/// The sprite has velocities of the one allowed magnitude and stands no
/// higher than [`POSITION_CEILING`] on either axis.
pub open spec fn settled(sprite: SpriteView) -> bool {
    &&& sprite.wf()
    &&& i32::MIN <= sprite.x <= POSITION_CEILING
    &&& i32::MIN <= sprite.y <= POSITION_CEILING
}

/// The five sprites the overlay starts with.
pub open spec fn initial_sprites() -> Seq<SpriteView> {
    seq![
        SpriteView { x: 200, y: 300, vx: 2, vy: -2, image: ImageId::Kekw },
        SpriteView { x: 50, y: 200, vx: -2, vy: 2, image: ImageId::Kekw },
        SpriteView { x: 500, y: 600, vx: 2, vy: 2, image: ImageId::Troll },
        SpriteView { x: 700, y: 50, vx: -2, vy: 2, image: ImageId::Rage },
        SpriteView { x: 400, y: 650, vx: -2, vy: -2, image: ImageId::Rage },
    ]
}

/// The state the overlay starts in.
pub open spec fn initial_view() -> SimulationView {
    SimulationView {
        sprites: initial_sprites(),
        palette: standard_colors(),
        progress: SEED as nat,
    }
}

/// What a tick with the given input asks for. The input decides alone:
/// termination with [`EXIT_CODE`] if the exit key was pressed, and the one
/// fixed presentation command otherwise.
pub open spec fn outcome_of(input: InputSnapshot) -> TickOutcome {
    if input.space_pressed {
        TickOutcome::Terminate { exit_code: EXIT_CODE }
    } else {
        TickOutcome::Continue { presentation: overlay_presentation() }
    }
}

/// The state after a tick that was not stopped, in a viewport of the given
/// size and with the given increment of the gauge.
pub open spec fn ticked(
    state: SimulationView,
    width: int,
    height: int,
    increment: nat,
) -> SimulationView {
    SimulationView {
        sprites: step_all(state.sprites, width, height, SPRITE_SIZE as int),
        palette: state.palette,
        progress: advanced(state.progress, increment),
    }
}

/// The state after a tick with the given input: untouched if the exit key
/// was pressed, [`ticked`] otherwise.
pub open spec fn updated(
    state: SimulationView,
    input: InputSnapshot,
    width: int,
    height: int,
    increment: nat,
) -> SimulationView {
    if input.space_pressed {
        state
    } else {
        ticked(state, width, height, increment)
    }
}

/// Every sprite of the list is settled.
spec fn all_settled(sprites: Seq<Sprite>) -> bool {
    forall|i: int| 0 <= i < sprites.len() ==> settled(#[trigger] sprites[i]@)
}

/// Moves settled sprites by one tick; they are settled again afterwards.
fn advance_settled(sprites: &mut Vec<Sprite>, viewport_width: i32, viewport_height: i32)
    requires
        all_settled(old(sprites)@),
    ensures
        all_settled(final(sprites)@),
        views(final(sprites)@) == step_all(
            views(old(sprites)@),
            viewport_width as int,
            viewport_height as int,
            SPRITE_SIZE as int,
        ),
{
    let ghost before = sprites@;
    proof {
        assert forall|i: int| 0 <= i < before.len() implies settled(
            step(
                #[trigger] before[i]@,
                viewport_width as int,
                viewport_height as int,
                SPRITE_SIZE as int,
            ),
        ) by {
            lemma_settled_is_kept(before[i]@, viewport_width as int, viewport_height as int);
        }
    }
    advance(sprites, viewport_width, viewport_height, SPRITE_SIZE);
    proof {
        let after = sprites@;
        let moved = step_all(
            views(before),
            viewport_width as int,
            viewport_height as int,
            SPRITE_SIZE as int,
        );
        assert(views(after).len() == moved.len());
        assert forall|i: int| 0 <= i < after.len() implies settled(#[trigger] after[i]@) by {
            assert(views(after)[i] == moved[i]);
            assert(views(before)[i] == before[i]@);
        }
    }
}

/// A tick leaves a settled sprite settled, in a viewport of any size that an
/// `i32` can hold: past an edge the sprite turns back, and inside the edges
/// it stands at least the sprite's side below the top of the `i32` range.
pub proof fn lemma_settled_is_kept(sprite: SpriteView, width: int, height: int)
    requires
        settled(sprite),
        width <= i32::MAX,
        height <= i32::MAX,
    ensures
        settled(step(sprite, width, height, SPRITE_SIZE as int)),
{
}

/// A state stays well formed from tick to tick, whatever the input, the
/// viewport and the increment.
pub proof fn lemma_wf_is_kept(
    state: SimulationView,
    input: InputSnapshot,
    width: int,
    height: int,
    increment: nat,
)
    requires
        state.wf(),
        width <= i32::MAX,
        height <= i32::MAX,
    ensures
        updated(state, input, width, height, increment).wf(),
{
    let after = updated(state, input, width, height, increment);
    assert forall|i: int| 0 <= i < after.sprites.len() implies settled(
        #[trigger] after.sprites[i],
    ) by {
        if !input.space_pressed {
            lemma_settled_is_kept(state.sprites[i], width, height);
        }
    }
}

/// In the window it starts with, the overlay's own sprites never stray more
/// than one step beyond an edge: after any number of ticks each of them is
/// inside the band.
pub proof fn lemma_overlay_sprites_stay_in_band(i: int, n: nat)
    requires
        0 <= i < initial_sprites().len(),
    ensures
        in_band(
            step_n(
                initial_sprites()[i],
                overlay_startup().width as int,
                overlay_startup().height as int,
                SPRITE_SIZE as int,
                n,
            ),
            overlay_startup().width as int,
            overlay_startup().height as int,
            SPRITE_SIZE as int,
        ),
{
    if n > 0 {
        lemma_band_is_kept(initial_sprites()[i], 1500, 1000, SPRITE_SIZE as int, n);
    }
}

/// The presentation is the same on every tick: any two ticks that go on
/// issue equal commands, and the command holds the overlay's flags, which
/// are borderless, and the position `(0, 0)`.
pub proof fn lemma_presentation_is_fixed(first: InputSnapshot, second: InputSnapshot)
    requires
        !first.space_pressed,
        !second.space_pressed,
    ensures
        outcome_of(first) == outcome_of(second),
        outcome_of(first) matches TickOutcome::Continue { presentation }
            && presentation.position == (0i32, 0i32) && presentation.flags == overlay_flags()
            && presentation.flags.borderless(),
{
    lemma_overlay_attributes();
}

/// The exit key ends the run at once: the tick asks for termination with
/// status `0` and the state is what it was before the tick.
pub proof fn lemma_exit_stops_the_tick(
    state: SimulationView,
    input: InputSnapshot,
    width: int,
    height: int,
    increment: nat,
)
    requires
        input.space_pressed,
    ensures
        outcome_of(input) == (TickOutcome::Terminate { exit_code: 0 }),
        updated(state, input, width, height, increment) == state,
{
}

impl View for SimulationState {
    type V = SimulationView;

    closed spec fn view(&self) -> SimulationView {
        SimulationView {
            sprites: views(self.sprites@),
            palette: self.palette@,
            progress: self.progress@,
        }
    }
}

impl SimulationState {
    #[verifier::type_invariant]
    spec fn inv(self) -> bool {
        all_settled(self.sprites@)
    }

    /// The state the overlay starts in: five sprites, the standard palette,
    /// and a gauge at its seed.
    pub fn init() -> (state: SimulationState)
        ensures
            state@ == initial_view(),
            state@.wf(),
    {
        let mut sprites: Vec<Sprite> = Vec::new();
        sprites.push(Sprite { position: (200, 300), velocity: (2, -2), image: ImageId::Kekw });
        sprites.push(Sprite { position: (50, 200), velocity: (-2, 2), image: ImageId::Kekw });
        sprites.push(Sprite { position: (500, 600), velocity: (2, 2), image: ImageId::Troll });
        sprites.push(Sprite { position: (700, 50), velocity: (-2, 2), image: ImageId::Rage });
        sprites.push(Sprite { position: (400, 650), velocity: (-2, -2), image: ImageId::Rage });
        assert(views(sprites@) =~= initial_sprites());
        let palette = Palette::standard();
        let progress = ProgressState::seeded();
        assert(standard_colors().len() == 7);
        SimulationState { sprites, palette, progress }
    }

    /// The sprites, in drawing order.
    pub fn sprites(&self) -> (sprites: &Vec<Sprite>)
        ensures
            views(sprites@) == self@.sprites,
    {
        &self.sprites
    }

    /// The palette of the headline.
    pub fn palette(&self) -> (palette: &Palette)
        ensures
            palette@ == self@.palette,
    {
        &self.palette
    }

    /// The progress gauge.
    pub fn progress(&self) -> (progress: &ProgressState)
        ensures
            progress@ == self@.progress,
    {
        &self.progress
    }

    /// The part of a tick that follows the input watcher's consent.
    fn proceed(&mut self, viewport_width: i32, viewport_height: i32, increment: u64) -> (outcome:
        TickOutcome)
        ensures
            outcome == (TickOutcome::Continue { presentation: overlay_presentation() }),
            final(self)@ == ticked(
                old(self)@,
                viewport_width as int,
                viewport_height as int,
                increment as nat,
            ),
            final(self)@.wf(),
    {
        proof {
            use_type_invariant(&*self);
            use_type_invariant(&self.palette);
        }
        let presentation = enforce();
        let mut progress = self.progress;
        progress.advance_by(increment);
        self.progress = progress;
        let mut sprites: Vec<Sprite> = Vec::new();
        core::mem::swap(&mut self.sprites, &mut sprites);
        advance_settled(&mut sprites, viewport_width, viewport_height);
        self.sprites = sprites;
        proof {
            assert forall|i: int| 0 <= i < self@.sprites.len() implies settled(
                #[trigger] self@.sprites[i],
            ) by {
                assert(self@.sprites[i] == self.sprites@[i]@);
            }
        }
        TickOutcome::Continue { presentation }
    }

    /// What is known of every state.
    fn wf_holds(&self)
        ensures
            self@.wf(),
    {
        proof {
            use_type_invariant(self);
            use_type_invariant(&self.palette);
            use_type_invariant(&self.progress);
            assert forall|i: int| 0 <= i < self@.sprites.len() implies settled(
                #[trigger] self@.sprites[i],
            ) by {
                assert(self@.sprites[i] == self.sprites@[i]@);
            }
        }
    }

    /// One tick with a given increment of the gauge.
    ///
    /// If the exit key was pressed the tick asks for termination with
    /// [`EXIT_CODE`] and leaves the state as it was. Otherwise it issues the
    /// fixed presentation command, adds `increment` to the gauge, and moves
    /// every sprite within a viewport of the given size.
    pub fn update_with(
        &mut self,
        input: &InputSnapshot,
        viewport_width: i32,
        viewport_height: i32,
        increment: u64,
    ) -> (outcome: TickOutcome)
        ensures
            outcome == outcome_of(*input),
            final(self)@ == updated(
                old(self)@,
                *input,
                viewport_width as int,
                viewport_height as int,
                increment as nat,
            ),
            final(self)@.wf(),
    {
        match poll_exit(input) {
            TickSignal::Terminate => {
                self.wf_holds();
                TickOutcome::Terminate { exit_code: EXIT_CODE }
            },
            TickSignal::Continue => self.proceed(viewport_width, viewport_height, increment),
        }
    }

    /// One tick: [`SimulationState::update_with`] with an increment drawn at
    /// random below [`DRAW_SPAN`].
    ///
    /// The exit key decides alone whether the tick stops, and a stopped tick
    /// changes nothing. If the tick goes on, the sprites move as the
    /// viewport dictates and only the gauge's increment is left to chance.
    pub fn update(
        &mut self,
        input: &InputSnapshot,
        viewport_width: i32,
        viewport_height: i32,
    ) -> (outcome: TickOutcome)
        ensures
            outcome == outcome_of(*input),
            exists|increment: nat|
                increment < DRAW_SPAN && final(self)@ == #[trigger] updated(
                    old(self)@,
                    *input,
                    viewport_width as int,
                    viewport_height as int,
                    increment,
                ),
            input.space_pressed ==> final(self)@ == old(self)@,
            final(self)@.wf(),
    {
        match poll_exit(input) {
            TickSignal::Terminate => {
                self.wf_holds();
                assert(self@ == updated(
                    old(self)@,
                    *input,
                    viewport_width as int,
                    viewport_height as int,
                    0,
                ));
                TickOutcome::Terminate { exit_code: EXIT_CODE }
            },
            TickSignal::Continue => {
                let increment = draw_increment();
                let outcome = self.proceed(viewport_width, viewport_height, increment);
                assert(self@ == updated(
                    old(self)@,
                    *input,
                    viewport_width as int,
                    viewport_height as int,
                    increment as nat,
                ));
                outcome
            },
        }
    }

    /// The display list of a frame of the given size, with the headline in
    /// `headline_color`. The state is only read.
    pub fn render(&self, frame_width: i32, frame_height: i32, headline_color: Color) -> (commands:
        Vec<DrawCommand>)
        ensures
            command_views(commands@) == frame(
                self@.sprites,
                self@.progress,
                frame_width as int,
                frame_height as int,
                headline_color,
            ),
    {
        render(&self.sprites, &self.progress, frame_width, frame_height, headline_color)
    }

    /// The display list of a frame of the given size, with the headline in
    /// a color picked afresh from the palette. Which color is left to
    /// chance; everything else of the frame is fixed by the state.
    pub fn draw(&self, frame_width: i32, frame_height: i32) -> (commands: Vec<DrawCommand>)
        ensures
            exists|color: Color|
                self@.palette.contains(color) && command_views(commands@) == #[trigger] frame(
                    self@.sprites,
                    self@.progress,
                    frame_width as int,
                    frame_height as int,
                    color,
                ),
    {
        let color = self.palette.pick();
        self.render(frame_width, frame_height, color)
    }
}

} // verus!
