//! Motion engine: sprites that bounce between the edges of a viewport.
//!
//! Each axis is treated on its own. A tick first looks at where the sprite
//! is, turns it around if it has crossed an edge, and then moves it by its
//! velocity. Because the test is made before the move, a sprite may stand up
//! to one step outside the edges for a single tick.

use vstd::prelude::*;

verus! {

/// Distance a sprite travels along each axis in one tick, in pixels.
pub const SPEED: i32 = 2;

/// The smallest coordinate at which a sprite counts as inside the viewport.
pub const LOW_EDGE: i32 = 1;

/// Side of the square every sprite of the overlay is drawn in, in pixels.
pub const SPRITE_SIZE: i32 = 200;

/// The picture a sprite shows. The decoded textures live with the embedding
/// program; the engine only carries this tag along.
#[derive(Clone, Copy, Debug, PartialEq, Eq)]
pub enum ImageId {
    Kekw,
    Troll,
    Rage,
}

/// A bouncing picture: top-left corner, velocity, and what it shows.
#[derive(Clone, Copy, Debug, PartialEq, Eq)]
pub struct Sprite {
    pub position: (i32, i32),
    pub velocity: (i32, i32),
    pub image: ImageId,
}

/// A sprite over the mathematical integers.
pub struct SpriteView {
    pub x: int,
    pub y: int,
    pub vx: int,
    pub vy: int,
    pub image: ImageId,
}

impl View for Sprite {
    type V = SpriteView;

    open spec fn view(&self) -> SpriteView {
        SpriteView {
            x: self.position.0 as int,
            y: self.position.1 as int,
            vx: self.velocity.0 as int,
            vy: self.velocity.1 as int,
            image: self.image,
        }
    }
}

/// Whether `v` is one of the two velocities a sprite may have on an axis.
pub open spec fn is_speed(v: int) -> bool {
    v == SPEED || v == -SPEED
}

impl SpriteView {
    /// Both velocity components have magnitude [`SPEED`].
    pub open spec fn wf(self) -> bool {
        is_speed(self.vx) && is_speed(self.vy)
    }

    /// Both coordinates and both velocity components fit the sprite's fields.
    pub open spec fn representable(self) -> bool {
        &&& i32::MIN <= self.x <= i32::MAX
        &&& i32::MIN <= self.y <= i32::MAX
        &&& i32::MIN <= self.vx <= i32::MAX
        &&& i32::MIN <= self.vy <= i32::MAX
    }
}

/// The largest coordinate at which a sprite of side `size` still lies inside
/// an axis of length `extent`.
pub open spec fn high_edge(extent: int, size: int) -> int {
    extent - size
}

/// The sprite has crossed the low or the high edge of the axis.
pub open spec fn beyond_edge(pos: int, extent: int, size: int) -> bool {
    pos < LOW_EDGE || pos > high_edge(extent, size)
}

/// Velocity on one axis after the edge test. Past the high edge the sprite
/// is sent back down, past the low edge back up; where both hold the low
/// edge decides.
pub open spec fn next_velocity(pos: int, vel: int, extent: int, size: int) -> int {
    if pos < LOW_EDGE {
        SPEED as int
    } else if pos > high_edge(extent, size) {
        -SPEED
    } else {
        vel
    }
}

/// Coordinate on one axis after the tick: the old one plus the velocity that
/// the edge test left.
pub open spec fn next_position(pos: int, vel: int, extent: int, size: int) -> int {
    pos + next_velocity(pos, vel, extent, size)
}

/// One tick of one sprite in a viewport of the given width and height.
pub open spec fn step(s: SpriteView, width: int, height: int, size: int) -> SpriteView {
    SpriteView {
        x: next_position(s.x, s.vx, width, size),
        y: next_position(s.y, s.vy, height, size),
        vx: next_velocity(s.x, s.vx, width, size),
        vy: next_velocity(s.y, s.vy, height, size),
        image: s.image,
    }
}

/// `n` ticks of one sprite in an unchanging viewport.
pub open spec fn step_n(s: SpriteView, width: int, height: int, size: int, n: nat) -> SpriteView
    decreases n,
{
    if n == 0 {
        s
    } else {
        step(step_n(s, width, height, size, (n - 1) as nat), width, height, size)
    }
}

/// One tick of every sprite, each on its own.
pub open spec fn step_all(sprites: Seq<SpriteView>, width: int, height: int, size: int) -> Seq<
    SpriteView,
> {
    Seq::new(sprites.len(), |i: int| step(sprites[i], width, height, size))
}

/// The views of a list of sprites, in order.
pub open spec fn views(sprites: Seq<Sprite>) -> Seq<SpriteView> {
    Seq::new(sprites.len(), |i: int| sprites[i]@)
}

/// The coordinate lies within one step of the edges: the band a bouncing
/// sprite never leaves.
pub open spec fn within_band(pos: int, extent: int, size: int) -> bool {
    -SPEED <= pos <= high_edge(extent, size) + SPEED
}

/// The coordinate lies within two steps of the edges: exactly the places
/// from which one tick leads into the band.
pub open spec fn within_reach(pos: int, extent: int, size: int) -> bool {
    -2 * SPEED <= pos <= high_edge(extent, size) + 2 * SPEED
}

/// The sprite is outside an edge and already heading back inside.
pub open spec fn heading_back(pos: int, vel: int, extent: int, size: int) -> bool {
    ||| pos < LOW_EDGE && vel == SPEED
    ||| pos >= LOW_EDGE && pos > high_edge(extent, size) && vel == -SPEED
}

/// The tick of `s` can be stored back into a [`Sprite`].
pub open spec fn steppable(s: SpriteView, width: int, height: int, size: int) -> bool {
    step(s, width, height, size).representable()
}

/// Both coordinates lie within the band of their axis.
pub open spec fn in_band(s: SpriteView, width: int, height: int, size: int) -> bool {
    within_band(s.x, width, size) && within_band(s.y, height, size)
}

/// Both coordinates lie within reach of the band of their axis.
pub open spec fn in_reach(s: SpriteView, width: int, height: int, size: int) -> bool {
    within_reach(s.x, width, size) && within_reach(s.y, height, size)
}

/// Velocity on one axis after the edge test.
fn turn(pos: i32, vel: i32, extent: i32, size: i32) -> (v: i32)
    ensures
        v == next_velocity(pos as int, vel as int, extent as int, size as int),
{
    let edge: i64 = extent as i64 - size as i64;
    if pos < LOW_EDGE {
        SPEED
    } else if pos as i64 > edge {
        -SPEED
    } else {
        vel
    }
}

/// Advances one sprite by one tick.
///
/// The moved coordinates must fit the sprite's fields; for a sprite with
/// velocities of magnitude [`SPEED`] they do unless the sprite stands at the
/// very top of the `i32` range and inside the viewport.
pub fn advance_sprite(
    sprite: &mut Sprite,
    viewport_width: i32,
    viewport_height: i32,
    sprite_size: i32,
)
    requires
        steppable(
            old(sprite)@,
            viewport_width as int,
            viewport_height as int,
            sprite_size as int,
        ),
    ensures
        final(sprite)@ == step(
            old(sprite)@,
            viewport_width as int,
            viewport_height as int,
            sprite_size as int,
        ),
        old(sprite)@.wf() ==> final(sprite)@.wf(),
{
    let vx = turn(sprite.position.0, sprite.velocity.0, viewport_width, sprite_size);
    let vy = turn(sprite.position.1, sprite.velocity.1, viewport_height, sprite_size);
    sprite.velocity = (vx, vy);
    sprite.position = (sprite.position.0 + vx, sprite.position.1 + vy);
}

/// Whether the moved coordinate of one axis fits an `i32`.
fn axis_fits(pos: i32, vel: i32, extent: i32, size: i32) -> (ok: bool)
    ensures
        ok == (i32::MIN <= next_position(pos as int, vel as int, extent as int, size as int)
            <= i32::MAX),
{
    let moved: i64 = pos as i64 + turn(pos, vel, extent, size) as i64;
    i32::MIN as i64 <= moved && moved <= i32::MAX as i64
}

/// Tells whether [`advance`] may be called on these sprites: whether every
/// moved coordinate fits the sprite's fields.
pub fn can_advance(
    sprites: &Vec<Sprite>,
    viewport_width: i32,
    viewport_height: i32,
    sprite_size: i32,
) -> (ok: bool)
    ensures
        ok == (forall|i: int|
            0 <= i < sprites.len() ==> steppable(
                #[trigger] sprites[i]@,
                viewport_width as int,
                viewport_height as int,
                sprite_size as int,
            )),
{
    let mut i: usize = 0;
    while i < sprites.len()
        invariant
            i <= sprites.len(),
            forall|j: int|
                0 <= j < i ==> steppable(
                    #[trigger] sprites[j]@,
                    viewport_width as int,
                    viewport_height as int,
                    sprite_size as int,
                ),
        decreases sprites.len() - i,
    {
        let s = sprites[i];
        let fits_x = axis_fits(s.position.0, s.velocity.0, viewport_width, sprite_size);
        let fits_y = axis_fits(s.position.1, s.velocity.1, viewport_height, sprite_size);
        if !(fits_x && fits_y) {
            assert(!steppable(
                sprites[i as int]@,
                viewport_width as int,
                viewport_height as int,
                sprite_size as int,
            ));
            return false;
        }
        i += 1;
    }
    true
}

/// Advances every sprite by one tick, in place and in list order: each
/// velocity component is turned around where its coordinate had crossed an
/// edge before the move, then each position is moved by the velocity.
///
/// The moved coordinates must fit the sprites' fields ([`can_advance`] tells).
pub fn advance(
    sprites: &mut Vec<Sprite>,
    viewport_width: i32,
    viewport_height: i32,
    sprite_size: i32,
)
    requires
        forall|i: int|
            0 <= i < old(sprites).len() ==> steppable(
                #[trigger] old(sprites)[i]@,
                viewport_width as int,
                viewport_height as int,
                sprite_size as int,
            ),
    ensures
        views(final(sprites)@) == step_all(
            views(old(sprites)@),
            viewport_width as int,
            viewport_height as int,
            sprite_size as int,
        ),
        forall|i: int|
            0 <= i < old(sprites).len() && (#[trigger] old(sprites)[i]@).wf()
                ==> final(sprites)[i]@.wf(),
        forall|i: int|
            0 <= i < old(sprites).len() && (#[trigger] old(sprites)[i]@).wf() && sprite_size
                <= viewport_width && sprite_size <= viewport_height ==> (in_band(
                final(sprites)[i]@,
                viewport_width as int,
                viewport_height as int,
                sprite_size as int,
            ) <==> in_reach(
                old(sprites)[i]@,
                viewport_width as int,
                viewport_height as int,
                sprite_size as int,
            )),
{
    let ghost before = sprites@;
    let mut i: usize = 0;
    while i < sprites.len()
        invariant
            i <= sprites.len(),
            sprites.len() == before.len(),
            forall|j: int|
                0 <= j < i ==> (#[trigger] sprites[j])@ == step(
                    before[j]@,
                    viewport_width as int,
                    viewport_height as int,
                    sprite_size as int,
                ),
            forall|j: int| i <= j < sprites.len() ==> #[trigger] sprites[j] == before[j],
            forall|j: int|
                0 <= j < before.len() ==> steppable(
                    #[trigger] before[j]@,
                    viewport_width as int,
                    viewport_height as int,
                    sprite_size as int,
                ),
        decreases sprites.len() - i,
    {
        let mut s = sprites[i];
        advance_sprite(&mut s, viewport_width, viewport_height, sprite_size);
        sprites.set(i, s);
        i += 1;
    }
    proof {
        assert(views(sprites@) =~= step_all(
            views(before),
            viewport_width as int,
            viewport_height as int,
            sprite_size as int,
        ));
        assert forall|j: int|
            0 <= j < before.len() && (#[trigger] before[j]@).wf() && sprite_size <= viewport_width
                && sprite_size <= viewport_height implies (in_band(
            sprites[j]@,
            viewport_width as int,
            viewport_height as int,
            sprite_size as int,
        ) <==> in_reach(
            before[j]@,
            viewport_width as int,
            viewport_height as int,
            sprite_size as int,
        )) by {
            lemma_band_entered_from_reach(
                before[j]@,
                viewport_width as int,
                viewport_height as int,
                sprite_size as int,
            );
        }
    }
}

/// A tick leaves a velocity of magnitude [`SPEED`] at that magnitude.
pub proof fn lemma_speed_is_kept(pos: int, vel: int, extent: int, size: int)
    requires
        is_speed(vel),
    ensures
        is_speed(next_velocity(pos, vel, extent, size)),
{
}

/// On an axis at least as long as the sprite, one tick ends inside the band
/// exactly when it began within reach of it.
pub proof fn lemma_axis_enters_band(pos: int, vel: int, extent: int, size: int)
    requires
        is_speed(vel),
        size <= extent,
    ensures
        within_band(next_position(pos, vel, extent, size), extent, size) <==> within_reach(
            pos,
            extent,
            size,
        ),
{
}

/// In a viewport at least as large as the sprite, a sprite is inside the
/// band after a tick exactly when it was within reach of it before.
pub proof fn lemma_band_entered_from_reach(s: SpriteView, width: int, height: int, size: int)
    requires
        s.wf(),
        size <= width,
        size <= height,
    ensures
        in_band(step(s, width, height, size), width, height, size) <==> in_reach(
            s,
            width,
            height,
            size,
        ),
        step(s, width, height, size).wf(),
{
    lemma_axis_enters_band(s.x, s.vx, width, size);
    lemma_axis_enters_band(s.y, s.vy, height, size);
}

/// Bounded overshoot: in a viewport at least as large as the sprite, a
/// sprite that starts within reach of the band, and so any sprite that
/// starts inside it, is inside the band after every tick: it never strays
/// more than one step beyond an edge.
pub proof fn lemma_band_is_kept(s: SpriteView, width: int, height: int, size: int, n: nat)
    requires
        s.wf(),
        size <= width,
        size <= height,
        in_reach(s, width, height, size),
        n >= 1,
    ensures
        in_band(step_n(s, width, height, size, n), width, height, size),
        step_n(s, width, height, size, n).wf(),
    decreases n,
{
    let before = step_n(s, width, height, size, (n - 1) as nat);
    if n == 1 {
        assert(before == s);
    } else {
        lemma_band_is_kept(s, width, height, size, (n - 1) as nat);
    }
    lemma_band_entered_from_reach(before, width, height, size);
}

/// A velocity component changes only by turning around, and it turns around
/// exactly when its coordinate had crossed an edge before the move and the
/// sprite was not already heading back; in every other case it is kept. So
/// for a sprite that is not already heading back, the velocity turns around
/// exactly when an edge had been crossed.
pub proof fn lemma_velocity_turns(pos: int, vel: int, extent: int, size: int)
    requires
        is_speed(vel),
    ensures
        next_velocity(pos, vel, extent, size) == -vel <==> beyond_edge(pos, extent, size)
            && !heading_back(pos, vel, extent, size),
        next_velocity(pos, vel, extent, size) == vel <==> !beyond_edge(pos, extent, size)
            || heading_back(pos, vel, extent, size),
        !heading_back(pos, vel, extent, size) ==> (next_velocity(pos, vel, extent, size) == -vel
            <==> beyond_edge(pos, extent, size)),
        !beyond_edge(pos, extent, size) ==> next_velocity(pos, vel, extent, size) == vel,
{
}

} // verus!
