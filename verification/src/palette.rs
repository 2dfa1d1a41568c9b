//! Colors, and the palette the headline's color is drawn from.

use crate::random::choose_color;
use vstd::prelude::*;

verus! {

/// A color by name, or by its `0xRRGGBBAA` value.
#[derive(Clone, Copy, Debug, PartialEq, Eq)]
pub enum Color {
    Transparent,
    White,
    Orange,
    Red,
    Yellow,
    Green,
    Purple,
    Blue,
    Pink,
    Rgba(u32),
}

/// The colors of the standard palette, in order.
pub open spec fn standard_colors() -> Seq<Color> {
    seq![
        Color::Orange,
        Color::Red,
        Color::Yellow,
        Color::Green,
        Color::Purple,
        Color::Blue,
        Color::Pink,
    ]
}

/// A fixed, ordered, non-empty list of colors.
#[derive(Debug, PartialEq, Eq)]
pub struct Palette {
    colors: Vec<Color>,
}

impl View for Palette {
    type V = Seq<Color>;

    closed spec fn view(&self) -> Seq<Color> {
        self.colors@
    }
}

impl Palette {
    /// A palette is never empty.
    #[verifier::type_invariant]
    pub open spec fn inv(self) -> bool {
        self@.len() > 0
    }

    /// The palette of the overlay: orange, red, yellow, green, purple, blue
    /// and pink.
    pub fn standard() -> (palette: Palette)
        ensures
            palette@ == standard_colors(),
    {
        let mut colors: Vec<Color> = Vec::new();
        colors.push(Color::Orange);
        colors.push(Color::Red);
        colors.push(Color::Yellow);
        colors.push(Color::Green);
        colors.push(Color::Purple);
        colors.push(Color::Blue);
        colors.push(Color::Pink);
        assert(colors@ =~= standard_colors());
        Palette { colors }
    }

    /// A palette of the given colors, unless there are none.
    pub fn from_colors(colors: Vec<Color>) -> (palette: Option<Palette>)
        ensures
            palette is Some <==> colors@.len() > 0,
            palette is Some ==> palette->0@ == colors@,
    {
        if colors.len() == 0 {
            None
        } else {
            Some(Palette { colors })
        }
    }

    /// How many colors the palette holds; never zero.
    pub fn len(&self) -> (n: usize)
        ensures
            n == self@.len(),
            n > 0,
    {
        proof {
            use_type_invariant(self);
        }
        self.colors.len()
    }

    /// The color at position `index`, if there is one.
    pub fn get(&self, index: usize) -> (color: Option<Color>)
        ensures
            color == if index < self@.len() {
                Some(self@[index as int])
            } else {
                None
            },
    {
        if index < self.colors.len() {
            Some(self.colors[index])
        } else {
            None
        }
    }

    /// Draws one color of the palette at random. Each call draws afresh, so
    /// two calls may differ; all that is known is that the color is one of
    /// the palette's.
    pub fn pick(&self) -> (color: Color)
        ensures
            self@.contains(color),
    {
        proof {
            use_type_invariant(self);
        }
        match choose_color(&self.colors) {
            Some(color) => color,
            None => self.colors[0],
        }
    }
}

} // verus!
