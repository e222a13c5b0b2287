use crate::color::{count_others, lemma_others_are_other, lemma_others_empty, others_of, select_other, Color};
use crate::geometry::{Point, Velocity};
use rand::Rng;
use vstd::prelude::*;

verus! {

/// The ball: a filled circle that moves at a constant velocity and takes its
/// color from a palette.
pub struct Ball {
    pub center: Point,
    pub radius: i64,
    pub velocity: Velocity,
    pub fill: Color,
    /// The colors that the ball cycles through.
    pub fill_colors: Vec<Color>,
}

/// Relies on rand's `rand::rng()` and `Rng::random_range`: on the non-empty
/// range `0..n` it returns a value of that range.
#[verifier::external_body]
fn random_index(n: usize) -> (r: usize)
    requires
        n > 0,
    ensures
        r < n,
{
    rand::rng().random_range(0..n)
}

impl Ball {
    /// The radius is positive and the fill is one of the palette's colors.
    pub open spec fn wf(self) -> bool {
        &&& self.radius > 0
        &&& self.fill_colors@.len() > 0
        &&& self.fill_colors@.contains(self.fill)
    }

    /// The palette's colors other than the current fill, in palette order.
    pub open spec fn other_colors(self) -> Seq<Color> {
        others_of(self.fill_colors@, self.fill)
    }

    /// The palette offers a color other than the current fill.
    pub open spec fn can_change_color(self) -> bool {
        self.other_colors().len() > 0
    }

    /// `self` and `other` agree on everything but the fill.
    pub open spec fn same_but_fill(self, other: Ball) -> bool {
        &&& self.center == other.center
        &&& self.radius == other.radius
        &&& self.velocity == other.velocity
        &&& self.fill_colors@ == other.fill_colors@
    }

    pub fn new(center: Point, radius: i64, fill: Color, velocity: Velocity, fill_colors: Vec<Color>) -> (b: Ball)
        requires
            radius > 0,
            fill_colors@.contains(fill),
        ensures
            b.wf(),
            b.center == center,
            b.radius == radius,
            b.fill == fill,
            b.velocity == velocity,
            b.fill_colors@ == fill_colors@,
    {
        Ball { center, radius, velocity, fill, fill_colors }
    }

    pub fn update_velocity(&mut self, dx: i64, dy: i64)
        ensures
            final(self).velocity == (Velocity { x: dx, y: dy }),
            final(self).center == old(self).center,
            final(self).radius == old(self).radius,
            final(self).fill == old(self).fill,
            final(self).fill_colors@ == old(self).fill_colors@,
    {
        self.velocity = Velocity { x: dx, y: dy };
    }

    /// How many colors of the palette differ from the current fill.
    pub fn other_color_count(&self) -> (n: usize)
        ensures
            n == self.other_colors().len(),
    {
        count_others(&self.fill_colors, self.fill)
    }

    /// Takes the color at position `draw` among the palette's colors other
    /// than the current fill; keeps the fill where there is none.
    pub fn next_color_from(&mut self, draw: usize)
        requires
            old(self).wf(),
            old(self).can_change_color() ==> draw < old(self).other_colors().len(),
        ensures
            final(self).wf(),
            final(self).same_but_fill(*old(self)),
            old(self).can_change_color() ==> final(self).fill == old(self).other_colors()[draw as int],
            !old(self).can_change_color() ==> final(self).fill == old(self).fill,
    {
        if self.other_color_count() > 0 {
            let c = select_other(&self.fill_colors, self.fill, draw);
            proof {
                lemma_others_are_other(self.fill_colors@, self.fill);
                assert(self.fill_colors@.contains(self.other_colors()[draw as int]));
            }
            self.fill = c;
        }
    }

    /// Switches the fill to a color of the palette drawn at random among those
    /// that differ from the current one. Where every color of the palette is
    /// the current one, the fill stays.
    pub fn next_color(&mut self)
        requires
            old(self).wf(),
        ensures
            final(self).wf(),
            final(self).same_but_fill(*old(self)),
            old(self).can_change_color() ==> final(self).fill != old(self).fill,
            old(self).can_change_color() ==> old(self).other_colors().contains(final(self).fill),
            !old(self).can_change_color() ==> final(self).fill == old(self).fill,
            old(self).can_change_color() == exists|i: int|
                0 <= i < old(self).fill_colors@.len() && old(self).fill_colors@[i] != old(self).fill,
    {
        proof {
            lemma_others_empty(self.fill_colors@, self.fill);
            lemma_others_are_other(self.fill_colors@, self.fill);
        }
        let n = self.other_color_count();
        if n > 0 {
            let draw = random_index(n);
            self.next_color_from(draw);
        }
    }
}

} // verus!
