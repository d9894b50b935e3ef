//! The state of the curve-editor scene that the library reasons about:
//! how many control points there are, which one is selected, which
//! decorations are on, and the pending scene switch. Control points come
//! in segment pairs on top of the initial three, so their count is
//! always odd and at least three.

use vstd::prelude::*;

verus! {

/// The curve editor's state. `switch` carries a pending scene-switch
/// request code; zero asks for nothing.
pub struct BezierCurve {
    pub n_points: usize,
    pub selected_point: Option<usize>,
    pub lines_on: bool,
    pub points_on: bool,
    pub switch: u8,
}

impl BezierCurve {
    /// The editor's invariant: three initial control points, plus two
    /// for each added segment.
    pub open spec fn well_formed(&self) -> bool {
        self.n_points >= 3 && self.n_points % 2 == 1
    }

    /// Adds one segment: two more control points.
    pub fn add_segment(&mut self)
        requires
            old(self).well_formed(),
            old(self).n_points + 2 <= usize::MAX,
        ensures
            final(self).well_formed(),
            final(self).n_points == old(self).n_points + 2,
            final(self).selected_point == old(self).selected_point,
            final(self).lines_on == old(self).lines_on,
            final(self).points_on == old(self).points_on,
            final(self).switch == old(self).switch,
    {
        self.n_points = self.n_points + 2;
    }

    /// Removes the last segment: two control points go, but never the
    /// initial three.
    pub fn remove_segment(&mut self)
        requires
            old(self).well_formed(),
        ensures
            final(self).well_formed(),
            final(self).n_points == if old(self).n_points >= 5 {
                old(self).n_points - 2
            } else {
                old(self).n_points as int
            },
            final(self).selected_point == old(self).selected_point,
            final(self).lines_on == old(self).lines_on,
            final(self).points_on == old(self).points_on,
            final(self).switch == old(self).switch,
    {
        if self.n_points - 2 >= 3 {
            self.n_points = self.n_points - 2;
        }
    }

    /// Flips whether the guide lines are drawn.
    pub fn toggle_lines(&mut self)
        ensures
            final(self).lines_on == !old(self).lines_on,
            final(self).n_points == old(self).n_points,
            final(self).selected_point == old(self).selected_point,
            final(self).points_on == old(self).points_on,
            final(self).switch == old(self).switch,
    {
        self.lines_on = !self.lines_on;
    }

    /// Flips whether the control points are drawn.
    pub fn toggle_points(&mut self)
        ensures
            final(self).points_on == !old(self).points_on,
            final(self).n_points == old(self).n_points,
            final(self).selected_point == old(self).selected_point,
            final(self).lines_on == old(self).lines_on,
            final(self).switch == old(self).switch,
    {
        self.points_on = !self.points_on;
    }
}

impl Default for BezierCurve {
    /// The editor starts with its three initial control points, both
    /// decorations on, nothing selected and no pending switch.
    fn default() -> (r: BezierCurve)
        ensures
            r.well_formed(),
            r.n_points == 3,
            r.selected_point is None,
            r.lines_on,
            r.points_on,
            r.switch == 0,
    {
        BezierCurve {
            n_points: 3,
            selected_point: None,
            lines_on: true,
            points_on: true,
            switch: 0,
        }
    }
}

} // verus!
