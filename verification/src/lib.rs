//! A small library for an interactive curve plotter: it classifies user
//! text lines into points, variables and function forms, substitutes
//! variable and point values into expression texts, and hands substituted
//! expressions to an outside numeric evaluator.
//!
//! Numeric values travel as decimal text throughout: a variable's value is
//! the literal text it was written with, and the outside evaluator takes
//! and returns decimal text.

use vstd::prelude::*;

pub mod bezier;
pub mod cartesian;
pub mod cartesian3;
pub mod classify;
pub mod eval;
pub mod laws;
pub mod mathenv;
pub mod numlit;
pub mod object3;
pub mod replace;
pub mod subst;
pub mod text;

verus! {

/// Whether a character is one of the ASCII whitespace characters that the
/// library's patterns skip over.
pub open spec fn spec_is_space(c: char) -> bool {
    c == ' ' || c == '\t' || c == '\r' || c == '\n'
}

/// Whether a character is an ASCII word character: a letter, a digit or an
/// underscore. Names of points and variables are made of these.
pub open spec fn spec_is_word_char(c: char) -> bool {
    ('a' <= c && c <= 'z') || ('A' <= c && c <= 'Z') || ('0' <= c && c <= '9') || c == '_'
}

/// Decides whether a character is ASCII whitespace.
pub fn is_space(c: char) -> (r: bool)
    ensures
        r == spec_is_space(c),
{
    c == ' ' || c == '\t' || c == '\r' || c == '\n'
}

/// Decides whether a character is an ASCII word character.
pub fn is_word_char(c: char) -> (r: bool)
    ensures
        r == spec_is_word_char(c),
{
    ('a' <= c && c <= 'z') || ('A' <= c && c <= 'Z') || ('0' <= c && c <= '9') || c == '_'
}

/// Which scene the application shows.
#[derive(Debug, Clone, Copy, PartialEq, Eq, Structural)]
pub enum Scene {
    Bezier,
    Cartesian,
    Cartesian3D,
}

/// The application: the three scenes' states and the one on show.
/// Each frame, at most one pending scene-switch request fires, in a
/// fixed priority order, and the request that fired is cleared.
pub struct App {
    pub bezier: bezier::BezierCurve,
    pub cartesian: cartesian::Cartesian,
    pub cartesian3: cartesian3::Cartesian3D,
    pub scene: Scene,
}

impl App {
    /// An application made of the given scene states, showing `scene`.
    pub fn new(
        bezier: bezier::BezierCurve,
        cartesian: cartesian::Cartesian,
        cartesian3: cartesian3::Cartesian3D,
        scene: Scene,
    ) -> (r: App)
        ensures
            r.bezier == bezier,
            r.cartesian == cartesian,
            r.cartesian3 == cartesian3,
            r.scene == scene,
    {
        App { bezier, cartesian, cartesian3, scene }
    }

    /// Handles at most one pending scene-switch request, in the fixed
    /// priority order: the plane plotter's requests first (code two to
    /// the spatial plotter, code three to the curve editor), then the
    /// curve editor's (one to the plane plotter, two to the spatial
    /// plotter), then the spatial plotter's (one to the plane plotter,
    /// three to the curve editor). The request that fired is cleared;
    /// everything else stays as it was.
    pub fn update(&mut self)
        ensures
            ({
                let pre = *old(self);
                let post = *final(self);
                let b = pre.bezier.switch;
                let c = pre.cartesian.switch;
                let d = pre.cartesian3.switch;
                if c == 2 {
                    post.scene == Scene::Cartesian3D && post.cartesian.switch == 0
                        && post.cartesian.inputs == pre.cartesian.inputs
                        && post.bezier == pre.bezier && post.cartesian3 == pre.cartesian3
                } else if c == 3 {
                    post.scene == Scene::Bezier && post.cartesian.switch == 0
                        && post.cartesian.inputs == pre.cartesian.inputs
                        && post.bezier == pre.bezier && post.cartesian3 == pre.cartesian3
                } else if b == 1 {
                    post.scene == Scene::Cartesian && post.bezier.switch == 0
                        && post.bezier.n_points == pre.bezier.n_points
                        && post.bezier.selected_point == pre.bezier.selected_point
                        && post.bezier.lines_on == pre.bezier.lines_on
                        && post.bezier.points_on == pre.bezier.points_on
                        && post.cartesian == pre.cartesian && post.cartesian3 == pre.cartesian3
                } else if b == 2 {
                    post.scene == Scene::Cartesian3D && post.bezier.switch == 0
                        && post.bezier.n_points == pre.bezier.n_points
                        && post.bezier.selected_point == pre.bezier.selected_point
                        && post.bezier.lines_on == pre.bezier.lines_on
                        && post.bezier.points_on == pre.bezier.points_on
                        && post.cartesian == pre.cartesian && post.cartesian3 == pre.cartesian3
                } else if d == 1 {
                    post.scene == Scene::Cartesian && post.cartesian3.switch == 0
                        && post.cartesian3.inputs == pre.cartesian3.inputs
                        && post.bezier == pre.bezier && post.cartesian == pre.cartesian
                } else if d == 3 {
                    post.scene == Scene::Bezier && post.cartesian3.switch == 0
                        && post.cartesian3.inputs == pre.cartesian3.inputs
                        && post.bezier == pre.bezier && post.cartesian == pre.cartesian
                } else {
                    post == pre
                }
            }),
    {
        if self.cartesian.switch == 2 {
            self.scene = Scene::Cartesian3D;
            self.cartesian.switch = 0;
        } else if self.cartesian.switch == 3 {
            self.scene = Scene::Bezier;
            self.cartesian.switch = 0;
        } else if self.bezier.switch == 1 {
            self.scene = Scene::Cartesian;
            self.bezier.switch = 0;
        } else if self.bezier.switch == 2 {
            self.scene = Scene::Cartesian3D;
            self.bezier.switch = 0;
        } else if self.cartesian3.switch == 1 {
            self.scene = Scene::Cartesian;
            self.cartesian3.switch = 0;
        } else if self.cartesian3.switch == 3 {
            self.scene = Scene::Bezier;
            self.cartesian3.switch = 0;
        }
    }
}

impl Default for App {
    /// The application starts on the plane plotter, with every scene in
    /// its starting state.
    fn default() -> (r: App)
        ensures
            r.scene == Scene::Cartesian,
            r.bezier.n_points == 3,
            r.bezier.switch == 0,
            r.cartesian.inputs@.len() == 0,
            r.cartesian.switch == 0,
            r.cartesian3.inputs@.len() == 0,
            r.cartesian3.switch == 2,
    {
        let bez = bezier::BezierCurve::default();
        let cart = cartesian::Cartesian::default();
        let cart3 = cartesian3::Cartesian3D::default();
        App::new(bez, cart, cart3, Scene::Cartesian)
    }
}

} // verus!
