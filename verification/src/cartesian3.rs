//! The state of the spatial-plotter scene: its input lines and the
//! pending scene switch. Parsing an input line into a spatial object is
//! the work of the object patterns.

use vstd::prelude::*;
use crate::object3::Object3D;
use crate::object3::spec_parse_object;
use crate::object3::parse_object;

verus! {

/// The spatial plotter's state. `switch` carries a pending scene-switch
/// request code; zero asks for nothing.
pub struct Cartesian3D {
    pub inputs: Vec<String>,
    pub switch: u8,
}

impl Cartesian3D {
    /// Appends an empty input line, as the editor's add button does.
    pub fn add_input(&mut self)
        ensures
            final(self).inputs@.len() == old(self).inputs@.len() + 1,
            final(self).inputs@[old(self).inputs@.len() as int]@ == Seq::<char>::empty(),
            final(self).inputs@.subrange(0, old(self).inputs@.len() as int) == old(self).inputs@,
            final(self).switch == old(self).switch,
    {
        self.inputs.push(String::new());
        assert(final(self).inputs@.subrange(0, old(self).inputs@.len() as int) =~= old(
            self,
        ).inputs@);
    }

    /// Removes the input line at `i`.
    pub fn remove_input(&mut self, i: usize)
        requires
            i < old(self).inputs@.len(),
        ensures
            final(self).inputs@ == old(self).inputs@.remove(i as int),
            final(self).switch == old(self).switch,
    {
        self.inputs.remove(i);
    }

    /// Parses one input line into a spatial object: a point, a line or
    /// a plane, with coordinates kept as literal texts.
    pub fn parse_object(&self, input: &str) -> (r: Option<Object3D>)
        ensures
            (match r {
                Some(o) => spec_parse_object(input@) == Some(o@),
                None => spec_parse_object(input@) is None,
            }),
    {
        parse_object(input)
    }
}

impl Default for Cartesian3D {
    /// The spatial plotter starts with no input lines. Its pending
    /// switch code starts at two, which the scene dispatcher ignores,
    /// so no switch fires.
    fn default() -> (r: Cartesian3D)
        ensures
            r.inputs@.len() == 0,
            r.switch == 2,
    {
        Cartesian3D { inputs: Vec::new(), switch: 2 }
    }
}

} // verus!
