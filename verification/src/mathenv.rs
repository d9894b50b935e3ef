//! A store of named points and named variables. Values are carried as
//! the bit patterns of IEEE 754 doubles, handed in and out by the
//! caller; lookups find the first entry bearing a name, and updates
//! touch only that entry.

use vstd::prelude::*;
use crate::text::str_eq;

verus! {

/// Named values: points with two coordinates and variables with one
/// value, both keyed by name, kept in insertion order.
pub struct MathEnvironment {
    pub points: Vec<(String, u64, u64)>,
    pub variables: Vec<(String, u64)>,
}

/// The value of the first variable entry bearing `name`, scanning in
/// insertion order.
pub open spec fn spec_lookup_variable(vars: Seq<(String, u64)>, name: Seq<char>) -> Option<u64>
    decreases vars.len(),
{
    if vars.len() == 0 {
        None
    } else if vars[0].0@ == name {
        Some(vars[0].1)
    } else {
        spec_lookup_variable(vars.drop_first(), name)
    }
}

/// The coordinates of the first point entry bearing `name`, scanning in
/// insertion order.
pub open spec fn spec_lookup_point(points: Seq<(String, u64, u64)>, name: Seq<char>) -> Option<
    (u64, u64),
>
    decreases points.len(),
{
    if points.len() == 0 {
        None
    } else if points[0].0@ == name {
        Some((points[0].1, points[0].2))
    } else {
        spec_lookup_point(points.drop_first(), name)
    }
}

/// The index of the first point entry bearing `name`, or the length
/// where there is none.
pub open spec fn spec_point_index(points: Seq<(String, u64, u64)>, name: Seq<char>) -> int
    decreases points.len(),
{
    if points.len() == 0 {
        0
    } else if points[0].0@ == name {
        0
    } else {
        1 + spec_point_index(points.drop_first(), name)
    }
}

impl MathEnvironment {
    /// An empty store: no points and no variables.
    pub fn new() -> (r: MathEnvironment)
        ensures
            r.points@.len() == 0,
            r.variables@.len() == 0,
    {
        MathEnvironment { points: Vec::new(), variables: Vec::new() }
    }

    /// Appends a point entry; every earlier entry stays as it was.
    pub fn add_point(&mut self, name: &str, x: u64, y: u64)
        ensures
            final(self).points@.len() == old(self).points@.len() + 1,
            final(self).points@[old(self).points@.len() as int].0@ == name@,
            final(self).points@[old(self).points@.len() as int].1 == x,
            final(self).points@[old(self).points@.len() as int].2 == y,
            final(self).points@.subrange(0, old(self).points@.len() as int) == old(self).points@,
            final(self).variables == old(self).variables,
    {
        let owned: String = name.to_owned();
        self.points.push((owned, x, y));
        assert(final(self).points@.subrange(0, old(self).points@.len() as int) =~= old(
            self,
        ).points@);
    }

    /// Appends a variable entry; every earlier entry stays as it was.
    pub fn add_variable(&mut self, name: &str, value: u64)
        ensures
            final(self).variables@.len() == old(self).variables@.len() + 1,
            final(self).variables@[old(self).variables@.len() as int].0@ == name@,
            final(self).variables@[old(self).variables@.len() as int].1 == value,
            final(self).variables@.subrange(0, old(self).variables@.len() as int) == old(
                self,
            ).variables@,
            final(self).points == old(self).points,
    {
        let owned: String = name.to_owned();
        self.variables.push((owned, value));
        assert(final(self).variables@.subrange(0, old(self).variables@.len() as int) =~= old(
            self,
        ).variables@);
    }

    /// The value of the first variable bearing `name`, or nothing.
    pub fn get_value(&self, name: &str) -> (r: Option<u64>)
        ensures
            r == spec_lookup_variable(self.variables@, name@),
    {
        let mut i: usize = 0;
        assert(self.variables@.skip(0) =~= self.variables@);
        while i < self.variables.len()
            invariant
                i <= self.variables@.len(),
                spec_lookup_variable(self.variables@, name@) == spec_lookup_variable(
                    self.variables@.skip(i as int),
                    name@,
                ),
            decreases self.variables@.len() - i,
        {
            let entry = &self.variables[i];
            proof {
                assert(self.variables@.skip(i as int)[0] == self.variables@[i as int]);
                assert(self.variables@.skip(i as int).drop_first() =~= self.variables@.skip(
                    i + 1,
                ));
            }
            if str_eq(entry.0.as_str(), name) {
                return Some(entry.1);
            }
            i = i + 1;
        }
        None
    }

    /// The coordinates of the first point bearing `name`, or nothing.
    pub fn get_point(&self, name: &str) -> (r: Option<(u64, u64)>)
        ensures
            r == spec_lookup_point(self.points@, name@),
    {
        let mut i: usize = 0;
        assert(self.points@.skip(0) =~= self.points@);
        while i < self.points.len()
            invariant
                i <= self.points@.len(),
                spec_lookup_point(self.points@, name@) == spec_lookup_point(
                    self.points@.skip(i as int),
                    name@,
                ),
            decreases self.points@.len() - i,
        {
            let entry = &self.points[i];
            proof {
                assert(self.points@.skip(i as int)[0] == self.points@[i as int]);
                assert(self.points@.skip(i as int).drop_first() =~= self.points@.skip(i + 1));
            }
            if str_eq(entry.0.as_str(), name) {
                return Some((entry.1, entry.2));
            }
            i = i + 1;
        }
        None
    }

    /// Moves the first point bearing `name` to the given coordinates;
    /// a store without such a point stays as it was. The entry keeps its
    /// name and its position, and every other entry stays untouched.
    pub fn update_point(&mut self, name: &str, x: u64, y: u64)
        ensures
            final(self).variables == old(self).variables,
            ({
                let i = spec_point_index(old(self).points@, name@);
                if i < old(self).points@.len() {
                    final(self).points@ == old(self).points@.update(
                        i,
                        (old(self).points@[i].0, x, y),
                    )
                } else {
                    final(self).points == old(self).points
                }
            }),
    {
        let mut i: usize = 0;
        assert(self.points@.skip(0) =~= self.points@);
        while i < self.points.len()
            invariant
                i <= self.points@.len(),
                *self == *old(self),
                spec_point_index(self.points@, name@) == i + spec_point_index(
                    self.points@.skip(i as int),
                    name@,
                ),
            decreases self.points@.len() - i,
        {
            proof {
                assert(self.points@.skip(i as int)[0] == self.points@[i as int]);
                assert(self.points@.skip(i as int).drop_first() =~= self.points@.skip(i + 1));
            }
            let found = str_eq(self.points[i].0.as_str(), name);
            if found {
                let nm = self.points[i].0.clone();
                self.points.set(i, (nm, x, y));
                return ;
            }
            i = i + 1;
        }
    }
}

} // verus!
