//! The scene description: a declarative list of placed objects, each a
//! static platform or a dynamic polygonal shape.
//!
//! Construction-time validation rejects invalid object parameters (fewer
//! than three sides, a non-positive radius or size) before any geometry is
//! generated.

use crate::fixed::{MAX_COORD, MAX_SIDES};
use crate::mesh::Vec2;
use vstd::prelude::*;

verus! {

/// The closed color choice for dynamic shapes.
#[derive(Clone, Copy, PartialEq, Eq, Structural, Debug)]
pub enum ShapeColor {
    Red,
    Green,
    Blue,
}

/// What a placed object is: a static platform of a given size, or a
/// dynamic regular polygon of a given color, side count and radius.
#[derive(Clone, Copy, PartialEq, Eq, Structural, Debug)]
pub enum ObjectKind {
    Platform { size: Vec2 },
    Shape { color: ShapeColor, sides: usize, radius: i64 },
}

/// One placed object: a position and a kind.
#[derive(Clone, Copy, PartialEq, Eq, Structural, Debug)]
pub struct Object {
    pub position: Vec2,
    pub kind: ObjectKind,
}

/// A level: the placed objects, in spawn order.
#[derive(Clone, Debug)]
pub struct Level {
    pub objects: Vec<Object>,
}

impl ObjectKind {
    /// A platform needs a positive size in both directions; a shape needs
    /// at least three sides and a positive radius.  The upper bounds keep
    /// the object within the coordinate range the pipeline admits.
    pub open spec fn wf(self) -> bool {
        match self {
            ObjectKind::Platform { size } => 0 < size.x <= MAX_COORD && 0 < size.y <= MAX_COORD,
            ObjectKind::Shape { color, sides, radius } => 3 <= sides <= MAX_SIDES && 0 < radius
                <= MAX_COORD,
        }
    }

    /// Checks the parameter rules for this kind of object.
    pub fn validate(&self) -> (ok: bool)
        ensures
            ok == self.wf(),
    {
        match self {
            ObjectKind::Platform { size } => 0 < size.x && size.x <= MAX_COORD && 0 < size.y
                && size.y <= MAX_COORD,
            ObjectKind::Shape { color: _, sides, radius } => 3 <= *sides && *sides <= MAX_SIDES
                && 0 < *radius && *radius <= MAX_COORD,
        }
    }
}

impl Object {
    /// The position must lie within the admitted coordinate range, and the
    /// kind must satisfy its parameter rules.
    pub open spec fn wf(self) -> bool {
        -MAX_COORD <= self.position.x <= MAX_COORD && -MAX_COORD <= self.position.y <= MAX_COORD
            && self.kind.wf()
    }

    /// Checks the placement and parameter rules for this object.
    pub fn validate(&self) -> (ok: bool)
        ensures
            ok == self.wf(),
    {
        -MAX_COORD <= self.position.x && self.position.x <= MAX_COORD && -MAX_COORD
            <= self.position.y && self.position.y <= MAX_COORD && self.kind.validate()
    }

    /// Where the object is placed.
    pub fn position(&self) -> (p: Vec2)
        ensures
            p == self.position,
    {
        self.position
    }

    /// What the object is.
    pub fn kind(&self) -> (k: ObjectKind)
        ensures
            k == self.kind,
    {
        self.kind
    }
}

impl Level {
    /// Every object of the level is well formed.
    pub open spec fn wf(self) -> bool {
        forall|i: int| 0 <= i < self.objects@.len() ==> self.objects@[i].wf()
    }

    /// The placed objects, in spawn order.
    pub fn objects(&self) -> (objects: &Vec<Object>)
        ensures
            objects == &self.objects,
    {
        &self.objects
    }

    /// Checks every object of the level; a level passes exactly when each
    /// of its objects does.
    pub fn validate(&self) -> (ok: bool)
        ensures
            ok == self.wf(),
    {
        let mut i: usize = 0;
        while i < self.objects.len()
            invariant
                i <= self.objects@.len(),
                forall|k: int| 0 <= k < i ==> self.objects@[k].wf(),
            decreases self.objects@.len() - i,
        {
            if !self.objects[i].validate() {
                return false;
            }
            i = i + 1;
        }
        true
    }
}

} // verus!
