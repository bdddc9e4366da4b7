use vstd::prelude::*;

verus! {

/// A direction in which the camera can move.
#[derive(Clone, Copy, Debug, PartialEq, Eq, Structural)]
pub enum Movement {
    Up,
    Down,
    Forward,
    Backward,
    Left,
    Right,
}

/// A vector of the camera's basis.
#[derive(Clone, Copy, Debug, PartialEq, Eq, Structural)]
pub enum Axis {
    /// The fixed world up vector (unit Y).
    WorldUp,
    /// The direction the camera looks in.
    Front,
    /// The camera's right vector.
    Right,
}

/// A displacement along one basis vector, with or against it.
#[derive(Clone, Copy, Debug, PartialEq, Eq, Structural)]
pub struct Step {
    pub axis: Axis,
    /// True when the camera moves against `axis`.
    pub negative: bool,
}

impl Movement {
    /// The basis vector along which this movement displaces the camera, and its sense.
    pub fn step(self) -> (r: Step)
        ensures
            r.axis == (match self {
                Movement::Up | Movement::Down => Axis::WorldUp,
                Movement::Forward | Movement::Backward => Axis::Front,
                Movement::Left | Movement::Right => Axis::Right,
            }),
            r.negative <==> (self == Movement::Down || self == Movement::Backward || self
                == Movement::Left),
    {
        match self {
            Movement::Up => Step { axis: Axis::WorldUp, negative: false },
            Movement::Down => Step { axis: Axis::WorldUp, negative: true },
            Movement::Forward => Step { axis: Axis::Front, negative: false },
            Movement::Backward => Step { axis: Axis::Front, negative: true },
            Movement::Left => Step { axis: Axis::Right, negative: true },
            Movement::Right => Step { axis: Axis::Right, negative: false },
        }
    }
}

} // verus!
