//! The brush: a shape, an effect, and the place where it is applied.

use crate::scalar::{Scalar, HALF, ONE, QUARTER, ZERO};
use vstd::prelude::*;

verus! {

/// Number of entries that each of the two dropdown lists offers.
pub const OPTION_COUNT: usize = 2;

/// A point in space.
#[derive(Clone, Copy, Debug, PartialEq, Eq, Structural)]
pub struct Vector3 {
    pub x: Scalar,
    pub y: Scalar,
    pub z: Scalar,
}

/// Shape of the brush, with the measures that belong to the shape.
#[derive(Clone, Copy, Debug, PartialEq, Eq, Structural)]
pub enum BrushKind {
    Circle { radius: Scalar },
    Rectangle { width: Scalar, length: Scalar },
}

/// What the brush does to the terrain under it.
#[derive(Clone, Copy, Debug, PartialEq, Eq, Structural)]
pub enum BrushMode {
    /// Raises or lowers the height map by `amount`.
    ModifyHeightMap { amount: Scalar },
    /// Paints `alpha` onto the mask of `layer`.
    DrawOnMask { layer: u32, alpha: Scalar },
}

/// The brush as the terrain tool reads it.
#[derive(Clone, Copy, Debug, PartialEq, Eq, Structural)]
pub struct Brush {
    /// Where the brush is applied. The panel carries it and never writes it.
    pub center: Vector3,
    pub kind: BrushKind,
    pub mode: BrushMode,
}

impl Vector3 {
    /// The point whose three coordinates are `0.0`.
    pub open spec fn spec_origin() -> Vector3 {
        Vector3 { x: Scalar { bits: ZERO }, y: Scalar { bits: ZERO }, z: Scalar { bits: ZERO } }
    }

    /// The point whose three coordinates are `0.0`.
    #[verifier::when_used_as_spec(spec_origin)]
    pub fn origin() -> (p: Vector3)
        ensures
            p == Vector3::spec_origin(),
    {
        Vector3 { x: Scalar { bits: ZERO }, y: Scalar { bits: ZERO }, z: Scalar { bits: ZERO } }
    }
}

impl BrushKind {
    /// The shape that an entry of the shape dropdown stands for, with the
    /// measures a freshly chosen shape starts from: a circle of radius `1.0`
    /// for entry 0, a rectangle of `0.5` by `0.5` for entry 1.
    pub open spec fn spec_from_selection(selection: usize) -> BrushKind
        recommends
            selection < OPTION_COUNT,
    {
        if selection == 0 {
            BrushKind::Circle { radius: Scalar { bits: ONE } }
        } else {
            BrushKind::Rectangle { width: Scalar { bits: HALF }, length: Scalar { bits: HALF } }
        }
    }

    /// The entry of the shape dropdown that stands for this shape.
    pub open spec fn spec_selection(&self) -> usize {
        match self {
            BrushKind::Circle { .. } => 0,
            BrushKind::Rectangle { .. } => 1,
        }
    }

    /// The shape that entry `selection` of the shape dropdown stands for.
    #[verifier::when_used_as_spec(spec_from_selection)]
    pub fn from_selection(selection: usize) -> (kind: BrushKind)
        requires
            selection < OPTION_COUNT,
        ensures
            kind == BrushKind::spec_from_selection(selection),
            kind.spec_selection() == selection,
    {
        if selection == 0 {
            BrushKind::Circle { radius: Scalar { bits: ONE } }
        } else {
            BrushKind::Rectangle { width: Scalar { bits: HALF }, length: Scalar { bits: HALF } }
        }
    }

    /// The entry of the shape dropdown that stands for this shape.
    #[verifier::when_used_as_spec(spec_selection)]
    pub fn selection(&self) -> (selection: usize)
        ensures
            selection == self.spec_selection(),
            selection < OPTION_COUNT,
    {
        match self {
            BrushKind::Circle { .. } => 0,
            BrushKind::Rectangle { .. } => 1,
        }
    }
}

impl BrushMode {
    /// The effect that an entry of the mode dropdown stands for, with the
    /// parameters a freshly chosen effect starts from: a height change of
    /// `0.25` for entry 0, painting `1.0` onto layer 0 for entry 1.
    pub open spec fn spec_from_selection(selection: usize) -> BrushMode
        recommends
            selection < OPTION_COUNT,
    {
        if selection == 0 {
            BrushMode::ModifyHeightMap { amount: Scalar { bits: QUARTER } }
        } else {
            BrushMode::DrawOnMask { layer: 0, alpha: Scalar { bits: ONE } }
        }
    }

    /// The entry of the mode dropdown that stands for this effect.
    pub open spec fn spec_selection(&self) -> usize {
        match self {
            BrushMode::ModifyHeightMap { .. } => 0,
            BrushMode::DrawOnMask { .. } => 1,
        }
    }

    /// The effect that entry `selection` of the mode dropdown stands for.
    #[verifier::when_used_as_spec(spec_from_selection)]
    pub fn from_selection(selection: usize) -> (mode: BrushMode)
        requires
            selection < OPTION_COUNT,
        ensures
            mode == BrushMode::spec_from_selection(selection),
            mode.spec_selection() == selection,
    {
        if selection == 0 {
            BrushMode::ModifyHeightMap { amount: Scalar { bits: QUARTER } }
        } else {
            BrushMode::DrawOnMask { layer: 0, alpha: Scalar { bits: ONE } }
        }
    }

    /// The entry of the mode dropdown that stands for this effect.
    #[verifier::when_used_as_spec(spec_selection)]
    pub fn selection(&self) -> (selection: usize)
        ensures
            selection == self.spec_selection(),
            selection < OPTION_COUNT,
    {
        match self {
            BrushMode::ModifyHeightMap { .. } => 0,
            BrushMode::DrawOnMask { .. } => 1,
        }
    }
}

impl Brush {
    /// The brush of a new panel: a circle of radius `1.0` at the origin that
    /// changes the height map by `0.25`.
    pub open spec fn spec_initial() -> Brush {
        Brush {
            center: Vector3::spec_origin(),
            kind: BrushKind::spec_from_selection(0),
            mode: BrushMode::spec_from_selection(0),
        }
    }

    /// The brush of a new panel.
    #[verifier::when_used_as_spec(spec_initial)]
    pub fn initial() -> (brush: Brush)
        ensures
            brush == Brush::spec_initial(),
            brush.kind == (BrushKind::Circle { radius: Scalar { bits: ONE } }),
            brush.mode == (BrushMode::ModifyHeightMap { amount: Scalar { bits: QUARTER } }),
    {
        Brush {
            center: Vector3::origin(),
            kind: BrushKind::from_selection(0),
            mode: BrushMode::from_selection(0),
        }
    }
}

} // verus!
