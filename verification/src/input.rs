use vstd::prelude::*;
use crate::error::GlError;

verus! {

/// The latest pointer offset on the render surface, in surface-local
/// pixels. A single event listener writes it on each pointer move; the
/// render loop reads it once per frame. Both run on one logical thread,
/// so no synchronization is needed beyond in-place mutation.
#[derive(Debug)]
pub struct PointerState {
    pub x: i32,
    pub y: i32,
}

impl PointerState {
    pub fn new() -> (p: PointerState)
        ensures
            p.x == 0,
            p.y == 0,
    {
        PointerState { x: 0, y: 0 }
    }

    /// Records a pointer-move event.
    pub fn update(&mut self, x: i32, y: i32)
        ensures
            final(self).x == x,
            final(self).y == y,
    {
        self.x = x;
        self.y = y;
    }
}

/// The pixel extent of the render surface.
#[derive(Debug)]
pub struct SurfaceSize {
    pub width: i32,
    pub height: i32,
}

impl SurfaceSize {
    /// A surface can drive pointer normalization and a viewport only
    /// with positive extent in both directions.
    pub open spec fn wf(self) -> bool {
        self.width > 0 && self.height > 0
    }

    /// Accepts the reported extent of the surface; a degenerate extent
    /// means the surface cannot be rendered to and is reported as a
    /// surface-acquisition failure.
    pub fn new(width: i32, height: i32) -> (r: Result<SurfaceSize, GlError>)
        ensures
            r is Ok <==> width > 0 && height > 0,
            r is Ok ==> r->Ok_0.width == width && r->Ok_0.height == height && r->Ok_0.wf(),
            r is Err ==> r->Err_0 is SurfaceAcquisition,
    {
        if width > 0 && height > 0 {
            Ok(SurfaceSize { width, height })
        } else {
            Err(
                GlError::SurfaceAcquisition {
                    reason: "render surface has no positive pixel extent".to_owned(),
                },
            )
        }
    }
}

/// An exact ratio of two pixel counts. The pipeline reports pointer
/// coordinates to the shader as the ratio of the raw offset to the
/// surface extent; the unverified shell divides the two fields once,
/// when it pushes the uniform.
#[derive(Clone, Copy, PartialEq, Eq, Structural, Debug)]
pub struct Fraction {
    pub num: i32,
    pub den: i32,
}

/// A raw offset normalized against a surface extent.
pub open spec fn spec_normalized(offset: i32, extent: i32) -> Fraction {
    Fraction { num: offset, den: extent }
}

/// The fraction lies in the unit interval `[0, 1]`.
pub open spec fn in_unit_interval(f: Fraction) -> bool {
    0 <= f.num <= f.den
}

/// Normalizes a raw pointer offset against the surface extent along the
/// same axis.
pub fn normalized_coordinate(offset: i32, extent: i32) -> (r: Fraction)
    requires
        extent > 0,
    ensures
        r == spec_normalized(offset, extent),
{
    Fraction { num: offset, den: extent }
}

/// A raw offset within the surface — at least zero and at most the
/// extent — normalizes into the unit interval, so an in-surface pointer
/// position always reaches the shader as a pair of coordinates in
/// `[0, 1] x [0, 1]`.
pub proof fn lemma_normalized_in_unit_interval(offset: i32, extent: i32)
    requires
        extent > 0,
        0 <= offset <= extent,
    ensures
        in_unit_interval(spec_normalized(offset, extent)),
{
}

} // verus!
