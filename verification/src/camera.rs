//! The camera collaborator: it owns a frustum whose matrix combines the
//! view and projection transforms, immutable per draw call.

use vstd::prelude::*;
use crate::math::Mat4;

verus! {

/// A viewing frustum, reduced to the 4x4 matrix it produces.
#[derive(Clone, Copy, PartialEq, Eq, Debug)]
pub struct Frustum {
    pub mat: Mat4,
}

impl Frustum {
    pub fn new(mat: Mat4) -> (r: Frustum)
        ensures
            r.mat == mat,
    {
        Frustum { mat }
    }

    /// The combined view-projection matrix.
    pub fn get_mat(&self) -> (r: &Mat4)
        ensures
            *r == self.mat,
    {
        &self.mat
    }
}

/// The camera: a frustum producing the view-projection matrix.
#[derive(Clone, Copy, PartialEq, Eq, Debug)]
pub struct Camera {
    pub frustum: Frustum,
}

impl Camera {
    pub fn new(frustum: Frustum) -> (r: Camera)
        ensures
            r.frustum == frustum,
    {
        Camera { frustum }
    }

    pub fn get_frustum(&self) -> (r: &Frustum)
        ensures
            *r == self.frustum,
    {
        &self.frustum
    }
}

} // verus!
