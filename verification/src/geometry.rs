//! Rigid motions and angular inertia in fixed-point arithmetic.

use vstd::prelude::*;
use crate::fixed::Real;
use crate::vector::Vector3;

verus! {

/// A rotation of space, held as a quaternion of unit length with vector part
/// `(i, j, k)` and scalar part `w`.
#[derive(Clone, Copy, Debug, PartialEq, Eq, Structural)]
pub struct Rotation {
    pub i: Real,
    pub j: Real,
    pub k: Real,
    pub w: Real,
}

/// A rigid motion: a rotation followed by a translation.
#[derive(Clone, Copy, Debug, PartialEq, Eq, Structural)]
pub struct Isometry {
    pub rotation: Rotation,
    pub translation: Vector3,
}

/// A symmetric matrix that maps an angular vector to an angular vector; only
/// its upper triangle is stored.
#[derive(Clone, Copy, Debug, PartialEq, Eq, Structural)]
pub struct AngularInertia {
    pub m11: Real,
    pub m12: Real,
    pub m13: Real,
    pub m22: Real,
    pub m23: Real,
    pub m33: Real,
}

impl Rotation {
    /// The rotation that moves nothing.
    pub open spec fn spec_identity() -> Rotation {
        Rotation {
            i: Real::spec_zero(),
            j: Real::spec_zero(),
            k: Real::spec_zero(),
            w: Real::spec_one(),
        }
    }

    /// The vector part of the quaternion.
    pub open spec fn spec_axis(self) -> Vector3 {
        Vector3 { x: self.i, y: self.j, z: self.k }
    }

    /// The opposite rotation.
    pub open spec fn spec_inverse(self) -> Rotation {
        Rotation { i: self.i.spec_neg(), j: self.j.spec_neg(), k: self.k.spec_neg(), w: self.w }
    }

    /// The image of `v`: with `t` twice the vector product of the axis and
    /// `v`, it is `v + w t + axis × t`.
    pub open spec fn spec_transform_vector(self, v: Vector3) -> Vector3 {
        let t = self.spec_axis().spec_cross(v).spec_scale(Real::spec_from_int(2));
        t.spec_scale(self.w).spec_add(self.spec_axis().spec_cross(t)).spec_add(v)
    }

    pub fn identity() -> (r: Rotation)
        ensures
            r == Rotation::spec_identity(),
    {
        Rotation { i: Real::zero(), j: Real::zero(), k: Real::zero(), w: Real::one() }
    }

    pub fn inverse(self) -> (r: Rotation)
        ensures
            r == self.spec_inverse(),
    {
        Rotation { i: self.i.neg(), j: self.j.neg(), k: self.k.neg(), w: self.w }
    }

    pub fn transform_vector(self, v: Vector3) -> (r: Vector3)
        ensures
            r == self.spec_transform_vector(v),
    {
        let axis = Vector3 { x: self.i, y: self.j, z: self.k };
        let t = axis.cross(v).scale(Real::from_int(2));
        t.scale(self.w).add(axis.cross(t)).add(v)
    }
}

impl Isometry {
    /// The rigid motion that moves nothing.
    pub open spec fn spec_identity() -> Isometry {
        Isometry { rotation: Rotation::spec_identity(), translation: Vector3::spec_zero() }
    }

    /// The image of the point `p`: rotated, then translated.
    pub open spec fn spec_transform_point(self, p: Vector3) -> Vector3 {
        self.rotation.spec_transform_vector(p).spec_add(self.translation)
    }

    /// The point whose image is `p`: translated back, then rotated back.
    pub open spec fn spec_inverse_transform_point(self, p: Vector3) -> Vector3 {
        self.rotation.spec_inverse().spec_transform_vector(p.spec_sub(self.translation))
    }

    pub fn identity() -> (r: Isometry)
        ensures
            r == Isometry::spec_identity(),
    {
        Isometry { rotation: Rotation::identity(), translation: Vector3::zero() }
    }

    pub fn transform_point(self, p: Vector3) -> (r: Vector3)
        ensures
            r == self.spec_transform_point(p),
    {
        self.rotation.transform_vector(p).add(self.translation)
    }

    pub fn inverse_transform_point(self, p: Vector3) -> (r: Vector3)
        ensures
            r == self.spec_inverse_transform_point(p),
    {
        self.rotation.inverse().transform_vector(p.sub(self.translation))
    }
}

impl AngularInertia {
    /// The matrix with `d` on its diagonal and zero elsewhere.
    pub open spec fn spec_from_diagonal(d: Real) -> AngularInertia {
        AngularInertia {
            m11: d,
            m12: Real::spec_zero(),
            m13: Real::spec_zero(),
            m22: d,
            m23: Real::spec_zero(),
            m33: d,
        }
    }

    /// The product of the matrix and `v`.
    pub open spec fn spec_transform_vector(self, v: Vector3) -> Vector3 {
        Vector3 {
            x: self.m11.spec_mul(v.x).spec_add(self.m12.spec_mul(v.y)).spec_add(
                self.m13.spec_mul(v.z),
            ),
            y: self.m12.spec_mul(v.x).spec_add(self.m22.spec_mul(v.y)).spec_add(
                self.m23.spec_mul(v.z),
            ),
            z: self.m13.spec_mul(v.x).spec_add(self.m23.spec_mul(v.y)).spec_add(
                self.m33.spec_mul(v.z),
            ),
        }
    }

    pub fn from_diagonal(d: Real) -> (r: AngularInertia)
        ensures
            r == AngularInertia::spec_from_diagonal(d),
    {
        AngularInertia {
            m11: d,
            m12: Real::zero(),
            m13: Real::zero(),
            m22: d,
            m23: Real::zero(),
            m33: d,
        }
    }

    pub fn transform_vector(self, v: Vector3) -> (r: Vector3)
        ensures
            r == self.spec_transform_vector(v),
    {
        Vector3 {
            x: self.m11.mul(v.x).add(self.m12.mul(v.y)).add(self.m13.mul(v.z)),
            y: self.m12.mul(v.x).add(self.m22.mul(v.y)).add(self.m23.mul(v.z)),
            z: self.m13.mul(v.x).add(self.m23.mul(v.y)).add(self.m33.mul(v.z)),
        }
    }
}

} // verus!
