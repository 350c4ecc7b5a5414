//! Heading basis: the actor's world orientation as a 3x3 fixed-point
//! matrix of rows, used to rotate steering input into world space.

use vstd::prelude::*;
use crate::fixed::{UNIT, div_trunc, lemma_abs_mul_le, lemma_div_trunc_bound, div_unit};
use crate::vec::Vec3;

verus! {

/// A row-major 3x3 matrix; `xx, xy, xz` is the first row. An orientation
/// has every entry within `[-1, 1]`, i.e. `[-UNIT, UNIT]` in fixed point.
#[derive(Clone, Copy, PartialEq, Eq, Structural, Debug)]
pub struct Basis {
    pub xx: i64,
    pub xy: i64,
    pub xz: i64,
    pub yx: i64,
    pub yy: i64,
    pub yz: i64,
    pub zx: i64,
    pub zy: i64,
    pub zz: i64,
}

impl Basis {
    /// Every entry lies within `[-1, 1]`, as the entries of a rotation
    /// matrix do.
    pub open spec fn wf(self) -> bool {
        &&& -UNIT <= self.xx <= UNIT
        &&& -UNIT <= self.xy <= UNIT
        &&& -UNIT <= self.xz <= UNIT
        &&& -UNIT <= self.yx <= UNIT
        &&& -UNIT <= self.yy <= UNIT
        &&& -UNIT <= self.yz <= UNIT
        &&& -UNIT <= self.zx <= UNIT
        &&& -UNIT <= self.zy <= UNIT
        &&& -UNIT <= self.zz <= UNIT
    }

    /// Result of rotating `v`, first component: the first row dotted with
    /// `v`, scaled back down by `UNIT` with truncation.
    pub open spec fn rotate_x(self, v: Vec3) -> int {
        div_trunc(self.xx * v.x + self.xy * v.y + self.xz * v.z, UNIT as int)
    }

    /// Result of rotating `v`, second component.
    pub open spec fn rotate_y(self, v: Vec3) -> int {
        div_trunc(self.yx * v.x + self.yy * v.y + self.yz * v.z, UNIT as int)
    }

    /// Result of rotating `v`, third component.
    pub open spec fn rotate_z(self, v: Vec3) -> int {
        div_trunc(self.zx * v.x + self.zy * v.y + self.zz * v.z, UNIT as int)
    }

    /// The identity orientation: steering input passes through unchanged.
    pub fn identity() -> (r: Basis)
        ensures
            r == (Basis {
                xx: UNIT, xy: 0, xz: 0,
                yx: 0, yy: UNIT, yz: 0,
                zx: 0, zy: 0, zz: UNIT,
            }),
            r.wf(),
    {
        Basis { xx: UNIT, xy: 0, xz: 0, yx: 0, yy: UNIT, yz: 0, zx: 0, zy: 0, zz: UNIT }
    }

    /// Builds a basis from its rows; each entry must lie within `[-1, 1]`.
    pub fn new(row_x: Vec3, row_y: Vec3, row_z: Vec3) -> (r: Basis)
        requires
            -UNIT <= row_x.x <= UNIT, -UNIT <= row_x.y <= UNIT, -UNIT <= row_x.z <= UNIT,
            -UNIT <= row_y.x <= UNIT, -UNIT <= row_y.y <= UNIT, -UNIT <= row_y.z <= UNIT,
            -UNIT <= row_z.x <= UNIT, -UNIT <= row_z.y <= UNIT, -UNIT <= row_z.z <= UNIT,
        ensures
            r == (Basis {
                xx: row_x.x, xy: row_x.y, xz: row_x.z,
                yx: row_y.x, yy: row_y.y, yz: row_y.z,
                zx: row_z.x, zy: row_z.y, zz: row_z.z,
            }),
            r.wf(),
    {
        Basis {
            xx: row_x.x, xy: row_x.y, xz: row_x.z,
            yx: row_y.x, yy: row_y.y, yz: row_y.z,
            zx: row_z.x, zy: row_z.y, zz: row_z.z,
        }
    }

    /// Rotates `v` into world space. Components of `v` must lie within
    /// `[-1, 1]`; each result component then lies within `[-3, 3]`.
    pub fn rotate(&self, v: Vec3) -> (r: Vec3)
        requires
            self.wf(),
            -UNIT <= v.x <= UNIT,
            -UNIT <= v.y <= UNIT,
            -UNIT <= v.z <= UNIT,
        ensures
            r.x == self.rotate_x(v),
            r.y == self.rotate_y(v),
            r.z == self.rotate_z(v),
            -3 * UNIT <= r.x <= 3 * UNIT,
            -3 * UNIT <= r.y <= 3 * UNIT,
            -3 * UNIT <= r.z <= 3 * UNIT,
    {
        proof {
            lemma_abs_mul_le(self.xx as int, v.x as int, UNIT as int, UNIT as int);
            lemma_abs_mul_le(self.xy as int, v.y as int, UNIT as int, UNIT as int);
            lemma_abs_mul_le(self.xz as int, v.z as int, UNIT as int, UNIT as int);
            lemma_abs_mul_le(self.yx as int, v.x as int, UNIT as int, UNIT as int);
            lemma_abs_mul_le(self.yy as int, v.y as int, UNIT as int, UNIT as int);
            lemma_abs_mul_le(self.yz as int, v.z as int, UNIT as int, UNIT as int);
            lemma_abs_mul_le(self.zx as int, v.x as int, UNIT as int, UNIT as int);
            lemma_abs_mul_le(self.zy as int, v.y as int, UNIT as int, UNIT as int);
            lemma_abs_mul_le(self.zz as int, v.z as int, UNIT as int, UNIT as int);
        }
        let sx: i64 = self.xx * v.x + self.xy * v.y + self.xz * v.z;
        let sy: i64 = self.yx * v.x + self.yy * v.y + self.yz * v.z;
        let sz: i64 = self.zx * v.x + self.zy * v.y + self.zz * v.z;
        proof {
            lemma_div_trunc_bound(sx as int, 3 * UNIT as int, UNIT as int);
            lemma_div_trunc_bound(sy as int, 3 * UNIT as int, UNIT as int);
            lemma_div_trunc_bound(sz as int, 3 * UNIT as int, UNIT as int);
        }
        Vec3 { x: div_unit(sx), y: div_unit(sy), z: div_unit(sz) }
    }
}

} // verus!
