//! Affine transform builders over `Matrix4`, and the inverse by the
//! adjugate method.
//!
//! The rotation builders take the sine and cosine of the rotation angle as
//! exact rationals; the caller evaluates the trigonometry at whatever
//! precision it wants and the kernel stays exact from there on.
//!
//! Fluent composition left-multiplies: `m.translate(x, y, z)` is
//! `translation(x, y, z) * m`, so transforms written in reading order are
//! applied to a point in that same order.

use vstd::prelude::*;
use num_bigint::BigInt;
use crate::bignum::{big_value, big_from_i64, big_clone, big_sub, big_mul};
use crate::rational::{Rat, RatVal};
use crate::matrix::{
    Matrix4, MatVal, Grid, mat_wf, mat_mul, mat_inverse, int_vals, det_seq,
};

verus! {

/// The model of `translation`: the canonical scaled-integer form of the matrix.
pub open spec fn translation_spec(x: RatVal, y: RatVal, z: RatVal) -> MatVal {
    let d = x.den * y.den * z.den;
    MatVal {
        n: 4,
        elems: seq![
            d,
            0int,
            0int,
            x.num * (y.den * z.den),
            0int,
            d,
            0int,
            y.num * (x.den * z.den),
            0int,
            0int,
            d,
            z.num * (x.den * y.den),
            0int,
            0int,
            0int,
            d,
        ],
        den: d,
    }
}

/// The model of `scaling`: the canonical scaled-integer form of the matrix.
pub open spec fn scaling_spec(x: RatVal, y: RatVal, z: RatVal) -> MatVal {
    let d = x.den * y.den * z.den;
    MatVal {
        n: 4,
        elems: seq![
            x.num * (y.den * z.den),
            0int,
            0int,
            0int,
            0int,
            y.num * (x.den * z.den),
            0int,
            0int,
            0int,
            0int,
            z.num * (x.den * y.den),
            0int,
            0int,
            0int,
            0int,
            d,
        ],
        den: d,
    }
}

/// The model of `rotation_x`: the canonical scaled-integer form of the matrix.
pub open spec fn rotation_x_spec(s: RatVal, c: RatVal) -> MatVal {
    let d = s.den * c.den;
    MatVal {
        n: 4,
        elems: seq![
            d,
            0int,
            0int,
            0int,
            0int,
            c.num * (s.den),
            -(s.num * (c.den)),
            0int,
            0int,
            s.num * (c.den),
            c.num * (s.den),
            0int,
            0int,
            0int,
            0int,
            d,
        ],
        den: d,
    }
}

/// The model of `rotation_y`: the canonical scaled-integer form of the matrix.
pub open spec fn rotation_y_spec(s: RatVal, c: RatVal) -> MatVal {
    let d = s.den * c.den;
    MatVal {
        n: 4,
        elems: seq![
            c.num * (s.den),
            0int,
            s.num * (c.den),
            0int,
            0int,
            d,
            0int,
            0int,
            -(s.num * (c.den)),
            0int,
            c.num * (s.den),
            0int,
            0int,
            0int,
            0int,
            d,
        ],
        den: d,
    }
}

/// The model of `rotation_z`: the canonical scaled-integer form of the matrix.
pub open spec fn rotation_z_spec(s: RatVal, c: RatVal) -> MatVal {
    let d = s.den * c.den;
    MatVal {
        n: 4,
        elems: seq![
            c.num * (s.den),
            -(s.num * (c.den)),
            0int,
            0int,
            s.num * (c.den),
            c.num * (s.den),
            0int,
            0int,
            0int,
            0int,
            d,
            0int,
            0int,
            0int,
            0int,
            d,
        ],
        den: d,
    }
}

/// The model of `shearing`: the canonical scaled-integer form of the matrix.
pub open spec fn shearing_spec(xy: RatVal, xz: RatVal, yx: RatVal, yz: RatVal, zx: RatVal, zy: RatVal) -> MatVal {
    let d = xy.den * xz.den * yx.den * yz.den * zx.den * zy.den;
    MatVal {
        n: 4,
        elems: seq![
            d,
            xy.num * (xz.den * yx.den * yz.den * zx.den * zy.den),
            xz.num * (xy.den * yx.den * yz.den * zx.den * zy.den),
            0int,
            yx.num * (xy.den * xz.den * yz.den * zx.den * zy.den),
            d,
            yz.num * (xy.den * xz.den * yx.den * zx.den * zy.den),
            0int,
            zx.num * (xy.den * xz.den * yx.den * yz.den * zy.den),
            zy.num * (xy.den * xz.den * yx.den * yz.den * zx.den),
            d,
            0int,
            0int,
            0int,
            0int,
            d,
        ],
        den: d,
    }
}

/// The affine translation by `(x, y, z)`: the vector stands in the last column.
impl Matrix4 {
    pub fn translation(x: Rat, y: Rat, z: Rat) -> (r: Matrix4)
        ensures
            r@ == translation_spec(x@, y@, z@),
            mat_wf(r@),
    {
        let xn = x.num_big();
        let xd = x.den_big();
        let yn = y.num_big();
        let yd = y.den_big();
        let zn = z.num_big();
        let zd = z.den_big();
        let den = big_mul(&big_mul(&xd, &yd), &zd);
        let zero = big_from_i64(0);
        let ox = big_mul(&yd, &zd);
        let oy = big_mul(&xd, &zd);
        let oz = big_mul(&xd, &yd);
        let mut elems: Vec<BigInt> = Vec::new();
        elems.push(big_clone(&den));
        elems.push(big_clone(&zero));
        elems.push(big_clone(&zero));
        elems.push(big_mul(&xn, &ox));
        elems.push(big_clone(&zero));
        elems.push(big_clone(&den));
        elems.push(big_clone(&zero));
        elems.push(big_mul(&yn, &oy));
        elems.push(big_clone(&zero));
        elems.push(big_clone(&zero));
        elems.push(big_clone(&den));
        elems.push(big_mul(&zn, &oz));
        elems.push(big_clone(&zero));
        elems.push(big_clone(&zero));
        elems.push(big_clone(&zero));
        elems.push(big_clone(&den));
        proof {
            assert(big_value(den) > 0) by (nonlinear_arith)
                requires
                    big_value(den) == translation_spec(x@, y@, z@).den,
                    x@.den > 0,
                y@.den > 0,
                z@.den > 0,
            ;
            assert(translation_spec(x@, y@, z@).elems =~= int_vals(elems@));
        }
        let g = Grid::from_parts(4, elems, den);
        Matrix4::from_grid(g)
    }
}

/// The affine scaling by `(x, y, z)`: the factors stand on the diagonal.
impl Matrix4 {
    pub fn scaling(x: Rat, y: Rat, z: Rat) -> (r: Matrix4)
        ensures
            r@ == scaling_spec(x@, y@, z@),
            mat_wf(r@),
    {
        let xn = x.num_big();
        let xd = x.den_big();
        let yn = y.num_big();
        let yd = y.den_big();
        let zn = z.num_big();
        let zd = z.den_big();
        let den = big_mul(&big_mul(&xd, &yd), &zd);
        let zero = big_from_i64(0);
        let ox = big_mul(&yd, &zd);
        let oy = big_mul(&xd, &zd);
        let oz = big_mul(&xd, &yd);
        let mut elems: Vec<BigInt> = Vec::new();
        elems.push(big_mul(&xn, &ox));
        elems.push(big_clone(&zero));
        elems.push(big_clone(&zero));
        elems.push(big_clone(&zero));
        elems.push(big_clone(&zero));
        elems.push(big_mul(&yn, &oy));
        elems.push(big_clone(&zero));
        elems.push(big_clone(&zero));
        elems.push(big_clone(&zero));
        elems.push(big_clone(&zero));
        elems.push(big_mul(&zn, &oz));
        elems.push(big_clone(&zero));
        elems.push(big_clone(&zero));
        elems.push(big_clone(&zero));
        elems.push(big_clone(&zero));
        elems.push(big_clone(&den));
        proof {
            assert(big_value(den) > 0) by (nonlinear_arith)
                requires
                    big_value(den) == scaling_spec(x@, y@, z@).den,
                    x@.den > 0,
                y@.den > 0,
                z@.den > 0,
            ;
            assert(scaling_spec(x@, y@, z@).elems =~= int_vals(elems@));
        }
        let g = Grid::from_parts(4, elems, den);
        Matrix4::from_grid(g)
    }
}

/// Right-handed rotation about the x axis by the angle with sine `s` and cosine `c`.
impl Matrix4 {
    pub fn rotation_x(s: Rat, c: Rat) -> (r: Matrix4)
        ensures
            r@ == rotation_x_spec(s@, c@),
            mat_wf(r@),
    {
        let sn = s.num_big();
        let sd = s.den_big();
        let cn = c.num_big();
        let cd = c.den_big();
        let den = big_mul(&sd, &cd);
        let zero = big_from_i64(0);
        let os = big_clone(&cd);
        let oc = big_clone(&sd);
        let mut elems: Vec<BigInt> = Vec::new();
        elems.push(big_clone(&den));
        elems.push(big_clone(&zero));
        elems.push(big_clone(&zero));
        elems.push(big_clone(&zero));
        elems.push(big_clone(&zero));
        elems.push(big_mul(&cn, &oc));
        elems.push(big_sub(&zero, &big_mul(&sn, &os)));
        elems.push(big_clone(&zero));
        elems.push(big_clone(&zero));
        elems.push(big_mul(&sn, &os));
        elems.push(big_mul(&cn, &oc));
        elems.push(big_clone(&zero));
        elems.push(big_clone(&zero));
        elems.push(big_clone(&zero));
        elems.push(big_clone(&zero));
        elems.push(big_clone(&den));
        proof {
            assert(big_value(den) > 0) by (nonlinear_arith)
                requires
                    big_value(den) == rotation_x_spec(s@, c@).den,
                    s@.den > 0,
                c@.den > 0,
            ;
            assert(rotation_x_spec(s@, c@).elems =~= int_vals(elems@));
        }
        let g = Grid::from_parts(4, elems, den);
        Matrix4::from_grid(g)
    }
}

/// Right-handed rotation about the y axis by the angle with sine `s` and cosine `c`.
impl Matrix4 {
    pub fn rotation_y(s: Rat, c: Rat) -> (r: Matrix4)
        ensures
            r@ == rotation_y_spec(s@, c@),
            mat_wf(r@),
    {
        let sn = s.num_big();
        let sd = s.den_big();
        let cn = c.num_big();
        let cd = c.den_big();
        let den = big_mul(&sd, &cd);
        let zero = big_from_i64(0);
        let os = big_clone(&cd);
        let oc = big_clone(&sd);
        let mut elems: Vec<BigInt> = Vec::new();
        elems.push(big_mul(&cn, &oc));
        elems.push(big_clone(&zero));
        elems.push(big_mul(&sn, &os));
        elems.push(big_clone(&zero));
        elems.push(big_clone(&zero));
        elems.push(big_clone(&den));
        elems.push(big_clone(&zero));
        elems.push(big_clone(&zero));
        elems.push(big_sub(&zero, &big_mul(&sn, &os)));
        elems.push(big_clone(&zero));
        elems.push(big_mul(&cn, &oc));
        elems.push(big_clone(&zero));
        elems.push(big_clone(&zero));
        elems.push(big_clone(&zero));
        elems.push(big_clone(&zero));
        elems.push(big_clone(&den));
        proof {
            assert(big_value(den) > 0) by (nonlinear_arith)
                requires
                    big_value(den) == rotation_y_spec(s@, c@).den,
                    s@.den > 0,
                c@.den > 0,
            ;
            assert(rotation_y_spec(s@, c@).elems =~= int_vals(elems@));
        }
        let g = Grid::from_parts(4, elems, den);
        Matrix4::from_grid(g)
    }
}

/// Right-handed rotation about the z axis by the angle with sine `s` and cosine `c`.
impl Matrix4 {
    pub fn rotation_z(s: Rat, c: Rat) -> (r: Matrix4)
        ensures
            r@ == rotation_z_spec(s@, c@),
            mat_wf(r@),
    {
        let sn = s.num_big();
        let sd = s.den_big();
        let cn = c.num_big();
        let cd = c.den_big();
        let den = big_mul(&sd, &cd);
        let zero = big_from_i64(0);
        let os = big_clone(&cd);
        let oc = big_clone(&sd);
        let mut elems: Vec<BigInt> = Vec::new();
        elems.push(big_mul(&cn, &oc));
        elems.push(big_sub(&zero, &big_mul(&sn, &os)));
        elems.push(big_clone(&zero));
        elems.push(big_clone(&zero));
        elems.push(big_mul(&sn, &os));
        elems.push(big_mul(&cn, &oc));
        elems.push(big_clone(&zero));
        elems.push(big_clone(&zero));
        elems.push(big_clone(&zero));
        elems.push(big_clone(&zero));
        elems.push(big_clone(&den));
        elems.push(big_clone(&zero));
        elems.push(big_clone(&zero));
        elems.push(big_clone(&zero));
        elems.push(big_clone(&zero));
        elems.push(big_clone(&den));
        proof {
            assert(big_value(den) > 0) by (nonlinear_arith)
                requires
                    big_value(den) == rotation_z_spec(s@, c@).den,
                    s@.den > 0,
                c@.den > 0,
            ;
            assert(rotation_z_spec(s@, c@).elems =~= int_vals(elems@));
        }
        let g = Grid::from_parts(4, elems, den);
        Matrix4::from_grid(g)
    }
}

/// The shear that moves each coordinate in proportion to the other two.
impl Matrix4 {
    pub fn shearing(xy: Rat, xz: Rat, yx: Rat, yz: Rat, zx: Rat, zy: Rat) -> (r: Matrix4)
        ensures
            r@ == shearing_spec(xy@, xz@, yx@, yz@, zx@, zy@),
            mat_wf(r@),
    {
        let xyn = xy.num_big();
        let xyd = xy.den_big();
        let xzn = xz.num_big();
        let xzd = xz.den_big();
        let yxn = yx.num_big();
        let yxd = yx.den_big();
        let yzn = yz.num_big();
        let yzd = yz.den_big();
        let zxn = zx.num_big();
        let zxd = zx.den_big();
        let zyn = zy.num_big();
        let zyd = zy.den_big();
        let den = big_mul(&big_mul(&big_mul(&big_mul(&big_mul(&xyd, &xzd), &yxd), &yzd), &zxd), &zyd);
        let zero = big_from_i64(0);
        let oxy = big_mul(&big_mul(&big_mul(&big_mul(&xzd, &yxd), &yzd), &zxd), &zyd);
        let oxz = big_mul(&big_mul(&big_mul(&big_mul(&xyd, &yxd), &yzd), &zxd), &zyd);
        let oyx = big_mul(&big_mul(&big_mul(&big_mul(&xyd, &xzd), &yzd), &zxd), &zyd);
        let oyz = big_mul(&big_mul(&big_mul(&big_mul(&xyd, &xzd), &yxd), &zxd), &zyd);
        let ozx = big_mul(&big_mul(&big_mul(&big_mul(&xyd, &xzd), &yxd), &yzd), &zyd);
        let ozy = big_mul(&big_mul(&big_mul(&big_mul(&xyd, &xzd), &yxd), &yzd), &zxd);
        let mut elems: Vec<BigInt> = Vec::new();
        elems.push(big_clone(&den));
        elems.push(big_mul(&xyn, &oxy));
        elems.push(big_mul(&xzn, &oxz));
        elems.push(big_clone(&zero));
        elems.push(big_mul(&yxn, &oyx));
        elems.push(big_clone(&den));
        elems.push(big_mul(&yzn, &oyz));
        elems.push(big_clone(&zero));
        elems.push(big_mul(&zxn, &ozx));
        elems.push(big_mul(&zyn, &ozy));
        elems.push(big_clone(&den));
        elems.push(big_clone(&zero));
        elems.push(big_clone(&zero));
        elems.push(big_clone(&zero));
        elems.push(big_clone(&zero));
        elems.push(big_clone(&den));
        proof {
            assert(big_value(den) > 0) by (nonlinear_arith)
                requires
                    big_value(den) == shearing_spec(xy@, xz@, yx@, yz@, zx@, zy@).den,
                    xy@.den > 0,
                xz@.den > 0,
                yx@.den > 0,
                yz@.den > 0,
                zx@.den > 0,
                zy@.den > 0,
            ;
            assert(shearing_spec(xy@, xz@, yx@, yz@, zx@, zy@).elems =~= int_vals(elems@));
        }
        let g = Grid::from_parts(4, elems, den);
        Matrix4::from_grid(g)
    }
}

impl Matrix4 {
    /// The inverse by the adjugate method: entry `(c, r)` of the result is
    /// `cofactor(r, c) / det`. The determinant must be nonzero; callers
    /// guard with `is_invertibile`.
    pub fn inverse(&self) -> (r: Matrix4)
        requires
            det_seq(self@.elems, self@.n) != 0,
        ensures
            r@ == mat_inverse(self@),
    {
        proof {
            use_type_invariant(self);
        }
        let g = self.grid_ref().inverse();
        Matrix4::from_grid(g)
    }

    /// Appends a translation: the result is `translation(x, y, z) * self`.
    pub fn translate(&self, x: Rat, y: Rat, z: Rat) -> (r: Matrix4)
        ensures
            r@ == mat_mul(translation_spec(x@, y@, z@), self@),
    {
        Matrix4::translation(x, y, z).mul(self)
    }

    /// Appends a scaling: the result is `scaling(x, y, z) * self`.
    pub fn scale(&self, x: Rat, y: Rat, z: Rat) -> (r: Matrix4)
        ensures
            r@ == mat_mul(scaling_spec(x@, y@, z@), self@),
    {
        Matrix4::scaling(x, y, z).mul(self)
    }

    /// Appends a rotation about x: the result is `rotation_x(s, c) * self`.
    pub fn rotate_x(&self, s: Rat, c: Rat) -> (r: Matrix4)
        ensures
            r@ == mat_mul(rotation_x_spec(s@, c@), self@),
    {
        Matrix4::rotation_x(s, c).mul(self)
    }

    /// Appends a rotation about y: the result is `rotation_y(s, c) * self`.
    pub fn rotate_y(&self, s: Rat, c: Rat) -> (r: Matrix4)
        ensures
            r@ == mat_mul(rotation_y_spec(s@, c@), self@),
    {
        Matrix4::rotation_y(s, c).mul(self)
    }

    /// Appends a rotation about z: the result is `rotation_z(s, c) * self`.
    pub fn rotate_z(&self, s: Rat, c: Rat) -> (r: Matrix4)
        ensures
            r@ == mat_mul(rotation_z_spec(s@, c@), self@),
    {
        Matrix4::rotation_z(s, c).mul(self)
    }
}

} // verus!
