//! A translation of space moves every point by the same distance.

use core::ops::{Add, BitOr, BitXor, Div, Mul, Neg, Not, Sub};
use vstd::prelude::*;
use vstd::std_specs::cmp::PartialEqSpec;
use vstd::std_specs::ops::{
    AddSpec,
    BitOrSpec,
    BitXorSpec,
    DivSpec,
    MulSpec,
    NegSpec,
    NotSpec,
    SubSpec,
};

use crate::laws::exact::exact;
use crate::laws::motors3::norm2_of_motor3;
use crate::laws::reals::{cancel, regroup, root_of_square, sign, zero};
use crate::laws::roots3::is_translation;
use crate::laws::turns::is_identity;
use crate::pga::motor::Motor3;
use crate::pga::point::Point3;
use crate::scalar::Num;

verus! {

/// In an exact field a translation of space moves a point that is not
/// ideal to the point whose coordinates are those of the point less
/// twice the coefficients of the translation's bivector. The point it
/// gives is normalized.
pub proof fn translation_moves_point_of_space<T: Num>(
    val: spec_fn(T) -> real,
    m: Motor3<T>,
    p: Point3<T>,
)
    requires
        exact(val),
        is_translation(val, m),
        val(p.0.e123) != 0real,
    ensures
        ({
            let moved = m.move_point_spec(p).normalized_spec();
            let w = val(p.0.e123);
            &&& val(moved.0.e123) == 1real
            &&& val(moved.0.e032) * w == val(p.0.e032) - 2real * (val(m.bivector.e01) * w)
            &&& val(moved.0.e013) * w == val(p.0.e013) - 2real * (val(m.bivector.e02) * w)
            &&& val(moved.0.e021) * w == val(p.0.e021) - 2real * (val(m.bivector.e03) * w)
        }),
{
    let wa = val(p.0.e123);
    let (a1, a2, a3) = (val(p.0.e032), val(p.0.e013), val(p.0.e021));
    let (m1, m2, m3) = (val(m.bivector.e01), val(m.bivector.e02), val(m.bivector.e03));
    // the sandwich product, part by part
    let tv0 = m.scalar.mul_spec(p.0);
    let (v1, tv1) = m.bivector.mul_spec(p.0);
    let v2 = m.pseudo.mul_spec(p.0);
    let v = v1.add_spec(v2);
    let tv = tv0.add_spec(tv1);
    let (_v, pa) = v.mul_spec(m.bivector.not_spec());
    let pb = tv.mul_spec(m.scalar.not_spec());
    let (_w, pc) = tv.mul_spec(m.bivector.not_spec());
    let pd = v.mul_spec(m.pseudo.not_spec());
    let sum = pa.add_spec(pb).add_spec(pc).add_spec(pd);
    assert(m.move_point_spec(p) == Point3(sum.normalized_spec()));
    // the vector part vanishes
    assert(val(v1.e0) == 0real * a3 + 0real * a2 + 0real * a1);
    assert(val(v1.e1) == -(0real * wa));
    assert(val(v1.e2) == -(0real * wa));
    assert(val(v1.e3) == -(0real * wa));
    assert(val(v2.e0) == -(0real * wa));
    assert(val(v.e0) == 0real && val(v.e1) == 0real && val(v.e2) == 0real && val(v.e3) == 0real);
    // the trivector part
    assert(val(tv.e032) == 1real * a1 + (0real * a2 - 0real * a3 - m1 * wa));
    assert(val(tv.e013) == 1real * a2 + (0real * a3 - 0real * a1 - m2 * wa));
    assert(val(tv.e021) == 1real * a3 + (0real * a1 - 0real * a2 - m3 * wa));
    assert(val(tv.e123) == 1real * wa + 0real);
    let (x1, x2, x3) = (val(tv.e032), val(tv.e013), val(tv.e021));
    assert(val(pa.e032) == 0real * (-m3) - 0real * (-m2) - 0real * (-0real));
    assert(val(pa.e013) == 0real * (-m1) - 0real * (-m3) - 0real * (-0real));
    assert(val(pa.e021) == 0real * (-m2) - 0real * (-m1) - 0real * (-0real));
    assert(val(pa.e123) == 0real * (-0real) + 0real * (-0real) + 0real * (-0real));
    assert(val(pb.e032) == x1 * 1real && val(pb.e013) == x2 * 1real && val(pb.e021) == x3
        * 1real && val(pb.e123) == wa * 1real);
    assert(val(pc.e032) == x3 * (-0real) - x2 * (-0real) + wa * (-m1));
    assert(val(pc.e013) == x1 * (-0real) - x3 * (-0real) + wa * (-m2));
    assert(val(pc.e021) == x2 * (-0real) - x1 * (-0real) + wa * (-m3));
    assert(val(pc.e123) == 0real);
    assert(val(pd.e032) == 0real * 0real && val(pd.e013) == 0real * 0real && val(pd.e021)
        == 0real * 0real && val(pd.e123) == 0real);
    sign(wa, m1);
    sign(wa, m2);
    sign(wa, m3);
    regroup(wa, m1, 1real);
    regroup(wa, m2, 1real);
    regroup(wa, m3, 1real);
    zero(x1);
    zero(x2);
    zero(x3);
    let (s1, s2, s3, s4) = (val(sum.e032), val(sum.e013), val(sum.e021), val(sum.e123));
    assert(s1 == a1 - 2real * (m1 * wa));
    assert(s2 == a2 - 2real * (m2 * wa));
    assert(s3 == a3 - 2real * (m3 * wa));
    assert(s4 == wa);
    // the two normalizations divide by the weight of the point
    let norm = val(sum.norm_spec());
    assert(norm == if wa >= 0real {
        wa
    } else {
        -wa
    });
    assert(norm != 0real);
    let unit = sum.normalized_spec();
    let (n1, n2, n3, n4) = (val(unit.e032), val(unit.e013), val(unit.e021), val(unit.e123));
    assert(n1 * norm == s1 && n2 * norm == s2 && n3 * norm == s3 && n4 * norm == wa);
    let moved = Point3(unit).normalized_spec();
    let (r1, r2, r3, r4) = (
        val(moved.0.e032),
        val(moved.0.e013),
        val(moved.0.e021),
        val(moved.0.e123),
    );
    if wa >= 0real {
        assert(1real * norm == wa);
        cancel(n4, 1real, norm);
        assert(moved == Point3(unit));
    } else {
        sign(1real, norm);
        assert((-1real) * norm == wa);
        cancel(n4, -1real, norm);
        assert(n4 != 0real && n4 != 1real);
        assert(moved == Point3(unit.div_spec(unit.e123)));
        assert(r1 * n4 == n1 && r2 * n4 == n2 && r3 * n4 == n3 && r4 * n4 == n4);
        cancel(r4, 1real, n4);
    }
    assert(r4 == 1real);
    // in either case the moved point, times the weight, is the sum
    assert(r1 * wa == s1 && r2 * wa == s2 && r3 * wa == s3) by {
        if wa >= 0real {
        } else {
            assert(n4 == -1real);
            assert(norm == -wa);
            assert((r1 * (-1real)) * norm == s1);
            assert((r2 * (-1real)) * norm == s2);
            assert((r3 * (-1real)) * norm == s3);
            assert((r1 * (-1real)) * (-wa) == r1 * wa) by (nonlinear_arith);
            assert((r2 * (-1real)) * (-wa) == r2 * wa) by (nonlinear_arith);
            assert((r3 * (-1real)) * (-wa) == r3 * wa) by (nonlinear_arith);
        }
    }
}

/// In an exact field the identity, composed with a translation of space,
/// is the translation: the product is a translation with the same
/// bivector.
pub proof fn identity_after_translation<T: Num>(val: spec_fn(T) -> real, i: Motor3<T>, m: Motor3<T>)
    requires
        exact(val),
        is_identity(val, i),
        is_translation(val, m),
    ensures
        is_translation(val, i.compose_spec(m)),
        val(i.compose_spec(m).bivector.e01) == val(m.bivector.e01),
        val(i.compose_spec(m).bivector.e02) == val(m.bivector.e02),
        val(i.compose_spec(m).bivector.e03) == val(m.bivector.e03),
        is_identity(val, i.normalized_spec()),
{
    let (x1, x2, x3) = (val(m.bivector.e01), val(m.bivector.e02), val(m.bivector.e03));
    zero(x1);
    zero(x2);
    zero(x3);
    let s0 = i.scalar.mul_spec(m.scalar);
    let bv0 = i.scalar.mul_spec(m.bivector);
    let p0 = i.scalar.mul_spec(m.pseudo);
    let bv1 = i.bivector.mul_spec(m.scalar);
    let (s1, bv2, p1) = i.bivector.mul_spec(m.bivector);
    let bv3 = i.bivector.mul_spec(m.pseudo);
    let p2 = i.pseudo.mul_spec(m.scalar);
    let bv4 = i.pseudo.mul_spec(m.bivector);
    let product = Motor3 {
        scalar: s0.add_spec(s1),
        bivector: bv0.add_spec(bv1).add_spec(bv2).add_spec(bv3).add_spec(bv4),
        pseudo: p0.add_spec(p1).add_spec(p2),
    };
    assert(i.compose_spec(m) == product.normalized_spec());
    // the parts of the product
    assert(val(s0.0) == 1real * 1real);
    assert(val(s1.0) == -(0real * 0real + 0real * 0real + 0real * 0real));
    assert(val(bv0.e01) == 1real * x1 && val(bv0.e02) == 1real * x2 && val(bv0.e03) == 1real * x3);
    assert(val(bv0.e12) == 1real * 0real && val(bv0.e31) == 1real * 0real && val(bv0.e23) == 1real
        * 0real);
    assert(val(bv1.e01) == 0real * 1real && val(bv1.e02) == 0real * 1real && val(bv1.e03) == 0real
        * 1real);
    assert(val(bv1.e12) == 0real * 1real && val(bv1.e31) == 0real * 1real && val(bv1.e23) == 0real
        * 1real);
    assert(val(bv2.e01) == 0real * 0real - 0real * 0real + 0real * x2 - 0real * x3);
    assert(val(bv2.e02) == 0real * 0real - 0real * 0real + 0real * x3 - 0real * x1);
    assert(val(bv2.e03) == 0real * 0real - 0real * 0real + 0real * x1 - 0real * x2);
    assert(val(bv2.e12) == 0real * 0real - 0real * 0real);
    assert(val(bv2.e31) == 0real * 0real - 0real * 0real);
    assert(val(bv2.e23) == 0real * 0real - 0real * 0real);
    assert(val(bv3.e01) == -(0real * 0real) && val(bv3.e02) == -(0real * 0real) && val(bv3.e03)
        == -(0real * 0real));
    assert(val(bv4.e01) == -(0real * 0real) && val(bv4.e02) == -(0real * 0real) && val(bv4.e03)
        == -(0real * 0real));
    assert(val(p0.e0123) == 1real * 0real);
    assert(val(p1.e0123) == 0real * x3 + 0real * x2 + 0real * x1 + 0real * 0real + 0real * 0real
        + 0real * 0real);
    assert(val(p2.e0123) == 0real * 1real);
    assert(is_translation(val, product));
    assert(val(product.bivector.e01) == x1);
    assert(val(product.bivector.e02) == x2);
    assert(val(product.bivector.e03) == x3);
    // it has the norm one, so that normalizing changes nothing
    norm2_of_motor3(val, product);
    assert(val(product.norm2_spec()) == 1real * 1real + (0real * 0real + 0real * 0real + 0real
        * 0real));
    let n = val(product.norm_spec());
    root_of_square(n, 1real);
    let made = product.normalized_spec();
    assert(val(made.scalar.0) * 1real == 1real);
    assert(val(made.bivector.e01) * 1real == x1);
    assert(val(made.bivector.e02) * 1real == x2);
    assert(val(made.bivector.e03) * 1real == x3);
    assert(val(made.bivector.e12) * 1real == 0real);
    assert(val(made.bivector.e31) * 1real == 0real);
    assert(val(made.bivector.e23) * 1real == 0real);
    assert(val(made.pseudo.e0123) * 1real == 0real);
    // and so has the identity
    norm2_of_motor3(val, i);
    assert(val(i.norm2_spec()) == 1real * 1real + (0real * 0real + 0real * 0real + 0real * 0real));
    let k = val(i.norm_spec());
    root_of_square(k, 1real);
    let same = i.normalized_spec();
    assert(val(same.scalar.0) * 1real == 1real);
    assert(val(same.bivector.e01) * 1real == 0real);
    assert(val(same.bivector.e02) * 1real == 0real);
    assert(val(same.bivector.e03) * 1real == 0real);
    assert(val(same.bivector.e12) * 1real == 0real);
    assert(val(same.bivector.e31) * 1real == 0real);
    assert(val(same.bivector.e23) * 1real == 0real);
    assert(val(same.pseudo.e0123) * 1real == 0real);
}

} // verus!
