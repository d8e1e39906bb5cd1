//! Reflecting a point or a line twice in a line gives it back.

use core::ops::{Add, BitOr, BitXor, Mul, Neg, Not, Sub};
use vstd::prelude::*;
use vstd::std_specs::ops::{AddSpec, BitOrSpec, BitXorSpec, MulSpec, NegSpec, NotSpec, SubSpec};

use crate::laws::exact::exact;
use crate::laws::reals::{distribute, distribute3, regroup};
use crate::pga::line::Line2;
use crate::pga::point::Point2;
use crate::scalar::Num;

verus! {

/// In an exact field, the mirror image in the line `a x + b y + c = 0`
/// of the point with the coefficients `x = e20`, `y = e01` and the
/// weight `w` has the weight `-(a * a + b * b) * w` and the coefficients
///
/// - `(a * a - b * b) * x + 2 * a * b * y + 2 * a * c * w` and
/// - `2 * a * b * x - (a * a - b * b) * y + 2 * b * c * w`.
pub proof fn line_reflection_of_point<T: Num>(
    val: spec_fn(T) -> real,
    line: Line2<T>,
    point: Point2<T>,
)
    requires
        exact(val),
    ensures
        ({
            let (a, b, c) = (val(line.0.e1), val(line.0.e2), val(line.0.e0));
            let (x, y, w) = (val(point.0.e20), val(point.0.e01), val(point.0.e12));
            let r = line.reflect_point_spec(point).0;
            &&& val(r.e12) == -((a * a + b * b) * w)
            &&& val(r.e20) == (a * a - b * b) * x + (2real * (a * b)) * y + (2real * (a * c)) * w
            &&& val(r.e01) == (2real * (a * b)) * x - (a * a - b * b) * y + (2real * (b * c)) * w
        }),
{
    let (a, b, c) = (val(line.0.e1), val(line.0.e2), val(line.0.e0));
    let (x, y, w) = (val(point.0.e20), val(point.0.e01), val(point.0.e12));
    let (v, p) = line.0.mul_spec(point.0);
    let (_s, first) = v.mul_spec(line.0.not_spec());
    let second = p.mul_spec(line.0.not_spec());
    let r = line.reflect_point_spec(point).0;
    assert(r == first.add_spec(second));
    let (v0, v1, v2) = (val(v.e0), val(v.e1), val(v.e2));
    let q = val(p.e012);
    assert(v0 == b * x - a * y);
    assert(v1 == -(b * w));
    assert(v2 == a * w);
    assert(q == c * w + a * x + b * y);
    assert(val(r.e01) == (v0 * a - v1 * c) + q * b);
    assert(val(r.e20) == (v2 * c - v0 * b) + q * a);
    assert(val(r.e12) == (v1 * b - v2 * a) + 0real);
    // the weight
    assert((-(b * w)) * b == -((b * b) * w)) by (nonlinear_arith);
    assert((a * w) * a == (a * a) * w) by (nonlinear_arith);
    distribute(a * a, b * b, w);
    // the products of the sums
    distribute(b * x, a * y, a);
    distribute(b * x, a * y, b);
    distribute3(c * w, a * x, b * y, a);
    distribute3(c * w, a * x, b * y, b);
    distribute(a * a, b * b, x);
    distribute(a * a, b * b, y);
    // their monomials
    assert((b * x) * a == (a * b) * x) by (nonlinear_arith);
    assert((a * y) * a == (a * a) * y) by (nonlinear_arith);
    assert((b * x) * b == (b * b) * x) by (nonlinear_arith);
    assert((a * y) * b == (a * b) * y) by (nonlinear_arith);
    assert((c * w) * a == (a * c) * w) by (nonlinear_arith);
    assert((a * x) * a == (a * a) * x) by (nonlinear_arith);
    assert((b * y) * a == (a * b) * y) by (nonlinear_arith);
    assert((c * w) * b == (b * c) * w) by (nonlinear_arith);
    assert((a * x) * b == (a * b) * x) by (nonlinear_arith);
    assert((b * y) * b == (b * b) * y) by (nonlinear_arith);
    assert((-(b * w)) * c == -((b * c) * w)) by (nonlinear_arith);
    assert((a * w) * c == (a * c) * w) by (nonlinear_arith);
    assert((2real * (a * b)) * x == 2real * ((a * b) * x)) by (nonlinear_arith);
    assert((2real * (a * b)) * y == 2real * ((a * b) * y)) by (nonlinear_arith);
    assert((2real * (a * c)) * w == 2real * ((a * c) * w)) by (nonlinear_arith);
    assert((2real * (b * c)) * w == 2real * ((b * c) * w)) by (nonlinear_arith);
}

/// Reflecting a point twice in one line gives the point back.
///
/// In an exact field the point comes back multiplied by the square of
/// the line's squared norm: it is the same point, and it has the same
/// coefficients where the line is normalized.
pub proof fn line_reflection_is_an_involution<T: Num>(
    val: spec_fn(T) -> real,
    line: Line2<T>,
    point: Point2<T>,
)
    requires
        exact(val),
    ensures
        ({
            let n = val(line.0.norm2_spec());
            let twice = line.reflect_point_spec(line.reflect_point_spec(point)).0;
            &&& val(twice.e01) == (n * n) * val(point.0.e01)
            &&& val(twice.e20) == (n * n) * val(point.0.e20)
            &&& val(twice.e12) == (n * n) * val(point.0.e12)
        }),
{
    let once = line.reflect_point_spec(point);
    line_reflection_of_point(val, line, point);
    line_reflection_of_point(val, line, once);
    let (a, b, c) = (val(line.0.e1), val(line.0.e2), val(line.0.e0));
    let (x, y, w) = (val(point.0.e20), val(point.0.e01), val(point.0.e12));
    let (x1, y1, w1) = (val(once.0.e20), val(once.0.e01), val(once.0.e12));
    let n = val(line.0.norm2_spec());
    assert(n == a * a + b * b);
    // the reflection as a matrix: its entries
    let d = a * a - b * b;
    let e = 2real * (a * b);
    let k = 2real * (a * c);
    let l = 2real * (b * c);
    assert(x1 == d * x + e * y + k * w);
    assert(y1 == e * x - d * y + l * w);
    assert(w1 == -(n * w));
    // the square of the matrix
    assert(d * d + e * e == n * n) by (nonlinear_arith)
        requires
            d == a * a - b * b,
            e == 2real * (a * b),
            n == a * a + b * b,
    ;
    assert(d * k + e * l - k * n == 0real) by (nonlinear_arith)
        requires
            d == a * a - b * b,
            e == 2real * (a * b),
            k == 2real * (a * c),
            l == 2real * (b * c),
            n == a * a + b * b,
    ;
    assert(e * k - d * l - l * n == 0real) by (nonlinear_arith)
        requires
            d == a * a - b * b,
            e == 2real * (a * b),
            k == 2real * (a * c),
            l == 2real * (b * c),
            n == a * a + b * b,
    ;
    // the matrix applied twice
    distribute3(d * x, e * y, k * w, d);
    distribute3(e * x, -(d * y), l * w, e);
    distribute3(d * x, e * y, k * w, e);
    distribute3(e * x, -(d * y), l * w, d);
    assert(e * x - d * y + l * w == e * x + (-(d * y)) + l * w);
    assert(d * (d * x) == (d * d) * x) by (nonlinear_arith);
    assert(d * (e * y) == (d * e) * y) by (nonlinear_arith);
    assert(d * (k * w) == (d * k) * w) by (nonlinear_arith);
    assert(e * (e * x) == (e * e) * x) by (nonlinear_arith);
    assert(e * (-(d * y)) == -((d * e) * y)) by (nonlinear_arith);
    assert(e * (l * w) == (e * l) * w) by (nonlinear_arith);
    assert(e * (d * x) == (d * e) * x) by (nonlinear_arith);
    assert(e * (e * y) == (e * e) * y) by (nonlinear_arith);
    assert(e * (k * w) == (e * k) * w) by (nonlinear_arith);
    assert(d * (e * x) == (d * e) * x) by (nonlinear_arith);
    assert(d * (-(d * y)) == -((d * d) * y)) by (nonlinear_arith);
    assert(d * (l * w) == (d * l) * w) by (nonlinear_arith);
    assert(k * (-(n * w)) == -((k * n) * w)) by (nonlinear_arith);
    assert(l * (-(n * w)) == -((l * n) * w)) by (nonlinear_arith);
    assert(n * (n * w) == (n * n) * w) by (nonlinear_arith);
    distribute(d * d, e * e, x);
    distribute(d * d, e * e, y);
    distribute3(d * k, e * l, -(k * n), w);
    distribute3(e * k, -(d * l), -(l * n), w);
    assert((-(k * n)) * w == -((k * n) * w)) by (nonlinear_arith);
    assert((-(l * n)) * w == -((l * n) * w)) by (nonlinear_arith);
    assert((-(d * l)) * w == -((d * l) * w)) by (nonlinear_arith);
    assert(n * (-(n * w)) == -((n * n) * w)) by (nonlinear_arith);
    let twice = line.reflect_point_spec(once).0;
    let (x2, y2, w2) = (val(twice.e20), val(twice.e01), val(twice.e12));
    assert(w2 == -(n * w1));
    assert(w2 == (n * n) * w);
    assert(x2 == d * x1 + e * y1 + k * w1);
    assert(x2 == (d * d + e * e) * x + (d * k + e * l - k * n) * w);
    assert(x2 == (n * n) * x);
    assert(y2 == e * x1 - d * y1 + l * w1);
    assert(y2 == (d * d + e * e) * y + (e * k - d * l - l * n) * w);
    assert(y2 == (n * n) * y);
}

/// In an exact field, the mirror image of a line `l` in a line `k` is
/// twice `k`, as often as the inner product of the two, less `l`, as
/// often as the squared norm of `k`.
pub proof fn line_reflection_of_line<T: Num>(val: spec_fn(T) -> real, mirror: Line2<T>, line: Line2<T>)
    requires
        exact(val),
    ensures
        ({
            let (k0, k1, k2) = (val(mirror.0.e0), val(mirror.0.e1), val(mirror.0.e2));
            let (l0, l1, l2) = (val(line.0.e0), val(line.0.e1), val(line.0.e2));
            let s = k1 * l1 + k2 * l2;
            let n = k1 * k1 + k2 * k2;
            let r = mirror.reflect_line_spec(line).0;
            &&& val(r.e0) == 2real * (s * k0) - n * l0
            &&& val(r.e1) == 2real * (s * k1) - n * l1
            &&& val(r.e2) == 2real * (s * k2) - n * l2
        }),
{
    let (k0, k1, k2) = (val(mirror.0.e0), val(mirror.0.e1), val(mirror.0.e2));
    let (l0, l1, l2) = (val(line.0.e0), val(line.0.e1), val(line.0.e2));
    let (sc, bv) = mirror.0.mul_spec(line.0);
    let a = mirror.0.mul_spec(sc);
    let (b, _p) = bv.mul_spec(mirror.0);
    let r = mirror.reflect_line_spec(line).0;
    assert(r == a.add_spec(b));
    let s = k1 * l1 + k2 * l2;
    let n = k1 * k1 + k2 * k2;
    assert(val(sc.0) == s);
    let (b1, b2, b3) = (val(bv.e01), val(bv.e20), val(bv.e12));
    assert(b1 == k0 * l1 - k1 * l0);
    assert(b2 == k2 * l0 - k0 * l2);
    assert(b3 == k1 * l2 - k2 * l1);
    assert(val(a.e0) == k0 * s && val(a.e1) == k1 * s && val(a.e2) == k2 * s);
    assert(val(b.e0) == b1 * k1 - b2 * k2);
    assert(val(b.e1) == b3 * k2);
    assert(val(b.e2) == -(b3 * k1));
    distribute(k1 * l1, k2 * l2, k0);
    distribute(k1 * l1, k2 * l2, k1);
    distribute(k1 * l1, k2 * l2, k2);
    distribute(k0 * l1, k1 * l0, k1);
    distribute(k2 * l0, k0 * l2, k2);
    distribute(k1 * l2, k2 * l1, k2);
    distribute(k1 * l2, k2 * l1, k1);
    distribute(k1 * k1, k2 * k2, l0);
    distribute(k1 * k1, k2 * k2, l1);
    distribute(k1 * k1, k2 * k2, l2);
    regroup(k0, s, 1real);
    regroup(k1, s, 1real);
    regroup(k2, s, 1real);
    assert((k0 * l1) * k1 == (k1 * l1) * k0) by (nonlinear_arith);
    assert((k1 * l0) * k1 == (k1 * k1) * l0) by (nonlinear_arith);
    assert((k2 * l0) * k2 == (k2 * k2) * l0) by (nonlinear_arith);
    assert((k0 * l2) * k2 == (k2 * l2) * k0) by (nonlinear_arith);
    assert((k1 * l2) * k2 == (k2 * l2) * k1) by (nonlinear_arith);
    assert((k2 * l1) * k2 == (k2 * k2) * l1) by (nonlinear_arith);
    assert((k1 * l2) * k1 == (k1 * k1) * l2) by (nonlinear_arith);
    assert((k2 * l1) * k1 == (k1 * l1) * k2) by (nonlinear_arith);
    assert((k1 * l1) * k1 == (k1 * k1) * l1) by (nonlinear_arith);
    assert((k2 * l2) * k2 == (k2 * k2) * l2) by (nonlinear_arith);
}

/// Reflecting a line twice in one line gives the line back, and the
/// mirror is its own image.
///
/// In an exact field the line comes back multiplied by the square of
/// the squared norm of the mirror, and the image of the mirror is the
/// mirror multiplied by its squared norm.
pub proof fn line_reflection_of_line_is_an_involution<T: Num>(
    val: spec_fn(T) -> real,
    mirror: Line2<T>,
    line: Line2<T>,
)
    requires
        exact(val),
    ensures
        ({
            let (k1, k2) = (val(mirror.0.e1), val(mirror.0.e2));
            let n = k1 * k1 + k2 * k2;
            let twice = mirror.reflect_line_spec(mirror.reflect_line_spec(line)).0;
            let own = mirror.reflect_line_spec(mirror).0;
            &&& val(twice.e0) == (n * n) * val(line.0.e0)
            &&& val(twice.e1) == (n * n) * val(line.0.e1)
            &&& val(twice.e2) == (n * n) * val(line.0.e2)
            &&& val(own.e0) == n * val(mirror.0.e0)
            &&& val(own.e1) == n * val(mirror.0.e1)
            &&& val(own.e2) == n * val(mirror.0.e2)
        }),
{
    let once = mirror.reflect_line_spec(line);
    line_reflection_of_line(val, mirror, line);
    line_reflection_of_line(val, mirror, once);
    line_reflection_of_line(val, mirror, mirror);
    let (k0, k1, k2) = (val(mirror.0.e0), val(mirror.0.e1), val(mirror.0.e2));
    let (l0, l1, l2) = (val(line.0.e0), val(line.0.e1), val(line.0.e2));
    let s = k1 * l1 + k2 * l2;
    let n = k1 * k1 + k2 * k2;
    let (o0, o1, o2) = (val(once.0.e0), val(once.0.e1), val(once.0.e2));
    // the inner product of the mirror and the image
    let t = k1 * o1 + k2 * o2;
    distribute(2real * (s * k1), n * l1, k1);
    distribute(2real * (s * k2), n * l2, k2);
    assert(k1 * (2real * (s * k1)) == 2real * (s * (k1 * k1))) by (nonlinear_arith);
    assert(k2 * (2real * (s * k2)) == 2real * (s * (k2 * k2))) by (nonlinear_arith);
    assert(k1 * (n * l1) == n * (k1 * l1)) by (nonlinear_arith);
    assert(k2 * (n * l2) == n * (k2 * l2)) by (nonlinear_arith);
    distribute(k1 * k1, k2 * k2, s);
    distribute(k1 * l1, k2 * l2, n);
    regroup(s, n, 1real);
    assert(t == n * s);
    // twice
    let twice = mirror.reflect_line_spec(once).0;
    assert(val(twice.e0) == 2real * (t * k0) - n * o0);
    assert(val(twice.e1) == 2real * (t * k1) - n * o1);
    assert(val(twice.e2) == 2real * (t * k2) - n * o2);
    distribute(2real * (s * k0), n * l0, n);
    distribute(2real * (s * k1), n * l1, n);
    distribute(2real * (s * k2), n * l2, n);
    assert((n * s) * k0 == n * (s * k0)) by (nonlinear_arith);
    assert((n * s) * k1 == n * (s * k1)) by (nonlinear_arith);
    assert((n * s) * k2 == n * (s * k2)) by (nonlinear_arith);
    assert(n * (2real * (s * k0)) == 2real * (n * (s * k0))) by (nonlinear_arith);
    assert(n * (2real * (s * k1)) == 2real * (n * (s * k1))) by (nonlinear_arith);
    assert(n * (2real * (s * k2)) == 2real * (n * (s * k2))) by (nonlinear_arith);
    regroup(n, n, l0);
    regroup(n, n, l1);
    regroup(n, n, l2);
    // the mirror itself
    regroup(n, k0, 1real);
    regroup(n, k1, 1real);
    regroup(n, k2, 1real);
}

} // verus!
