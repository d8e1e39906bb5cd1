//! Facts about the real numbers that the proofs of the laws expand and
//! cancel their products with.

use vstd::prelude::*;

verus! {

/// Multiplication distributes over a sum and over a difference.
pub proof fn distribute(p: real, q: real, s: real)
    ensures
        (p + q) * s == p * s + q * s,
        (p - q) * s == p * s - q * s,
        s * (p + q) == s * p + s * q,
        s * (p - q) == s * p - s * q,
{
    assert((p + q) * s == p * s + q * s) by (nonlinear_arith);
    assert((p - q) * s == p * s - q * s) by (nonlinear_arith);
    assert(s * (p + q) == s * p + s * q) by (nonlinear_arith);
    assert(s * (p - q) == s * p - s * q) by (nonlinear_arith);
}

/// Multiplication distributes over a sum of three.
pub proof fn distribute3(p: real, q: real, r: real, s: real)
    ensures
        (p + q + r) * s == p * s + q * s + r * s,
        s * (p + q + r) == s * p + s * q + s * r,
{
    distribute(p + q, r, s);
    distribute(p, q, s);
}

/// A factor that is not zero can be cancelled.
pub proof fn cancel(x: real, y: real, k: real)
    requires
        x * k == y * k,
        k != 0real,
    ensures
        x == y,
{
    assert((x - y) * k == x * k - y * k) by (nonlinear_arith);
    assert(x - y == 0real) by (nonlinear_arith)
        requires
            (x - y) * k == 0real,
            k != 0real,
    ;
}

/// Products can be regrouped and reordered.
pub proof fn regroup(x: real, y: real, z: real)
    ensures
        (x * y) * z == x * (y * z),
        (x * y) * z == (x * z) * y,
        x * y == y * x,
{
    assert((x * y) * z == x * (y * z)) by (nonlinear_arith);
    assert((x * y) * z == (x * z) * y) by (nonlinear_arith);
    assert(x * y == y * x) by (nonlinear_arith);
}

/// A product with zero is zero.
pub proof fn zero(x: real)
    ensures
        x * 0real == 0real,
        0real * x == 0real,
        x * (-0real) == 0real,
{
    assert(x * 0real == 0real) by (nonlinear_arith);
    assert(0real * x == 0real) by (nonlinear_arith);
    assert(x * (-0real) == 0real) by (nonlinear_arith);
}

/// A sign can be moved out of a product.
pub proof fn sign(x: real, y: real)
    ensures
        x * (-y) == -(x * y),
        (-x) * y == -(x * y),
        (-x) * (-y) == x * y,
{
    assert(x * (-y) == -(x * y)) by (nonlinear_arith);
    assert((-x) * y == -(x * y)) by (nonlinear_arith);
    assert((-x) * (-y) == x * y) by (nonlinear_arith);
}

/// The square of a number that is not zero is positive, and the
/// non-negative root of the square of a positive number is the number.
pub proof fn root_of_square(n: real, s: real)
    requires
        n * n == s * s,
        n >= 0real,
        s > 0real,
    ensures
        n == s,
        s * s != 0real,
{
    assert((n - s) * (n + s) == n * n - s * s) by (nonlinear_arith);
    assert(n + s > 0real);
    assert(n - s == 0real) by (nonlinear_arith)
        requires
            (n - s) * (n + s) == 0real,
            n + s > 0real,
    ;
    assert(s * s != 0real) by (nonlinear_arith)
        requires
            s > 0real,
    ;
}

/// The unit vector that points in the direction of a unit vector is that
/// vector.
pub proof fn unit_direction(c: real, s: real, x: real, y: real)
    requires
        c * c + s * s == 1real,
        x * x + y * y == 1real,
        c * y == s * x,
        c * x + s * y > 0real,
    ensures
        c == x,
        s == y,
{
    let k = c * x + s * y;
    // k * k + (c y - s x)^2 = (c^2 + s^2) (x^2 + y^2)
    assert((c * x + s * y) * (c * x + s * y) == (c * x) * (c * x) + 2real * ((c * x) * (s * y))
        + (s * y) * (s * y)) by (nonlinear_arith);
    assert((c * y - s * x) * (c * y - s * x) == (c * y) * (c * y) - 2real * ((c * y) * (s * x))
        + (s * x) * (s * x)) by (nonlinear_arith);
    assert((c * x) * (s * y) == (c * y) * (s * x)) by (nonlinear_arith);
    assert((c * x) * (c * x) == (c * c) * (x * x)) by (nonlinear_arith);
    assert((s * y) * (s * y) == (s * s) * (y * y)) by (nonlinear_arith);
    assert((c * y) * (c * y) == (c * c) * (y * y)) by (nonlinear_arith);
    assert((s * x) * (s * x) == (s * s) * (x * x)) by (nonlinear_arith);
    distribute(c * c, s * s, x * x + y * y);
    distribute(x * x, y * y, c * c);
    distribute(x * x, y * y, s * s);
    assert((c * y - s * x) * (c * y - s * x) == 0real * 0real);
    assert(k * k == 1real * 1real);
    root_of_square(k, 1real);
    // c = c (x^2 + y^2) = x (c x + s y)
    distribute(x * x, y * y, c);
    distribute(x * x, y * y, s);
    distribute(c * x, s * y, x);
    distribute(c * x, s * y, y);
    assert(c * (x * x) == x * (c * x)) by (nonlinear_arith);
    assert(c * (y * y) == y * (c * y)) by (nonlinear_arith);
    assert(y * (s * x) == x * (s * y)) by (nonlinear_arith);
    assert(s * (x * x) == x * (s * x)) by (nonlinear_arith);
    assert(s * (y * y) == y * (s * y)) by (nonlinear_arith);
    assert(x * (c * y) == y * (c * x)) by (nonlinear_arith);
    assert(c * 1real == x * (c * x) + y * (s * x));
    assert(c == x * 1real);
    assert(s * 1real == x * (c * y) + y * (s * y));
    assert(s == y * 1real);
}

} // verus!
