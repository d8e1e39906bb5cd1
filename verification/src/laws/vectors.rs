//! Identities of the vectors of space: the products of three and of four
//! vectors, by their coordinates.

use vstd::prelude::*;

use crate::laws::reals::{distribute, distribute3};

verus! {

/// The first coordinate of `a x (b x c)` is that of
/// `b (a . c) - c (a . b)`.
pub proof fn triple_product(
    a1: real,
    a2: real,
    a3: real,
    b1: real,
    b2: real,
    b3: real,
    c1: real,
    c2: real,
    c3: real,
)
    ensures
        a2 * (b1 * c2 - b2 * c1) - a3 * (b3 * c1 - b1 * c3) == b1 * (a1 * c1 + a2 * c2 + a3 * c3)
            - c1 * (a1 * b1 + a2 * b2 + a3 * b3),
{
    distribute(b1 * c2, b2 * c1, a2);
    distribute(b3 * c1, b1 * c3, a3);
    distribute3(a1 * c1, a2 * c2, a3 * c3, b1);
    distribute3(a1 * b1, a2 * b2, a3 * b3, c1);
    assert(a2 * (b1 * c2) == b1 * (a2 * c2)) by (nonlinear_arith);
    assert(a2 * (b2 * c1) == c1 * (a2 * b2)) by (nonlinear_arith);
    assert(a3 * (b3 * c1) == c1 * (a3 * b3)) by (nonlinear_arith);
    assert(a3 * (b1 * c3) == b1 * (a3 * c3)) by (nonlinear_arith);
    assert(b1 * (a1 * c1) == c1 * (a1 * b1)) by (nonlinear_arith);
}

/// The inner product of two cross products: `(a x b) . (c x d)` is
/// `(a . c) (b . d) - (a . d) (b . c)`.
pub proof fn product_of_cross_products(
    a1: real,
    a2: real,
    a3: real,
    b1: real,
    b2: real,
    b3: real,
    c1: real,
    c2: real,
    c3: real,
    d1: real,
    d2: real,
    d3: real,
)
    ensures
        (a2 * b3 - a3 * b2) * (c2 * d3 - c3 * d2) + (a3 * b1 - a1 * b3) * (c3 * d1 - c1 * d3) + (a1
            * b2 - a2 * b1) * (c1 * d2 - c2 * d1) == (a1 * c1 + a2 * c2 + a3 * c3) * (b1 * d1 + b2
            * d2 + b3 * d3) - (a1 * d1 + a2 * d2 + a3 * d3) * (b1 * c1 + b2 * c2 + b3 * c3),
{
    distribute(a2 * b3, a3 * b2, c2 * d3 - c3 * d2);
    distribute(c2 * d3, c3 * d2, a2 * b3);
    distribute(c2 * d3, c3 * d2, a3 * b2);
    distribute(a3 * b1, a1 * b3, c3 * d1 - c1 * d3);
    distribute(c3 * d1, c1 * d3, a3 * b1);
    distribute(c3 * d1, c1 * d3, a1 * b3);
    distribute(a1 * b2, a2 * b1, c1 * d2 - c2 * d1);
    distribute(c1 * d2, c2 * d1, a1 * b2);
    distribute(c1 * d2, c2 * d1, a2 * b1);
    distribute3(a1 * c1, a2 * c2, a3 * c3, b1 * d1 + b2 * d2 + b3 * d3);
    distribute3(a1 * d1, a2 * d2, a3 * d3, b1 * c1 + b2 * c2 + b3 * c3);
    distribute3(b1 * d1, b2 * d2, b3 * d3, a1 * c1);
    distribute3(b1 * c1, b2 * c2, b3 * c3, a1 * d1);
    distribute3(b1 * d1, b2 * d2, b3 * d3, a2 * c2);
    distribute3(b1 * c1, b2 * c2, b3 * c3, a2 * d2);
    distribute3(b1 * d1, b2 * d2, b3 * d3, a3 * c3);
    distribute3(b1 * c1, b2 * c2, b3 * c3, a3 * d3);
    assert((a2 * b3) * (c2 * d3) == (a2 * c2) * (b3 * d3)) by (nonlinear_arith);
    assert((a2 * b3) * (c3 * d2) == (a2 * d2) * (b3 * c3)) by (nonlinear_arith);
    assert((a3 * b2) * (c2 * d3) == (a3 * d3) * (b2 * c2)) by (nonlinear_arith);
    assert((a3 * b2) * (c3 * d2) == (a3 * c3) * (b2 * d2)) by (nonlinear_arith);
    assert((a3 * b1) * (c3 * d1) == (a3 * c3) * (b1 * d1)) by (nonlinear_arith);
    assert((a3 * b1) * (c1 * d3) == (a3 * d3) * (b1 * c1)) by (nonlinear_arith);
    assert((a1 * b3) * (c3 * d1) == (a1 * d1) * (b3 * c3)) by (nonlinear_arith);
    assert((a1 * b3) * (c1 * d3) == (a1 * c1) * (b3 * d3)) by (nonlinear_arith);
    assert((a1 * b2) * (c1 * d2) == (a1 * c1) * (b2 * d2)) by (nonlinear_arith);
    assert((a1 * b2) * (c2 * d1) == (a1 * d1) * (b2 * c2)) by (nonlinear_arith);
    assert((a2 * b1) * (c1 * d2) == (a2 * d2) * (b1 * c1)) by (nonlinear_arith);
    assert((a2 * b1) * (c2 * d1) == (a2 * c2) * (b1 * d1)) by (nonlinear_arith);
    assert((a1 * c1) * (b1 * d1) == (a1 * d1) * (b1 * c1)) by (nonlinear_arith);
    assert((a2 * c2) * (b2 * d2) == (a2 * d2) * (b2 * c2)) by (nonlinear_arith);
    assert((a3 * c3) * (b3 * d3) == (a3 * d3) * (b3 * c3)) by (nonlinear_arith);
}

/// Two factors of a mixed product change places, and the product its
/// sign: `b . (t x e)` is `-(t . (b x e))`.
pub proof fn swap_in_mixed_product(
    b1: real,
    b2: real,
    b3: real,
    t1: real,
    t2: real,
    t3: real,
    e1: real,
    e2: real,
    e3: real,
)
    ensures
        b1 * (t2 * e3 - t3 * e2) + b2 * (t3 * e1 - t1 * e3) + b3 * (t1 * e2 - t2 * e1) == -(t1 * (b2
            * e3 - b3 * e2) + t2 * (b3 * e1 - b1 * e3) + t3 * (b1 * e2 - b2 * e1)),
{
    distribute(t2 * e3, t3 * e2, b1);
    distribute(t3 * e1, t1 * e3, b2);
    distribute(t1 * e2, t2 * e1, b3);
    distribute(b2 * e3, b3 * e2, t1);
    distribute(b3 * e1, b1 * e3, t2);
    distribute(b1 * e2, b2 * e1, t3);
    assert(b1 * (t2 * e3) == t2 * (b1 * e3)) by (nonlinear_arith);
    assert(b1 * (t3 * e2) == t3 * (b1 * e2)) by (nonlinear_arith);
    assert(b2 * (t3 * e1) == t3 * (b2 * e1)) by (nonlinear_arith);
    assert(b2 * (t1 * e3) == t1 * (b2 * e3)) by (nonlinear_arith);
    assert(b3 * (t1 * e2) == t1 * (b3 * e2)) by (nonlinear_arith);
    assert(b3 * (t2 * e1) == t2 * (b3 * e1)) by (nonlinear_arith);
}

/// The inner product of a vector `b` with the sum `k p - h a`.
pub proof fn inner_product_of_a_sum(
    b1: real,
    b2: real,
    b3: real,
    p1: real,
    p2: real,
    p3: real,
    a1: real,
    a2: real,
    a3: real,
    k: real,
    h: real,
)
    ensures
        b1 * (k * p1 - h * a1) + b2 * (k * p2 - h * a2) + b3 * (k * p3 - h * a3) == k * (b1 * p1
            + b2 * p2 + b3 * p3) - h * (b1 * a1 + b2 * a2 + b3 * a3),
{
    distribute(k * p1, h * a1, b1);
    distribute(k * p2, h * a2, b2);
    distribute(k * p3, h * a3, b3);
    distribute3(b1 * p1, b2 * p2, b3 * p3, k);
    distribute3(b1 * a1, b2 * a2, b3 * a3, h);
    assert(b1 * (k * p1) == k * (b1 * p1)) by (nonlinear_arith);
    assert(b2 * (k * p2) == k * (b2 * p2)) by (nonlinear_arith);
    assert(b3 * (k * p3) == k * (b3 * p3)) by (nonlinear_arith);
    assert(b1 * (h * a1) == h * (b1 * a1)) by (nonlinear_arith);
    assert(b2 * (h * a2) == h * (b2 * a2)) by (nonlinear_arith);
    assert(b3 * (h * a3) == h * (b3 * a3)) by (nonlinear_arith);
}

} // verus!
