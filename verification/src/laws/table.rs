//! The multiplication table of the algebra.
//!
//! The algebra has four generators: `e0`, which squares to zero, and
//! `e1`, `e2`, `e3`, which square to one. Two different generators
//! anticommute. A blade is a product of different generators in
//! ascending order, and a multivector is a sum of multiples of the
//! sixteen blades. The algebra of the plane is the part without `e3`.
//!
//! The elements of the library name some of their blades in another
//! order: `e20`, `e31`, `e021` and `e032` are the negatives of `e02`,
//! `e13`, `e012` and `e023`.

use vstd::prelude::*;

use crate::pga::elements::{
    BiVector2,
    BiVector3,
    EBiVector3,
    Pseudo2,
    Pseudo3,
    Scalar2,
    Scalar3,
    TriVector3,
    Vector2,
    Vector3,
    XBiVector3,
};
use crate::scalar::Num;

verus! {

/// A multivector over the real numbers, by its coefficients on the
/// sixteen blades.
pub struct Multivector {
    /// The scalar part.
    pub s: real,
    /// The coefficient of `e0`.
    pub e0: real,
    /// The coefficient of `e1`.
    pub e1: real,
    /// The coefficient of `e2`.
    pub e2: real,
    /// The coefficient of `e3`.
    pub e3: real,
    /// The coefficient of `e01`.
    pub e01: real,
    /// The coefficient of `e02`.
    pub e02: real,
    /// The coefficient of `e03`.
    pub e03: real,
    /// The coefficient of `e12`.
    pub e12: real,
    /// The coefficient of `e13`.
    pub e13: real,
    /// The coefficient of `e23`.
    pub e23: real,
    /// The coefficient of `e012`.
    pub e012: real,
    /// The coefficient of `e013`.
    pub e013: real,
    /// The coefficient of `e023`.
    pub e023: real,
    /// The coefficient of `e123`.
    pub e123: real,
    /// The coefficient of `e0123`.
    pub e0123: real,
}

/// The multivector zero.
pub open spec fn nothing() -> Multivector {
    Multivector {
        s: 0real,
        e0: 0real,
        e1: 0real,
        e2: 0real,
        e3: 0real,
        e01: 0real,
        e02: 0real,
        e03: 0real,
        e12: 0real,
        e13: 0real,
        e23: 0real,
        e012: 0real,
        e013: 0real,
        e023: 0real,
        e123: 0real,
        e0123: 0real,
    }
}

/// The sum of two multivectors.
pub open spec fn plus(a: Multivector, b: Multivector) -> Multivector {
    Multivector {
        s: a.s + b.s,
        e0: a.e0 + b.e0,
        e1: a.e1 + b.e1,
        e2: a.e2 + b.e2,
        e3: a.e3 + b.e3,
        e01: a.e01 + b.e01,
        e02: a.e02 + b.e02,
        e03: a.e03 + b.e03,
        e12: a.e12 + b.e12,
        e13: a.e13 + b.e13,
        e23: a.e23 + b.e23,
        e012: a.e012 + b.e012,
        e013: a.e013 + b.e013,
        e023: a.e023 + b.e023,
        e123: a.e123 + b.e123,
        e0123: a.e0123 + b.e0123,
    }
}

/// The part of a multivector of one grade: the coefficients of the
/// blades that are products of `grade` generators.
pub open spec fn part(a: Multivector, grade: int) -> Multivector {
    Multivector {
        s: if grade == 0 {
            a.s
        } else {
            0real
        },
        e0: if grade == 1 {
            a.e0
        } else {
            0real
        },
        e1: if grade == 1 {
            a.e1
        } else {
            0real
        },
        e2: if grade == 1 {
            a.e2
        } else {
            0real
        },
        e3: if grade == 1 {
            a.e3
        } else {
            0real
        },
        e01: if grade == 2 {
            a.e01
        } else {
            0real
        },
        e02: if grade == 2 {
            a.e02
        } else {
            0real
        },
        e03: if grade == 2 {
            a.e03
        } else {
            0real
        },
        e12: if grade == 2 {
            a.e12
        } else {
            0real
        },
        e13: if grade == 2 {
            a.e13
        } else {
            0real
        },
        e23: if grade == 2 {
            a.e23
        } else {
            0real
        },
        e012: if grade == 3 {
            a.e012
        } else {
            0real
        },
        e013: if grade == 3 {
            a.e013
        } else {
            0real
        },
        e023: if grade == 3 {
            a.e023
        } else {
            0real
        },
        e123: if grade == 3 {
            a.e123
        } else {
            0real
        },
        e0123: if grade == 4 {
            a.e0123
        } else {
            0real
        },
    }
}

/// The reverse of a multivector: every blade with its generators in the
/// opposite order. That changes the sign of the blades of two and of
/// three generators.
pub open spec fn reverse(a: Multivector) -> Multivector {
    Multivector {
        s: a.s,
        e0: a.e0,
        e1: a.e1,
        e2: a.e2,
        e3: a.e3,
        e01: -a.e01,
        e02: -a.e02,
        e03: -a.e03,
        e12: -a.e12,
        e13: -a.e13,
        e23: -a.e23,
        e012: -a.e012,
        e013: -a.e013,
        e023: -a.e023,
        e123: -a.e123,
        e0123: a.e0123,
    }
}

/// The geometric product of two multivectors: the sum, over every pair
/// of a blade of `a` and a blade of `b`, of the product of the two
/// coefficients on the product of the two blades. The product of two
/// blades is the blade of the generators that occur in one of them,
/// with the sign of the exchanges that bring the generators in order,
/// and zero where `e0` occurs in both.
pub open spec fn geometric(a: Multivector, b: Multivector) -> Multivector {
    Multivector {
        s: a.s * b.s + a.e1 * b.e1 + a.e2 * b.e2 + a.e3 * b.e3 - a.e12 * b.e12
            - a.e13 * b.e13 - a.e23 * b.e23 - a.e123 * b.e123,
        e0: a.s * b.e0 + a.e0 * b.s - a.e1 * b.e01 - a.e2 * b.e02 - a.e3 * b.e03
            + a.e01 * b.e1 + a.e02 * b.e2 + a.e03 * b.e3 - a.e12 * b.e012 - a.e13 * b.e013
            - a.e23 * b.e023 - a.e012 * b.e12 - a.e013 * b.e13 - a.e023 * b.e23
            + a.e123 * b.e0123 - a.e0123 * b.e123,
        e1: a.s * b.e1 + a.e1 * b.s - a.e2 * b.e12 - a.e3 * b.e13 + a.e12 * b.e2
            + a.e13 * b.e3 - a.e23 * b.e123 - a.e123 * b.e23,
        e2: a.s * b.e2 + a.e1 * b.e12 + a.e2 * b.s - a.e3 * b.e23 - a.e12 * b.e1
            + a.e13 * b.e123 + a.e23 * b.e3 + a.e123 * b.e13,
        e3: a.s * b.e3 + a.e1 * b.e13 + a.e2 * b.e23 + a.e3 * b.s - a.e12 * b.e123
            - a.e13 * b.e1 - a.e23 * b.e2 - a.e123 * b.e12,
        e01: a.s * b.e01 + a.e0 * b.e1 - a.e1 * b.e0 + a.e2 * b.e012 + a.e3 * b.e013
            + a.e01 * b.s - a.e02 * b.e12 - a.e03 * b.e13 + a.e12 * b.e02 + a.e13 * b.e03
            - a.e23 * b.e0123 + a.e012 * b.e2 + a.e013 * b.e3 - a.e023 * b.e123
            + a.e123 * b.e023 - a.e0123 * b.e23,
        e02: a.s * b.e02 + a.e0 * b.e2 - a.e1 * b.e012 - a.e2 * b.e0 + a.e3 * b.e023
            + a.e01 * b.e12 + a.e02 * b.s - a.e03 * b.e23 - a.e12 * b.e01 + a.e13 * b.e0123
            + a.e23 * b.e03 - a.e012 * b.e1 + a.e013 * b.e123 + a.e023 * b.e3
            - a.e123 * b.e013 + a.e0123 * b.e13,
        e03: a.s * b.e03 + a.e0 * b.e3 - a.e1 * b.e013 - a.e2 * b.e023 - a.e3 * b.e0
            + a.e01 * b.e13 + a.e02 * b.e23 + a.e03 * b.s - a.e12 * b.e0123 - a.e13 * b.e01
            - a.e23 * b.e02 - a.e012 * b.e123 - a.e013 * b.e1 - a.e023 * b.e2
            + a.e123 * b.e012 - a.e0123 * b.e12,
        e12: a.s * b.e12 + a.e1 * b.e2 - a.e2 * b.e1 + a.e3 * b.e123 + a.e12 * b.s
            - a.e13 * b.e23 + a.e23 * b.e13 + a.e123 * b.e3,
        e13: a.s * b.e13 + a.e1 * b.e3 - a.e2 * b.e123 - a.e3 * b.e1 + a.e12 * b.e23
            + a.e13 * b.s - a.e23 * b.e12 - a.e123 * b.e2,
        e23: a.s * b.e23 + a.e1 * b.e123 + a.e2 * b.e3 - a.e3 * b.e2 - a.e12 * b.e13
            + a.e13 * b.e12 + a.e23 * b.s + a.e123 * b.e1,
        e012: a.s * b.e012 + a.e0 * b.e12 - a.e1 * b.e02 + a.e2 * b.e01 - a.e3 * b.e0123
            + a.e01 * b.e2 - a.e02 * b.e1 + a.e03 * b.e123 + a.e12 * b.e0 - a.e13 * b.e023
            + a.e23 * b.e013 + a.e012 * b.s - a.e013 * b.e23 + a.e023 * b.e13
            - a.e123 * b.e03 + a.e0123 * b.e3,
        e013: a.s * b.e013 + a.e0 * b.e13 - a.e1 * b.e03 + a.e2 * b.e0123 + a.e3 * b.e01
            + a.e01 * b.e3 - a.e02 * b.e123 - a.e03 * b.e1 + a.e12 * b.e023 + a.e13 * b.e0
            - a.e23 * b.e012 + a.e012 * b.e23 + a.e013 * b.s - a.e023 * b.e12
            + a.e123 * b.e02 - a.e0123 * b.e2,
        e023: a.s * b.e023 + a.e0 * b.e23 - a.e1 * b.e0123 - a.e2 * b.e03 + a.e3 * b.e02
            + a.e01 * b.e123 + a.e02 * b.e3 - a.e03 * b.e2 - a.e12 * b.e013 + a.e13 * b.e012
            + a.e23 * b.e0 - a.e012 * b.e13 + a.e013 * b.e12 + a.e023 * b.s - a.e123 * b.e01
            + a.e0123 * b.e1,
        e123: a.s * b.e123 + a.e1 * b.e23 - a.e2 * b.e13 + a.e3 * b.e12 + a.e12 * b.e3
            - a.e13 * b.e2 + a.e23 * b.e1 + a.e123 * b.s,
        e0123: a.s * b.e0123 + a.e0 * b.e123 - a.e1 * b.e023 + a.e2 * b.e013 - a.e3 * b.e012
            + a.e01 * b.e23 - a.e02 * b.e13 + a.e03 * b.e12 + a.e12 * b.e03 - a.e13 * b.e02
            + a.e23 * b.e01 + a.e012 * b.e3 - a.e013 * b.e2 + a.e023 * b.e1 - a.e123 * b.e0
            + a.e0123 * b.s,
    }
}

/// The multivector that a scalar of the plane's algebra stands for, its
/// coefficients read as real numbers by `val`.
pub open spec fn of_scalar2<T: Num>(val: spec_fn(T) -> real, x: Scalar2<T>) -> Multivector {
    Multivector {
        s: val(x.0),
        e0: 0real,
        e1: 0real,
        e2: 0real,
        e3: 0real,
        e01: 0real,
        e02: 0real,
        e03: 0real,
        e12: 0real,
        e13: 0real,
        e23: 0real,
        e012: 0real,
        e013: 0real,
        e023: 0real,
        e123: 0real,
        e0123: 0real,
    }
}

/// The multivector that a vector of the plane's algebra stands for, its
/// coefficients read as real numbers by `val`.
pub open spec fn of_vector2<T: Num>(val: spec_fn(T) -> real, x: Vector2<T>) -> Multivector {
    Multivector {
        s: 0real,
        e0: val(x.e0),
        e1: val(x.e1),
        e2: val(x.e2),
        e3: 0real,
        e01: 0real,
        e02: 0real,
        e03: 0real,
        e12: 0real,
        e13: 0real,
        e23: 0real,
        e012: 0real,
        e013: 0real,
        e023: 0real,
        e123: 0real,
        e0123: 0real,
    }
}

/// The multivector that a bivector of the plane's algebra stands for, its
/// coefficients read as real numbers by `val`.
pub open spec fn of_bivector2<T: Num>(val: spec_fn(T) -> real, x: BiVector2<T>) -> Multivector {
    Multivector {
        s: 0real,
        e0: 0real,
        e1: 0real,
        e2: 0real,
        e3: 0real,
        e01: val(x.e01),
        e02: -val(x.e20),
        e03: 0real,
        e12: val(x.e12),
        e13: 0real,
        e23: 0real,
        e012: 0real,
        e013: 0real,
        e023: 0real,
        e123: 0real,
        e0123: 0real,
    }
}

/// The multivector that a pseudoscalar of the plane's algebra stands for, its
/// coefficients read as real numbers by `val`.
pub open spec fn of_pseudo2<T: Num>(val: spec_fn(T) -> real, x: Pseudo2<T>) -> Multivector {
    Multivector {
        s: 0real,
        e0: 0real,
        e1: 0real,
        e2: 0real,
        e3: 0real,
        e01: 0real,
        e02: 0real,
        e03: 0real,
        e12: 0real,
        e13: 0real,
        e23: 0real,
        e012: val(x.e012),
        e013: 0real,
        e023: 0real,
        e123: 0real,
        e0123: 0real,
    }
}

/// The multivector that a scalar of the space's algebra stands for, its
/// coefficients read as real numbers by `val`.
pub open spec fn of_scalar3<T: Num>(val: spec_fn(T) -> real, x: Scalar3<T>) -> Multivector {
    Multivector {
        s: val(x.0),
        e0: 0real,
        e1: 0real,
        e2: 0real,
        e3: 0real,
        e01: 0real,
        e02: 0real,
        e03: 0real,
        e12: 0real,
        e13: 0real,
        e23: 0real,
        e012: 0real,
        e013: 0real,
        e023: 0real,
        e123: 0real,
        e0123: 0real,
    }
}

/// The multivector that a vector of the space's algebra stands for, its
/// coefficients read as real numbers by `val`.
pub open spec fn of_vector3<T: Num>(val: spec_fn(T) -> real, x: Vector3<T>) -> Multivector {
    Multivector {
        s: 0real,
        e0: val(x.e0),
        e1: val(x.e1),
        e2: val(x.e2),
        e3: val(x.e3),
        e01: 0real,
        e02: 0real,
        e03: 0real,
        e12: 0real,
        e13: 0real,
        e23: 0real,
        e012: 0real,
        e013: 0real,
        e023: 0real,
        e123: 0real,
        e0123: 0real,
    }
}

/// The multivector that an ideal bivector of the space's algebra stands for, its
/// coefficients read as real numbers by `val`.
pub open spec fn of_ideal_bivector3<T: Num>(val: spec_fn(T) -> real, x: XBiVector3<T>) -> Multivector {
    Multivector {
        s: 0real,
        e0: 0real,
        e1: 0real,
        e2: 0real,
        e3: 0real,
        e01: val(x.e01),
        e02: val(x.e02),
        e03: val(x.e03),
        e12: 0real,
        e13: 0real,
        e23: 0real,
        e012: 0real,
        e013: 0real,
        e023: 0real,
        e123: 0real,
        e0123: 0real,
    }
}

/// The multivector that an Euclidean bivector of the space's algebra stands for, its
/// coefficients read as real numbers by `val`.
pub open spec fn of_euclidean_bivector3<T: Num>(val: spec_fn(T) -> real, x: EBiVector3<T>) -> Multivector {
    Multivector {
        s: 0real,
        e0: 0real,
        e1: 0real,
        e2: 0real,
        e3: 0real,
        e01: 0real,
        e02: 0real,
        e03: 0real,
        e12: val(x.e12),
        e13: -val(x.e31),
        e23: val(x.e23),
        e012: 0real,
        e013: 0real,
        e023: 0real,
        e123: 0real,
        e0123: 0real,
    }
}

/// The multivector that a bivector of the space's algebra stands for, its
/// coefficients read as real numbers by `val`.
pub open spec fn of_bivector3<T: Num>(val: spec_fn(T) -> real, x: BiVector3<T>) -> Multivector {
    Multivector {
        s: 0real,
        e0: 0real,
        e1: 0real,
        e2: 0real,
        e3: 0real,
        e01: val(x.e01),
        e02: val(x.e02),
        e03: val(x.e03),
        e12: val(x.e12),
        e13: -val(x.e31),
        e23: val(x.e23),
        e012: 0real,
        e013: 0real,
        e023: 0real,
        e123: 0real,
        e0123: 0real,
    }
}

/// The multivector that a trivector of the space's algebra stands for, its
/// coefficients read as real numbers by `val`.
pub open spec fn of_trivector3<T: Num>(val: spec_fn(T) -> real, x: TriVector3<T>) -> Multivector {
    Multivector {
        s: 0real,
        e0: 0real,
        e1: 0real,
        e2: 0real,
        e3: 0real,
        e01: 0real,
        e02: 0real,
        e03: 0real,
        e12: 0real,
        e13: 0real,
        e23: 0real,
        e012: -val(x.e021),
        e013: val(x.e013),
        e023: -val(x.e032),
        e123: val(x.e123),
        e0123: 0real,
    }
}

/// The multivector that a pseudoscalar of the space's algebra stands for, its
/// coefficients read as real numbers by `val`.
pub open spec fn of_pseudo3<T: Num>(val: spec_fn(T) -> real, x: Pseudo3<T>) -> Multivector {
    Multivector {
        s: 0real,
        e0: 0real,
        e1: 0real,
        e2: 0real,
        e3: 0real,
        e01: 0real,
        e02: 0real,
        e03: 0real,
        e12: 0real,
        e13: 0real,
        e23: 0real,
        e012: 0real,
        e013: 0real,
        e023: 0real,
        e123: 0real,
        e0123: val(x.e0123),
    }
}

} // verus!
