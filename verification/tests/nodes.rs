use athena::nodes::{fits, CtorNode, Node};
use athena::pga::{Line2, Motor2, Point2, Point3};
use athena::value::{Type, Value};
use athena::Num;
use std::ops::{Add, Div, Mul, Neg, Sub};

#[derive(Clone, Copy, Debug, PartialEq, PartialOrd)]
struct F(f64);

impl Add for F {
    type Output = F;
    fn add(self, rhs: F) -> F {
        F(self.0 + rhs.0)
    }
}

impl Sub for F {
    type Output = F;
    fn sub(self, rhs: F) -> F {
        F(self.0 - rhs.0)
    }
}

impl Mul for F {
    type Output = F;
    fn mul(self, rhs: F) -> F {
        F(self.0 * rhs.0)
    }
}

impl Div for F {
    type Output = F;
    fn div(self, rhs: F) -> F {
        F(self.0 / rhs.0)
    }
}

impl Neg for F {
    type Output = F;
    fn neg(self) -> F {
        F(-self.0)
    }
}

impl Num for F {
    const ZERO: Self = F(0.0);
    const EPSILON: Self = F(f64::EPSILON);
    const ONE: Self = F(1.0);
    const TWO: Self = F(2.0);

    fn operators_are_total() {}

    fn zero_and_one() {}

    fn sqrt_spec(self) -> Self {
        self.sqrt()
    }

    fn abs_spec(self) -> Self {
        self.abs()
    }

    fn sin_spec(self) -> Self {
        self.sin()
    }

    fn cos_spec(self) -> Self {
        self.cos()
    }

    fn asin_spec(self) -> Self {
        self.asin()
    }

    fn acos_spec(self) -> Self {
        self.acos()
    }

    fn tan_spec(self) -> Self {
        self.tan()
    }

    fn atan_spec(self) -> Self {
        self.atan()
    }

    fn atan2_spec(self, rhs: Self) -> Self {
        self.atan2(rhs)
    }

    fn sqrt(self) -> Self {
        F(self.0.sqrt())
    }

    fn abs(self) -> Self {
        F(self.0.abs())
    }

    fn sin(self) -> Self {
        F(self.0.sin())
    }

    fn cos(self) -> Self {
        F(self.0.cos())
    }

    fn asin(self) -> Self {
        F(self.0.asin())
    }

    fn acos(self) -> Self {
        F(self.0.acos())
    }

    fn tan(self) -> Self {
        F(self.0.tan())
    }

    fn atan(self) -> Self {
        F(self.0.atan())
    }

    fn atan2(self, rhs: Self) -> Self {
        F(self.0.atan2(rhs.0))
    }
}

fn f(x: f64) -> F {
    F(x)
}

fn point_motor() -> CtorNode<F> {
    let o = Point2::origin();
    CtorNode::PointPointMotor2 { mul: f(1.0), a: o, b: o, motor: Motor2::point_point(o, o) * f(1.0) }
}

fn line_motor() -> CtorNode<F> {
    let l = Line2::from_abc(f(1.0), f(1.0), f(0.0));
    CtorNode::LineLineMotor2 { mul: f(1.0), a: l, b: l, motor: Motor2::line_line(l, l) * f(1.0) }
}

fn reconstruct_motor() -> CtorNode<F> {
    let o = Point2::origin();
    CtorNode::ReconstructMotor2 { mul: f(1.0), a: [o, o], b: [o, o], motor: Motor2::reconstruct([o, o], [o, o]) * f(1.0) }
}

fn ctors() -> Vec<CtorNode<F>> {
    vec![
        CtorNode::Scalar { scalar: f(2.0) },
        CtorNode::Point2 { point: Point2::origin() },
        CtorNode::Line2 { line: Line2::from_abc(f(1.0), f(1.0), f(0.0)).normalized() },
        point_motor(),
        line_motor(),
        reconstruct_motor(),
        CtorNode::Point3 { point: Point3::origin() },
    ]
}

fn motor_of(node: &CtorNode<F>) -> Motor2<F> {
    match node.get() {
        Value::Motor2(m) => m,
        other => panic!("{:?}", other),
    }
}

fn point_of(v: Value<F>) -> Point2<F> {
    match v {
        Value::Point2(p) => p,
        other => panic!("{:?}", other),
    }
}

#[test]
fn constructor_nodes_have_their_titles() {
    let names: Vec<&str> = ctors().iter().map(|c| c.name()).collect();
    assert_eq!(
        names,
        vec!["Scalar", "Point2", "Line2", "Point to Point Motor2", "Line to Line Motor2", "Reconstruct Motor2", "Point3"]
    );
}

#[test]
fn constructor_nodes_take_and_give_the_right_kinds() {
    let (s, p, l, m, q) = (Type::Scalar, Type::Point2, Type::Line2, Type::Motor2, Type::Point3);
    let inputs: Vec<Vec<Type>> = ctors().iter().map(|c| c.inputs()).collect();
    assert_eq!(
        inputs,
        vec![vec![], vec![s, s], vec![s, s, s], vec![s, p, p], vec![s, l, l], vec![s, p, p, p, p], vec![s, s, s]]
    );
    let outputs: Vec<Type> = ctors().iter().map(|c| c.output()).collect();
    assert_eq!(outputs, vec![s, p, l, m, m, m, q]);
    for c in ctors() {
        assert_eq!(c.get().ty(), c.output());
    }
}

#[test]
fn scalar_inputs_stand_at_their_values() {
    let p = CtorNode::Point2 { point: Point2::at(f(3.0), f(4.0)) };
    assert_eq!(p.scalar_at(0), Some(f(3.0)));
    assert_eq!(p.scalar_at(1), Some(f(4.0)));
    assert_eq!(p.scalar_at(2), None);
    let l = CtorNode::Line2 { line: Line2::from_abc(f(1.0), f(2.0), f(3.0)) };
    assert_eq!((l.scalar_at(0), l.scalar_at(1), l.scalar_at(2)), (Some(f(1.0)), Some(f(2.0)), Some(f(3.0))));
    assert_eq!(l.scalar_at(3), None);
    let q = CtorNode::Point3 { point: Point3::at(f(1.0), f(2.0), f(3.0)) };
    assert_eq!((q.scalar_at(0), q.scalar_at(1), q.scalar_at(2)), (Some(f(1.0)), Some(f(2.0)), Some(f(3.0))));
    assert_eq!(point_motor().scalar_at(0), Some(f(1.0)));
    assert_eq!(point_motor().scalar_at(1), None);
    assert_eq!(CtorNode::Scalar { scalar: f(2.0) }.scalar_at(0), None);
}

#[test]
fn point_node_keeps_its_kind_of_point() {
    let mut p = CtorNode::Point2 { point: Point2::at(f(3.0), f(4.0)) };
    p.set_scalar(0, f(7.0));
    assert_eq!(point_of(p.get()), Point2::at(f(7.0), f(4.0)));
    p.set_scalar(1, f(-1.0));
    assert_eq!(point_of(p.get()), Point2::at(f(7.0), f(-1.0)));
    let mut d = CtorNode::Point2 { point: Point2::ideal(f(3.0), f(4.0)) };
    d.set_scalar(1, f(5.0));
    assert_eq!(point_of(d.get()), Point2::ideal(f(3.0), f(5.0)));
    let mut q = CtorNode::Point3 { point: Point3::at(f(1.0), f(2.0), f(3.0)) };
    q.set_scalar(2, f(9.0));
    match q.get() {
        Value::Point3(q) => assert_eq!(q, Point3::at(f(1.0), f(2.0), f(9.0))),
        other => panic!("{:?}", other),
    }
}

#[test]
fn line_node_normalizes_its_line() {
    let mut l = CtorNode::Line2 { line: Line2::from_abc(f(3.0), f(0.0), f(10.0)) };
    l.set_scalar(1, f(4.0));
    match l.get() {
        Value::Line2(line) => assert_eq!(line, Line2::from_abc(f(0.6), f(0.8), f(2.0))),
        other => panic!("{:?}", other),
    }
}

#[test]
fn motor_nodes_make_their_motor_anew() {
    let a = Point2::at(f(1.0), f(1.0));
    let b = Point2::at(f(3.0), f(5.0));
    let mut m = point_motor();
    m.set_point(1, a);
    assert_eq!(motor_of(&m), Motor2::point_point(a, Point2::origin()) * f(1.0));
    m.set_point(2, b);
    assert_eq!(motor_of(&m), Motor2::point_point(a, b) * f(1.0));
    m.set_scalar(0, f(0.5));
    assert_eq!(motor_of(&m), Motor2::point_point(a, b) * f(0.5));
    assert_eq!(m.scalar_at(0), Some(f(0.5)));
    let (x, y) = motor_of(&m).move_point(a).normalized().coords();
    assert!((x.0 - 2.0).abs() < 1e-12 && (y.0 - 3.0).abs() < 1e-12);

    let k = Line2::from_abc(f(1.0), f(0.0), f(0.0));
    let l = Line2::from_abc(f(0.0), f(1.0), f(0.0));
    let mut n = line_motor();
    n.set_line(1, k);
    n.set_line(2, l);
    n.set_scalar(0, f(2.0));
    assert_eq!(motor_of(&n), Motor2::line_line(k, l) * f(2.0));

    let mut r = reconstruct_motor();
    let c = Point2::at(f(0.0), f(2.0));
    let d = Point2::at(f(-1.0), f(2.0));
    r.set_point(1, a);
    r.set_point(2, b);
    r.set_point(3, c);
    r.set_point(4, d);
    r.set_scalar(0, f(1.0));
    assert_eq!(motor_of(&r), Motor2::reconstruct([a, b], [c, d]) * f(1.0));
}

#[test]
fn wires_connect_equal_kinds() {
    assert!(fits(Type::Point2, None));
    assert!(fits(Type::Nil, None));
    assert!(fits(Type::Point2, Some(Type::Point2)));
    assert!(fits(Type::Scalar, Some(Type::Scalar)));
    assert!(!fits(Type::Point2, Some(Type::Line2)));
    assert!(!fits(Type::Nil, Some(Type::Scalar)));
}

#[test]
fn nodes_count_their_pins() {
    let nil = Value::<F>::Nil;
    let nodes: Vec<Node<F>> = vec![
        Node::Time,
        Node::Modulo { a: f(5.0), b: f(3.0), result: f(2.0) },
        Node::CtorNode(point_motor()),
        Node::Apply { transform: nil, results: vec![nil, nil, nil] },
        Node::Meet { a: nil, b: nil, result: nil },
        Node::Join { a: nil, b: nil, result: nil },
        Node::Project { a: nil, b: nil, result: nil },
        Node::Show { scale: f(1.0), color: [1, 2, 3, 4] },
    ];
    let inputs: Vec<usize> = nodes.iter().map(|n| n.inputs()).collect();
    assert_eq!(inputs, vec![0, 2, 3, 5, 2, 2, 2, 1]);
    let names: Vec<&str> = nodes.iter().map(|n| n.name()).collect();
    assert_eq!(names, vec!["Time", "Modulo", "Point to Point Motor2", "Apply", "Meet", "Join", "Project", "Show"]);
    let outputs: Vec<usize> = nodes.iter().map(|n| n.outputs()).collect();
    assert_eq!(outputs, vec![1, 1, 1, 3, 1, 1, 1, 0]);
    assert_eq!(nodes[1].input_type(1), Some(Type::Scalar));
    assert_eq!(nodes[2].input_type(0), Some(Type::Scalar));
    assert_eq!(nodes[2].input_type(2), Some(Type::Point2));
    assert_eq!(nodes[3].input_type(4), None);
    assert_eq!(nodes[4].input_type(0), None);
    assert_eq!(nodes[7].input_type(0), None);
    assert_eq!(nodes[0].output_type(0), Type::Scalar);
    assert_eq!(nodes[1].output_type(0), Type::Scalar);
    assert_eq!(nodes[2].output_type(0), Type::Motor2);
    assert_eq!(nodes[3].output_type(2), Type::Nil);
    assert_eq!(nodes[4].output_type(0), Type::Nil);
}

#[test]
fn nodes_give_what_they_hold() {
    match Node::<F>::Time.get(0, f(12.5)) {
        Value::Scalar(t) => assert_eq!(t, f(12.5)),
        other => panic!("{:?}", other),
    }
    match (Node::Modulo { a: f(5.0), b: f(3.0), result: f(2.0) }).get(0, f(0.0)) {
        Value::Scalar(r) => assert_eq!(r, f(2.0)),
        other => panic!("{:?}", other),
    }
    let p = Point2::at(f(1.0), f(2.0));
    let node = Node::Apply { transform: Value::Nil, results: vec![Value::Nil, Value::Point2(p)] };
    assert_eq!(point_of(node.get(1, f(0.0))), p);
    let node = Node::CtorNode(CtorNode::Point2 { point: p });
    assert_eq!(point_of(node.get(0, f(0.0))), p);
}

#[test]
fn apply_node_transforms_what_comes_in() {
    let l = Line2::from_abc(f(1.0), f(0.0), f(-1.0));
    let p = Point2::at(f(3.0), f(5.0));
    let q = Point2::at(f(0.0), f(0.0));
    let node = Node::Apply { transform: Value::<F>::Nil, results: Vec::new() };
    assert_eq!((node.inputs(), node.outputs()), (2, 0));
    let node = node.with_value(0, Value::Line2(l));
    assert_eq!((node.inputs(), node.outputs()), (2, 0));
    // the input after the last makes room for a result
    let node = node.with_value(1, Value::Point2(p));
    assert_eq!((node.inputs(), node.outputs()), (3, 1));
    assert_eq!(point_of(node.get(0, f(0.0))), l.reflect_point(p));
    let node = node.with_value(2, Value::Point2(q));
    assert_eq!((node.inputs(), node.outputs()), (4, 2));
    assert_eq!(point_of(node.get(1, f(0.0))), l.reflect_point(q));
    // an input that is there already replaces its result
    let node = node.with_value(1, Value::Point2(q));
    assert_eq!((node.inputs(), node.outputs()), (4, 2));
    assert_eq!(point_of(node.get(0, f(0.0))), l.reflect_point(q));
    // what the transformation is not defined on gives nothing
    let node = node.with_value(2, Value::Scalar(f(1.0)));
    assert_eq!(node.output_type(1), Type::Nil);
}

#[test]
fn nodes_with_two_operands_give_their_result_anew() {
    let k = Line2::from_abc(f(1.0), f(0.0), f(-3.0));
    let l = Line2::from_abc(f(0.0), f(1.0), f(-1.0));
    let nil = Value::<F>::Nil;
    let node = Node::Meet { a: nil, b: nil, result: nil }.with_value(0, Value::Line2(k));
    assert_eq!(node.output_type(0), Type::Nil);
    let node = node.with_value(1, Value::Line2(l));
    assert_eq!(point_of(node.get(0, f(0.0))), k.meet(l));
    let p = Point2::at(f(1.0), f(2.0));
    let q = Point2::at(f(4.0), f(0.0));
    let node = Node::Join { a: nil, b: nil, result: nil }
        .with_value(1, Value::Point2(q))
        .with_value(0, Value::Point2(p));
    match node.get(0, f(0.0)) {
        Value::Line2(line) => assert_eq!(line, p.join(q)),
        other => panic!("{:?}", other),
    }
    let node = Node::Project { a: nil, b: nil, result: nil }
        .with_value(0, Value::Point2(p))
        .with_value(1, Value::Line2(k));
    assert_eq!(point_of(node.get(0, f(0.0))), p.project_to(k));
}
