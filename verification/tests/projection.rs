use promql_ast::duration::{SignedDuration, UnsignedDuration};
use promql_ast::error::Error;
use promql_ast::matcher::PyMatchOp;
use promql_ast::node::{
    PyAggModifier, PyAggModifierType, PyAggregateExpr, PyAtModifier, PyAtModifierType,
    PyBinModifier, PyBinaryExpr, PyCall, PyExpr, PyFunction, PyLabelModifier,
    PyLabelModifierType, PyMatrixSelector, PyNumberLiteral, PyParenExpr, PyStringLiteral,
    PySubqueryExpr, PyTokenType, PyUnaryExpr, PyValueType, PyVectorMatchCardinality,
    PyVectorSelector,
};
use promql_ast::source::{
    AggregateExpr, AtModifier, BinModifier, BinaryExpr, Call, Expr, Extension, Function,
    LabelModifier, MatchOp, Matcher, Matchers, MatrixSelector, NumberLiteral, Offset, ParenExpr,
    StringLiteral, SubqueryExpr, Timestamp, TokenType, UnaryExpr, ValueType,
    VectorMatchCardinality, VectorSelector,
};
use promql_parser::parser::token::{T_ADD, T_LAND, T_SUB, T_SUM, T_TOPK};

fn secs(secs: u64) -> UnsignedDuration {
    UnsignedDuration { secs, nanos: 0 }
}

fn signed(s: u64) -> SignedDuration {
    SignedDuration::from_unsigned(secs(s)).unwrap()
}

fn too_long() -> UnsignedDuration {
    UnsignedDuration { secs: 9_223_372_036_854_776, nanos: 0 }
}

fn selector(name: &str) -> VectorSelector {
    VectorSelector {
        name: Some(name.to_string()),
        matchers: Matchers { matchers: vec![], or_matchers: vec![] },
        offset: None,
        at: None,
    }
}

fn vector(name: &str) -> Expr {
    Expr::VectorSelector(selector(name))
}

fn number(v: f64) -> Expr {
    Expr::NumberLiteral(NumberLiteral { bits: v.to_bits() })
}

fn labels(names: &[&str]) -> Vec<String> {
    names.iter().map(|s| s.to_string()).collect()
}

fn rate() -> Function {
    Function {
        name: "rate".to_string(),
        arg_types: vec![ValueType::Matrix],
        variadic: false,
        return_type: ValueType::Vector,
    }
}

fn extension() -> Expr {
    Expr::Extension(Extension { name: "custom".to_string() })
}

#[test]
fn aggregate_projects_to_aggregate() {
    let e = Expr::Aggregate(AggregateExpr {
        op: TokenType { id: T_SUM },
        expr: Box::new(vector("foo")),
        param: None,
        modifier: None,
    });
    match PyExpr::create(&e).unwrap() {
        PyExpr::Aggregate(a) => {
            assert_eq!(a.op, PyTokenType { kind: TokenType { id: T_SUM } });
            assert!(matches!(*a.expr, PyExpr::VectorSelector(_)));
            assert_eq!(a.param, None);
            assert_eq!(a.modifier, None);
        }
        other => panic!("{:?}", other),
    }
}

#[test]
fn unary_projects_to_unary() {
    let e = Expr::Unary(UnaryExpr { op: TokenType { id: T_SUB }, expr: Box::new(number(1.0)) });
    match PyExpr::create(&e).unwrap() {
        PyExpr::Unary(u) => {
            assert_eq!(u.op.kind.id, T_SUB);
            assert_eq!(*u.expr, PyExpr::NumberLiteral(PyNumberLiteral { bits: 1f64.to_bits() }));
        }
        other => panic!("{:?}", other),
    }
}

#[test]
fn binary_projects_to_binary() {
    let e = Expr::Binary(BinaryExpr {
        op: TokenType { id: T_ADD },
        lhs: Box::new(number(1.0)),
        rhs: Box::new(number(2.0)),
        modifier: None,
    });
    match PyExpr::create(&e).unwrap() {
        PyExpr::Binary(b) => {
            assert_eq!(b.op.kind.id, T_ADD);
            assert_eq!(*b.lhs, PyExpr::NumberLiteral(PyNumberLiteral { bits: 1f64.to_bits() }));
            assert_eq!(*b.rhs, PyExpr::NumberLiteral(PyNumberLiteral { bits: 2f64.to_bits() }));
            assert_eq!(b.modifier, None);
        }
        other => panic!("{:?}", other),
    }
}

#[test]
fn paren_projects_to_paren() {
    let e = Expr::Paren(ParenExpr { expr: Box::new(number(1.0)) });
    match PyExpr::create(&e).unwrap() {
        PyExpr::Paren(p) => {
            assert_eq!(*p.expr, PyExpr::NumberLiteral(PyNumberLiteral { bits: 1f64.to_bits() }));
        }
        other => panic!("{:?}", other),
    }
}

#[test]
fn subquery_projects_to_subquery() {
    let e = Expr::Subquery(SubqueryExpr {
        expr: Box::new(vector("foo")),
        offset: Some(Offset::Neg(secs(60))),
        at: Some(AtModifier::End),
        range: secs(600),
        step: Some(secs(30)),
    });
    match PyExpr::create(&e).unwrap() {
        PyExpr::Subquery(s) => {
            assert!(matches!(*s.expr, PyExpr::VectorSelector(_)));
            assert_eq!(s.offset, Some(signed(60).neg()));
            assert_eq!(s.at, Some(PyAtModifier { kind: PyAtModifierType::End, at: None }));
            assert_eq!(s.range, signed(600));
            assert_eq!(s.step, Some(signed(30)));
        }
        other => panic!("{:?}", other),
    }
}

#[test]
fn subquery_without_offset_and_step_has_neither() {
    let e = SubqueryExpr {
        expr: Box::new(vector("foo")),
        offset: None,
        at: None,
        range: secs(600),
        step: None,
    };
    let s = PySubqueryExpr::create(&e).unwrap();
    assert_eq!(s.offset, None);
    assert_eq!(s.at, None);
    assert_eq!(s.step, None);
    assert_eq!(s.range.num_seconds(), 600);
}

#[test]
fn number_literal_projects_to_number_literal() {
    assert_eq!(
        PyExpr::create(&number(1.5)).unwrap(),
        PyExpr::NumberLiteral(PyNumberLiteral { bits: 1.5f64.to_bits() })
    );
}

#[test]
fn nan_and_infinities_keep_their_bits() {
    for v in [f64::NAN, f64::INFINITY, f64::NEG_INFINITY, -0.0, f64::MIN_POSITIVE] {
        let lit = PyNumberLiteral::create(&NumberLiteral { bits: v.to_bits() });
        assert_eq!(lit.bits, v.to_bits());
    }
    let nan = PyNumberLiteral::create(&NumberLiteral { bits: f64::NAN.to_bits() });
    assert!(f64::from_bits(nan.bits).is_nan());
}

#[test]
fn string_literal_projects_to_string_literal() {
    let e = Expr::StringLiteral(StringLiteral { val: "héllo \"w\"".to_string() });
    assert_eq!(
        PyExpr::create(&e).unwrap(),
        PyExpr::StringLiteral(PyStringLiteral { val: "héllo \"w\"".to_string() })
    );
}

#[test]
fn vector_selector_projects_to_vector_selector() {
    match PyExpr::create(&vector("up")).unwrap() {
        PyExpr::VectorSelector(v) => {
            assert_eq!(v.name, Some("up".to_string()));
            assert!(v.matchers.matchers.is_empty());
            assert!(v.matchers.or_matchers.is_empty());
            assert_eq!(v.offset, None);
            assert_eq!(v.at, None);
        }
        other => panic!("{:?}", other),
    }
}

#[test]
fn vector_selector_without_a_name_has_none() {
    let v = VectorSelector {
        name: None,
        matchers: Matchers {
            matchers: vec![Matcher {
                op: MatchOp::Equal,
                name: "__name__".to_string(),
                value: "up".to_string(),
            }],
            or_matchers: vec![],
        },
        offset: Some(Offset::Pos(secs(5))),
        at: Some(AtModifier::Start),
    };
    let node = PyVectorSelector::create(&v).unwrap();
    assert_eq!(node.name, None);
    assert_eq!(node.matchers.matchers.len(), 1);
    assert_eq!(node.matchers.matchers[0].op, PyMatchOp::Equal);
    assert_eq!(node.offset, Some(signed(5)));
    assert_eq!(node.at, Some(PyAtModifier { kind: PyAtModifierType::Start, at: None }));
}

#[test]
fn matrix_selector_projects_to_matrix_selector() {
    let e = Expr::MatrixSelector(MatrixSelector { vs: selector("foo"), range: secs(300) });
    match PyExpr::create(&e).unwrap() {
        PyExpr::MatrixSelector(m) => {
            assert_eq!(m.vector_selector.name, Some("foo".to_string()));
            assert_eq!(m.range, signed(300));
        }
        other => panic!("{:?}", other),
    }
}

#[test]
fn call_projects_to_call() {
    let e = Expr::Call(Call { func: rate(), args: vec![] });
    match PyExpr::create(&e).unwrap() {
        PyExpr::Call(c) => {
            assert_eq!(
                c.func,
                PyFunction {
                    name: "rate".to_string(),
                    arg_types: vec![PyValueType::Matrix],
                    variadic: false,
                    return_type: PyValueType::Vector,
                }
            );
            assert!(c.args.is_empty());
        }
        other => panic!("{:?}", other),
    }
}

#[test]
fn call_arguments_keep_their_order() {
    let f = Function {
        name: "label_replace".to_string(),
        arg_types: vec![
            ValueType::Vector,
            ValueType::String,
            ValueType::String,
            ValueType::Scalar,
        ],
        variadic: true,
        return_type: ValueType::Vector,
    };
    let e = Call {
        func: f,
        args: vec![
            vector("a"),
            Expr::StringLiteral(StringLiteral { val: "b".to_string() }),
            Expr::StringLiteral(StringLiteral { val: "c".to_string() }),
            number(4.0),
        ],
    };
    let c = PyCall::create(&e).unwrap();
    assert_eq!(
        c.func.arg_types,
        vec![PyValueType::Vector, PyValueType::String, PyValueType::String, PyValueType::Scalar]
    );
    assert!(c.func.variadic);
    assert_eq!(c.args.len(), 4);
    assert!(matches!(c.args[0], PyExpr::VectorSelector(_)));
    assert_eq!(c.args[1], PyExpr::StringLiteral(PyStringLiteral { val: "b".to_string() }));
    assert_eq!(c.args[2], PyExpr::StringLiteral(PyStringLiteral { val: "c".to_string() }));
    assert_eq!(c.args[3], PyExpr::NumberLiteral(PyNumberLiteral { bits: 4f64.to_bits() }));
}

#[test]
fn extension_is_an_unsupported_construct() {
    assert_eq!(PyExpr::create(&extension()), Err(Error::UnsupportedConstruct));
}

#[test]
fn an_extension_deep_in_the_tree_fails_the_whole_tree() {
    let e = Expr::Paren(ParenExpr {
        expr: Box::new(Expr::Call(Call {
            func: rate(),
            args: vec![number(1.0), Expr::Unary(UnaryExpr {
                op: TokenType { id: T_SUB },
                expr: Box::new(extension()),
            })],
        })),
    });
    assert_eq!(PyExpr::create(&e), Err(Error::UnsupportedConstruct));
}

#[test]
fn one_offset_out_of_range_fails_the_whole_tree() {
    let mut inner = selector("foo");
    inner.offset = Some(Offset::Pos(too_long()));
    let e = Expr::Subquery(SubqueryExpr {
        expr: Box::new(Expr::Paren(ParenExpr { expr: Box::new(Expr::VectorSelector(inner)) })),
        offset: None,
        at: None,
        range: secs(600),
        step: None,
    });
    assert_eq!(PyExpr::create(&e), Err(Error::Overflow));
}

#[test]
fn each_duration_field_can_overflow() {
    let sub = |offset, range, step| SubqueryExpr {
        expr: Box::new(vector("foo")),
        offset,
        at: None,
        range,
        step,
    };
    assert!(PySubqueryExpr::create(&sub(Some(Offset::Pos(secs(1))), secs(1), Some(secs(1)))).is_ok());
    assert_eq!(
        PySubqueryExpr::create(&sub(Some(Offset::Neg(too_long())), secs(1), None)),
        Err(Error::Overflow)
    );
    assert_eq!(PySubqueryExpr::create(&sub(None, too_long(), None)), Err(Error::Overflow));
    assert_eq!(
        PySubqueryExpr::create(&sub(None, secs(1), Some(too_long()))),
        Err(Error::Overflow)
    );
    assert_eq!(
        PyMatrixSelector::create(&MatrixSelector { vs: selector("foo"), range: too_long() }),
        Err(Error::Overflow)
    );
    let mut v = selector("foo");
    v.offset = Some(Offset::Neg(too_long()));
    assert_eq!(PyVectorSelector::create(&v), Err(Error::Overflow));
    assert_eq!(
        PyMatrixSelector::create(&MatrixSelector { vs: v, range: secs(1) }),
        Err(Error::Overflow)
    );
}

#[test]
fn the_first_failure_in_order_is_reported() {
    let mut overflowing = selector("foo");
    overflowing.offset = Some(Offset::Pos(too_long()));
    let e = |lhs, rhs| {
        Expr::Binary(BinaryExpr {
            op: TokenType { id: T_ADD },
            lhs: Box::new(lhs),
            rhs: Box::new(rhs),
            modifier: None,
        })
    };
    assert_eq!(
        PyExpr::create(&e(Expr::VectorSelector(overflowing.clone()), extension())),
        Err(Error::Overflow)
    );
    assert_eq!(
        PyExpr::create(&e(extension(), Expr::VectorSelector(overflowing.clone()))),
        Err(Error::UnsupportedConstruct)
    );
    let call = Call {
        func: rate(),
        args: vec![number(1.0), extension(), Expr::VectorSelector(overflowing)],
    };
    assert_eq!(PyCall::create(&call), Err(Error::UnsupportedConstruct));
    let sub = SubqueryExpr {
        expr: Box::new(extension()),
        offset: None,
        at: None,
        range: too_long(),
        step: None,
    };
    assert_eq!(PySubqueryExpr::create(&sub), Err(Error::UnsupportedConstruct));
}

#[test]
fn aggregate_parameter_is_kept_when_present() {
    let e = AggregateExpr {
        op: TokenType { id: T_TOPK },
        expr: Box::new(vector("foo")),
        param: Some(Box::new(number(3.0))),
        modifier: Some(LabelModifier::Exclude(labels(&["a", "b"]))),
    };
    let a = PyAggregateExpr::create(&e).unwrap();
    assert_eq!(
        a.param,
        Some(Box::new(PyExpr::NumberLiteral(PyNumberLiteral { bits: 3f64.to_bits() })))
    );
    assert_eq!(
        a.modifier,
        Some(PyAggModifier { kind: PyAggModifierType::Without, labels: labels(&["a", "b"]) })
    );
}

#[test]
fn aggregate_parameter_failure_fails_the_aggregate() {
    let e = AggregateExpr {
        op: TokenType { id: T_TOPK },
        expr: Box::new(vector("foo")),
        param: Some(Box::new(extension())),
        modifier: None,
    };
    assert_eq!(PyAggregateExpr::create(&e), Err(Error::UnsupportedConstruct));
}

#[test]
fn aggregate_modifier_by_keeps_its_labels() {
    assert_eq!(
        PyAggModifier::create(&LabelModifier::Include(labels(&["bar"]))),
        PyAggModifier { kind: PyAggModifierType::By, labels: labels(&["bar"]) }
    );
    assert_eq!(
        PyAggModifier::create(&LabelModifier::Include(vec![])),
        PyAggModifier { kind: PyAggModifierType::By, labels: vec![] }
    );
}

#[test]
fn group_labels_are_reachable_through_the_modifier() {
    let m = BinModifier {
        card: VectorMatchCardinality::ManyToOne(labels(&["baz"])),
        matching: Some(LabelModifier::Include(labels(&["bar"]))),
        return_bool: false,
    };
    let p = PyBinModifier::create(&m);
    assert_eq!(p.card, PyVectorMatchCardinality::ManyToOne);
    assert_eq!(
        p.matching,
        Some(PyLabelModifier { kind: PyLabelModifierType::Include, labels: labels(&["bar"]) })
    );
    assert_eq!(
        p.grouping,
        Some(PyLabelModifier { kind: PyLabelModifierType::Include, labels: labels(&["baz"]) })
    );
    assert!(!p.return_bool);
}

#[test]
fn an_empty_group_list_is_present_and_empty() {
    let m = BinModifier {
        card: VectorMatchCardinality::OneToMany(vec![]),
        matching: Some(LabelModifier::Exclude(labels(&["x"]))),
        return_bool: true,
    };
    let p = PyBinModifier::create(&m);
    assert_eq!(p.card, PyVectorMatchCardinality::OneToMany);
    assert_eq!(
        p.matching,
        Some(PyLabelModifier { kind: PyLabelModifierType::Exclude, labels: labels(&["x"]) })
    );
    assert_eq!(
        p.grouping,
        Some(PyLabelModifier { kind: PyLabelModifierType::Include, labels: vec![] })
    );
    assert!(p.return_bool);
}

#[test]
fn ungrouped_cardinalities_have_no_group_list() {
    for (card, tag) in [
        (VectorMatchCardinality::OneToOne, PyVectorMatchCardinality::OneToOne),
        (VectorMatchCardinality::ManyToMany, PyVectorMatchCardinality::ManyToMany),
    ] {
        assert_eq!(PyVectorMatchCardinality::from(&card), tag);
        let p = PyBinModifier::create(&BinModifier { card, matching: None, return_bool: false });
        assert_eq!(p.card, tag);
        assert_eq!(p.matching, None);
        assert_eq!(p.grouping, None);
    }
    assert_eq!(
        PyVectorMatchCardinality::from(&VectorMatchCardinality::ManyToOne(labels(&["a"]))),
        PyVectorMatchCardinality::ManyToOne
    );
    assert_eq!(
        PyVectorMatchCardinality::from(&VectorMatchCardinality::OneToMany(labels(&["a"]))),
        PyVectorMatchCardinality::OneToMany
    );
}

#[test]
fn binary_modifier_is_kept_on_the_node() {
    let e = BinaryExpr {
        op: TokenType { id: T_LAND },
        lhs: Box::new(vector("foo")),
        rhs: Box::new(vector("bar")),
        modifier: Some(BinModifier {
            card: VectorMatchCardinality::ManyToMany,
            matching: Some(LabelModifier::Include(labels(&["bar"]))),
            return_bool: false,
        }),
    };
    let b = PyBinaryExpr::create(&e).unwrap();
    let m = b.modifier.unwrap();
    assert_eq!(m.card, PyVectorMatchCardinality::ManyToMany);
    assert_eq!(m.matching.unwrap().labels, labels(&["bar"]));
    assert_eq!(m.grouping, None);
}

#[test]
fn only_the_at_form_carries_an_instant() {
    assert_eq!(
        PyAtModifier::from(AtModifier::Start),
        PyAtModifier { kind: PyAtModifierType::Start, at: None }
    );
    assert_eq!(
        PyAtModifier::from(AtModifier::End),
        PyAtModifier { kind: PyAtModifierType::End, at: None }
    );
    let instant = Timestamp { before_epoch: true, secs: 12, nanos: 500_000_000 };
    assert_eq!(
        PyAtModifier::from(AtModifier::At(instant)),
        PyAtModifier { kind: PyAtModifierType::At, at: Some(instant) }
    );
}

#[test]
fn value_types_map_one_to_one() {
    assert_eq!(PyValueType::from(ValueType::Vector), PyValueType::Vector);
    assert_eq!(PyValueType::from(ValueType::Scalar), PyValueType::Scalar);
    assert_eq!(PyValueType::from(ValueType::Matrix), PyValueType::Matrix);
    assert_eq!(PyValueType::from(ValueType::String), PyValueType::String);
}

#[test]
fn tokens_are_written_as_in_a_query() {
    assert_eq!(PyTokenType::from(TokenType { id: T_SUM }).text(), "sum");
    assert_eq!(PyTokenType::from(TokenType { id: T_ADD }).text(), "+");
    assert_eq!(PyTokenType::from(TokenType { id: T_LAND }).text(), "and");
    assert_eq!(PyTokenType::from(TokenType { id: T_TOPK }).text(), "topk");
}

#[test]
fn nested_nodes_project_children_first() {
    let e = Expr::Unary(UnaryExpr {
        op: TokenType { id: T_SUB },
        expr: Box::new(Expr::Paren(ParenExpr {
            expr: Box::new(Expr::Binary(BinaryExpr {
                op: TokenType { id: T_ADD },
                lhs: Box::new(number(1.0)),
                rhs: Box::new(vector("foo")),
                modifier: None,
            })),
        })),
    });
    let expected = PyExpr::Unary(PyUnaryExpr {
        op: PyTokenType { kind: TokenType { id: T_SUB } },
        expr: Box::new(PyExpr::Paren(PyParenExpr {
            expr: Box::new(PyExpr::Binary(PyBinaryExpr {
                op: PyTokenType { kind: TokenType { id: T_ADD } },
                lhs: Box::new(PyExpr::NumberLiteral(PyNumberLiteral { bits: 1f64.to_bits() })),
                rhs: Box::new(PyExpr::VectorSelector(
                    PyVectorSelector::create(&selector("foo")).unwrap(),
                )),
                modifier: None,
            })),
        })),
    });
    assert_eq!(PyExpr::create(&e).unwrap(), expected);
}

#[test]
fn expressions_that_mean_the_same_have_the_same_node() {
    let tree = |pattern: &str, offset: Offset, range: UnsignedDuration| {
        Expr::Subquery(SubqueryExpr {
            expr: Box::new(Expr::VectorSelector(VectorSelector {
                name: Some("foo".to_string()),
                matchers: Matchers {
                    matchers: vec![Matcher {
                        op: MatchOp::Re(pattern.to_string()),
                        name: "job".to_string(),
                        value: "a.*".to_string(),
                    }],
                    or_matchers: vec![],
                },
                offset: Some(offset),
                at: None,
            })),
            offset: None,
            at: None,
            range,
            step: None,
        })
    };
    let zero = UnsignedDuration { secs: 0, nanos: 0 };
    let a = tree("^(?:a.*)$", Offset::Pos(zero), UnsignedDuration { secs: 3, nanos: 500_000_000 });
    let b = tree("a.*", Offset::Neg(zero), UnsignedDuration { secs: 1, nanos: 2_500_000_000 });
    assert_eq!(PyExpr::create(&a).unwrap(), PyExpr::create(&b).unwrap());
}

#[test]
fn expressions_that_differ_in_meaning_have_different_nodes() {
    let with = |name: &str, op: MatchOp, value: &str, offset: Option<Offset>| {
        Expr::VectorSelector(VectorSelector {
            name: Some("foo".to_string()),
            matchers: Matchers {
                matchers: vec![Matcher { op, name: name.to_string(), value: value.to_string() }],
                or_matchers: vec![],
            },
            offset,
            at: None,
        })
    };
    let base = PyExpr::create(&with("job", MatchOp::Equal, "api", Some(Offset::Pos(secs(1)))))
        .unwrap();
    let others = [
        with("job", MatchOp::NotEqual, "api", Some(Offset::Pos(secs(1)))),
        with("job2", MatchOp::Equal, "api", Some(Offset::Pos(secs(1)))),
        with("job", MatchOp::Equal, "api2", Some(Offset::Pos(secs(1)))),
        with("job", MatchOp::Equal, "api", Some(Offset::Neg(secs(1)))),
        with("job", MatchOp::Equal, "api", Some(Offset::Pos(secs(2)))),
        with("job", MatchOp::Equal, "api", None),
    ];
    for other in &others {
        assert_ne!(PyExpr::create(other).unwrap(), base);
    }
}
