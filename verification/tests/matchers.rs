use std::collections::HashSet;

use promql_ast::matcher::{PyMatchOp, PyMatcher, PyMatchers};
use promql_ast::source::{MatchOp, Matcher, Matchers};

fn matcher(op: MatchOp, name: &str, value: &str) -> Matcher {
    Matcher { op, name: name.to_string(), value: value.to_string() }
}

#[test]
fn operators_lose_their_compiled_pattern_and_values_stay_verbatim() {
    let m = PyMatcher::from(&matcher(MatchOp::Re("^(?:a\\{b)$".to_string()), "job", "a{b"));
    assert_eq!(m.op, PyMatchOp::Re);
    assert_eq!(m.name, "job");
    assert_eq!(m.value, "a{b");
    let m = PyMatcher::from(&matcher(MatchOp::NotRe("x".to_string()), "job", "y"));
    assert_eq!(m.op, PyMatchOp::NotRe);
    assert_eq!(m.value, "y");
    assert_eq!(PyMatcher::from(&matcher(MatchOp::Equal, "a", "b")).op, PyMatchOp::Equal);
    assert_eq!(PyMatcher::from(&matcher(MatchOp::NotEqual, "a", "b")).op, PyMatchOp::NotEqual);
}

#[test]
fn equality_depends_on_operator_name_and_value_only() {
    let a = PyMatcher::from(&matcher(MatchOp::Re("one".to_string()), "job", "api"));
    let b = PyMatcher::from(&matcher(MatchOp::Re("two".to_string()), "job", "api"));
    assert_eq!(a, b);
    let c = PyMatcher::from(&matcher(MatchOp::NotRe("one".to_string()), "job", "api"));
    assert_ne!(a, c);
    let d = PyMatcher::from(&matcher(MatchOp::Re("one".to_string()), "job2", "api"));
    assert_ne!(a, d);
    let e = PyMatcher::from(&matcher(MatchOp::Re("one".to_string()), "job", "api2"));
    assert_ne!(a, e);
}

#[test]
fn duplicate_matchers_collapse_in_a_set() {
    let source = vec![
        matcher(MatchOp::Equal, "job", "api"),
        matcher(MatchOp::Equal, "job", "api"),
        matcher(MatchOp::NotEqual, "job", "api"),
    ];
    let projected = PyMatchers::create(&Matchers { matchers: source, or_matchers: vec![] });
    assert_eq!(projected.matchers.len(), 3);
    let set: HashSet<PyMatcher> = projected.matchers.into_iter().collect();
    assert_eq!(set.len(), 2);
}

#[test]
fn alternative_sets_keep_their_number_and_order() {
    let source = Matchers {
        matchers: vec![matcher(MatchOp::Equal, "a", "1")],
        or_matchers: vec![
            vec![matcher(MatchOp::Equal, "b", "2"), matcher(MatchOp::NotEqual, "c", "3")],
            vec![],
            vec![matcher(MatchOp::Re("4".to_string()), "d", "4")],
        ],
    };
    let projected = PyMatchers::create(&source);
    assert_eq!(projected.matchers.len(), 1);
    assert_eq!(projected.matchers[0].name, "a");
    assert_eq!(projected.or_matchers.len(), 3);
    assert_eq!(projected.or_matchers[0].len(), 2);
    assert_eq!(projected.or_matchers[0][0].name, "b");
    assert_eq!(projected.or_matchers[0][1].name, "c");
    assert_eq!(projected.or_matchers[0][1].op, PyMatchOp::NotEqual);
    assert!(projected.or_matchers[1].is_empty());
    assert_eq!(projected.or_matchers[2][0].name, "d");
    assert_eq!(projected.or_matchers[2][0].op, PyMatchOp::Re);
}

#[test]
fn empty_matchers_project_to_empty_matchers() {
    let projected = PyMatchers::create(&Matchers { matchers: vec![], or_matchers: vec![] });
    assert!(projected.matchers.is_empty());
    assert!(projected.or_matchers.is_empty());
}

#[test]
fn operator_repr_names_the_operator() {
    assert_eq!(PyMatchOp::Equal.repr(), "MatchOp.Equal");
    assert_eq!(PyMatchOp::NotEqual.repr(), "MatchOp.NotEqual");
    assert_eq!(PyMatchOp::Re.repr(), "MatchOp.Re");
    assert_eq!(PyMatchOp::NotRe.repr(), "MatchOp.NotRe");
}

#[test]
fn matcher_repr_quotes_the_name() {
    let m = PyMatcher::from(&matcher(MatchOp::Equal, "job", "api"));
    assert_eq!(m.repr(), "Matcher(MatchOp.Equal, \"job\", api)");
    let m = PyMatcher::from(&matcher(MatchOp::NotRe("x".to_string()), "", ""));
    assert_eq!(m.repr(), "Matcher(MatchOp.NotRe, \"\", )");
}
