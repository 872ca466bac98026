//! Label matchers of the node model. Two matchers are equal exactly when
//! operator, name and value agree, so a list of them can be read as a set.

use vstd::prelude::*;
use vstd::std_specs::cmp::PartialEqSpec;
use vstd::std_specs::cmp::PartialEqSpecImpl;
use vstd::string::*;

verus! {

/// A matcher's operator, with no compiled pattern attached.
#[derive(Debug, Clone, Copy, PartialEq, Eq, Hash, Structural)]
pub enum PyMatchOp {
    Equal,
    NotEqual,
    Re,
    NotRe,
}

impl PyMatchOp {
    /// The operator's debug text.
    pub open spec fn repr_spec(self) -> Seq<char> {
        match self {
            PyMatchOp::Equal => "MatchOp.Equal"@,
            PyMatchOp::NotEqual => "MatchOp.NotEqual"@,
            PyMatchOp::Re => "MatchOp.Re"@,
            PyMatchOp::NotRe => "MatchOp.NotRe"@,
        }
    }

    /// The operator's debug text: `MatchOp.` and the operator's name.
    pub fn repr(&self) -> (r: &'static str)
        ensures
            r@ == self.repr_spec(),
    {
        match self {
            PyMatchOp::Equal => "MatchOp.Equal",
            PyMatchOp::NotEqual => "MatchOp.NotEqual",
            PyMatchOp::Re => "MatchOp.Re",
            PyMatchOp::NotRe => "MatchOp.NotRe",
        }
    }
}

/// One constraint on a label. For the regex operators `value` is the pattern
/// as written in the query.
#[derive(Debug, Clone, Eq, Hash)]
pub struct PyMatcher {
    pub op: PyMatchOp,
    pub name: String,
    pub value: String,
}

/// What a [`PyMatcher`] holds, as mathematical values.
pub struct PyMatcherView {
    pub op: PyMatchOp,
    pub name: Seq<char>,
    pub value: Seq<char>,
}

impl View for PyMatcher {
    type V = PyMatcherView;

    open spec fn view(&self) -> PyMatcherView {
        PyMatcherView { op: self.op, name: self.name@, value: self.value@ }
    }
}

impl PyMatcher {
    /// The matcher's debug text.
    pub open spec fn repr_spec(self) -> Seq<char> {
        "Matcher("@ + self.op.repr_spec() + ", \""@ + self.name@ + "\", "@ + self.value@ + ")"@
    }

    /// The matcher's debug text: operator, name in double quotes, and value.
    pub fn repr(&self) -> (r: String)
        ensures
            r@ == self.repr_spec(),
    {
        let mut text = String::from_str("Matcher(");
        text.append(self.op.repr());
        text.append(", \"");
        text.append(self.name.as_str());
        text.append("\", ");
        text.append(self.value.as_str());
        text.append(")");
        text
    }
}

impl PartialEq for PyMatcher {
    fn eq(&self, other: &PyMatcher) -> (r: bool) {
        self.op == other.op && self.name == other.name && self.value == other.value
    }
}

impl PartialEqSpecImpl for PyMatcher {
    open spec fn obeys_eq_spec() -> bool {
        true
    }

    open spec fn eq_spec(&self, other: &PyMatcher) -> bool {
        self.op == other.op && self.name@ == other.name@ && self.value@ == other.value@
    }
}

/// Equality of matchers is equality of operator, name and value: `==` holds
/// of two matchers exactly when their views are the same triple. So a list of
/// matchers read as a set holds each triple once.
pub proof fn lemma_matcher_equality_is_structural(a: PyMatcher, b: PyMatcher)
    ensures
        PartialEqSpec::eq_spec(&a, &b) <==> (a.op == b.op && a.name@ == b.name@ && a.value@
            == b.value@),
        PartialEqSpec::eq_spec(&a, &b) <==> a@ == b@,
        PartialEqSpec::eq_spec(&a, &a),
        PartialEqSpec::eq_spec(&a, &b) ==> PartialEqSpec::eq_spec(&b, &a),
{
}

/// The view of a list of matchers.
pub open spec fn py_matchers_view(v: Seq<PyMatcher>) -> Seq<PyMatcherView> {
    v.map_values(|m: PyMatcher| m@)
}

/// A primary conjunction of matchers and, in order, the alternative
/// conjunctions. A series is selected if it satisfies any one of them.
#[derive(Debug, Clone, PartialEq, Eq)]
pub struct PyMatchers {
    pub matchers: Vec<PyMatcher>,
    pub or_matchers: Vec<Vec<PyMatcher>>,
}

/// What a [`PyMatchers`] holds, as mathematical values.
pub struct PyMatchersView {
    pub matchers: Seq<PyMatcherView>,
    pub or_matchers: Seq<Seq<PyMatcherView>>,
}

impl View for PyMatchers {
    type V = PyMatchersView;

    open spec fn view(&self) -> PyMatchersView {
        PyMatchersView {
            matchers: py_matchers_view(self.matchers@),
            or_matchers: self.or_matchers@.map_values(|set: Vec<PyMatcher>| py_matchers_view(set@)),
        }
    }
}

} // verus!
