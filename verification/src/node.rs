//! The node model: the closed set of expression variants and the value types
//! they hold. A tree of these is built once and only read afterwards.

use vstd::prelude::*;

use crate::duration::SignedDuration;
use crate::matcher::{PyMatchers, PyMatchersView};
use crate::source::{strings_view, Timestamp, TokenType};

verus! {

/// The view of an optional signed duration: its nanoseconds.
pub open spec fn opt_duration_view(d: Option<SignedDuration>) -> Option<int> {
    match d {
        Some(d) => Some(d@),
        None => None,
    }
}

/// An operator or keyword of the query language.
#[derive(Debug, Clone, Copy, PartialEq, Eq, Structural)]
pub struct PyTokenType {
    pub kind: TokenType,
}

/// What the `Display` of `promql_parser::parser::token::TokenType` writes for
/// a token number: the token's text in a query.
pub uninterp spec fn token_text(id: u8) -> Seq<char>;

/// Formats a `promql_parser::parser::token::TokenType` with its `Display`.
/// Unverified claim: the result depends on the token number alone.
#[verifier::external_body]
fn token_display(id: u8) -> (r: String)
    ensures
        r@ == token_text(id),
{
    promql_parser::parser::token::TokenType::new(id).to_string()
}

impl PyTokenType {
    /// The token as it is written in a query.
    pub fn text(&self) -> (r: String)
        ensures
            r@ == token_text(self.kind.id),
    {
        token_display(self.kind.id)
    }
}

/// Whether an aggregation keeps the listed labels or drops them.
#[derive(Debug, Clone, Copy, PartialEq, Eq, Structural)]
pub enum PyAggModifierType {
    By,
    Without,
}

/// The grouping of an aggregation: `by (labels)` or `without (labels)`.
#[derive(Debug, Clone, PartialEq, Eq)]
pub struct PyAggModifier {
    pub kind: PyAggModifierType,
    pub labels: Vec<String>,
}

/// What a [`PyAggModifier`] holds, as mathematical values.
pub struct PyAggModifierView {
    pub kind: PyAggModifierType,
    pub labels: Seq<Seq<char>>,
}

impl View for PyAggModifier {
    type V = PyAggModifierView;

    open spec fn view(&self) -> PyAggModifierView {
        PyAggModifierView { kind: self.kind, labels: strings_view(self.labels@) }
    }
}

/// Whether a label list names the labels to use or the labels to leave out.
#[derive(Debug, Clone, Copy, PartialEq, Eq, Structural)]
pub enum PyLabelModifierType {
    Include,
    Exclude,
}

/// A label list and what it is for.
#[derive(Debug, Clone, PartialEq, Eq)]
pub struct PyLabelModifier {
    pub kind: PyLabelModifierType,
    pub labels: Vec<String>,
}

/// What a [`PyLabelModifier`] holds, as mathematical values.
pub struct PyLabelModifierView {
    pub kind: PyLabelModifierType,
    pub labels: Seq<Seq<char>>,
}

impl View for PyLabelModifier {
    type V = PyLabelModifierView;

    open spec fn view(&self) -> PyLabelModifierView {
        PyLabelModifierView { kind: self.kind, labels: strings_view(self.labels@) }
    }
}

/// The view of an optional label modifier.
pub open spec fn opt_label_modifier_view(m: Option<PyLabelModifier>) -> Option<
    PyLabelModifierView,
> {
    match m {
        Some(m) => Some(m@),
        None => None,
    }
}

/// How the series of the two sides of a binary operation pair up.
#[derive(Debug, Clone, Copy, PartialEq, Eq, Structural)]
pub enum PyVectorMatchCardinality {
    OneToOne,
    ManyToOne,
    OneToMany,
    ManyToMany,
}

/// The modifier of a binary operation between two vectors.
///
/// `matching` is the `on` or `ignoring` clause. `grouping` is the label list
/// of `group_left` or `group_right`: present, though possibly empty, exactly
/// when the cardinality is `ManyToOne` or `OneToMany`.
#[derive(Debug, Clone, PartialEq, Eq)]
pub struct PyBinModifier {
    pub card: PyVectorMatchCardinality,
    pub matching: Option<PyLabelModifier>,
    pub grouping: Option<PyLabelModifier>,
    pub return_bool: bool,
}

/// What a [`PyBinModifier`] holds, as mathematical values.
pub struct PyBinModifierView {
    pub card: PyVectorMatchCardinality,
    pub matching: Option<PyLabelModifierView>,
    pub grouping: Option<PyLabelModifierView>,
    pub return_bool: bool,
}

impl View for PyBinModifier {
    type V = PyBinModifierView;

    open spec fn view(&self) -> PyBinModifierView {
        PyBinModifierView {
            card: self.card,
            matching: opt_label_modifier_view(self.matching),
            grouping: opt_label_modifier_view(self.grouping),
            return_bool: self.return_bool,
        }
    }
}

/// Which form an `@` modifier has.
#[derive(Debug, Clone, Copy, PartialEq, Eq, Structural)]
pub enum PyAtModifierType {
    Start,
    End,
    At,
}

/// The `@` modifier. Only the `At` form carries an instant.
#[derive(Debug, Clone, Copy, PartialEq, Eq, Structural)]
pub struct PyAtModifier {
    pub kind: PyAtModifierType,
    pub at: Option<Timestamp>,
}

/// The type an expression evaluates to.
#[derive(Debug, Clone, Copy, PartialEq, Eq, Structural)]
pub enum PyValueType {
    Vector,
    Scalar,
    Matrix,
    String,
}

/// A builtin function's descriptor.
#[derive(Debug, Clone, PartialEq, Eq)]
pub struct PyFunction {
    pub name: String,
    pub arg_types: Vec<PyValueType>,
    pub variadic: bool,
    pub return_type: PyValueType,
}

/// What a [`PyFunction`] holds, as mathematical values.
pub struct PyFunctionView {
    pub name: Seq<char>,
    pub arg_types: Seq<PyValueType>,
    pub variadic: bool,
    pub return_type: PyValueType,
}

impl View for PyFunction {
    type V = PyFunctionView;

    open spec fn view(&self) -> PyFunctionView {
        PyFunctionView {
            name: self.name@,
            arg_types: self.arg_types@,
            variadic: self.variadic,
            return_type: self.return_type,
        }
    }
}

/// An aggregation over a vector.
#[derive(Debug, PartialEq, Eq)]
pub struct PyAggregateExpr {
    pub op: PyTokenType,
    pub expr: Box<PyExpr>,
    pub param: Option<Box<PyExpr>>,
    pub modifier: Option<PyAggModifier>,
}

/// A unary operation on an expression.
#[derive(Debug, PartialEq, Eq)]
pub struct PyUnaryExpr {
    pub op: PyTokenType,
    pub expr: Box<PyExpr>,
}

/// A binary operation between two expressions.
#[derive(Debug, PartialEq, Eq)]
pub struct PyBinaryExpr {
    pub op: PyTokenType,
    pub lhs: Box<PyExpr>,
    pub rhs: Box<PyExpr>,
    pub modifier: Option<PyBinModifier>,
}

/// An expression in parentheses.
#[derive(Debug, PartialEq, Eq)]
pub struct PyParenExpr {
    pub expr: Box<PyExpr>,
}

/// An expression evaluated over a range, at a step.
#[derive(Debug, PartialEq, Eq)]
pub struct PySubqueryExpr {
    pub expr: Box<PyExpr>,
    pub offset: Option<SignedDuration>,
    pub at: Option<PyAtModifier>,
    pub range: SignedDuration,
    pub step: Option<SignedDuration>,
}

/// A number, as the bit pattern of its 64-bit float. Every pattern is kept
/// as it is, those of NaN and the infinities too.
#[derive(Debug, Clone, Copy, PartialEq, Eq, Structural)]
pub struct PyNumberLiteral {
    pub bits: u64,
}

/// A string.
#[derive(Debug, Clone, PartialEq, Eq)]
pub struct PyStringLiteral {
    pub val: String,
}

/// A selection of series at one instant.
#[derive(Debug, Clone, PartialEq, Eq)]
pub struct PyVectorSelector {
    pub name: Option<String>,
    pub matchers: PyMatchers,
    pub offset: Option<SignedDuration>,
    pub at: Option<PyAtModifier>,
}

/// A selection of series over a range.
#[derive(Debug, Clone, PartialEq, Eq)]
pub struct PyMatrixSelector {
    pub vector_selector: PyVectorSelector,
    pub range: SignedDuration,
}

/// A call of a builtin function.
#[derive(Debug, PartialEq, Eq)]
pub struct PyCall {
    pub func: PyFunction,
    pub args: Vec<PyExpr>,
}

/// An expression: exactly one of ten kinds of node.
#[derive(Debug, PartialEq, Eq)]
pub enum PyExpr {
    Aggregate(PyAggregateExpr),
    Unary(PyUnaryExpr),
    Binary(PyBinaryExpr),
    Paren(PyParenExpr),
    Subquery(PySubqueryExpr),
    NumberLiteral(PyNumberLiteral),
    StringLiteral(PyStringLiteral),
    VectorSelector(PyVectorSelector),
    MatrixSelector(PyMatrixSelector),
    Call(PyCall),
}

/// What a [`PyAggregateExpr`] holds, as mathematical values.
pub struct PyAggregateExprView {
    pub op: PyTokenType,
    pub expr: Box<PyExprView>,
    pub param: Option<Box<PyExprView>>,
    pub modifier: Option<PyAggModifierView>,
}

/// What a [`PyUnaryExpr`] holds, as mathematical values.
pub struct PyUnaryExprView {
    pub op: PyTokenType,
    pub expr: Box<PyExprView>,
}

/// What a [`PyBinaryExpr`] holds, as mathematical values.
pub struct PyBinaryExprView {
    pub op: PyTokenType,
    pub lhs: Box<PyExprView>,
    pub rhs: Box<PyExprView>,
    pub modifier: Option<PyBinModifierView>,
}

/// What a [`PyParenExpr`] holds, as mathematical values.
pub struct PyParenExprView {
    pub expr: Box<PyExprView>,
}

/// What a [`PySubqueryExpr`] holds, as mathematical values.
pub struct PySubqueryExprView {
    pub expr: Box<PyExprView>,
    pub offset: Option<int>,
    pub at: Option<PyAtModifier>,
    pub range: int,
    pub step: Option<int>,
}

/// What a [`PyStringLiteral`] holds, as mathematical values.
pub struct PyStringLiteralView {
    pub val: Seq<char>,
}

/// What a [`PyVectorSelector`] holds, as mathematical values.
pub struct PyVectorSelectorView {
    pub name: Option<Seq<char>>,
    pub matchers: PyMatchersView,
    pub offset: Option<int>,
    pub at: Option<PyAtModifier>,
}

/// What a [`PyMatrixSelector`] holds, as mathematical values.
pub struct PyMatrixSelectorView {
    pub vector_selector: PyVectorSelectorView,
    pub range: int,
}

/// What a [`PyCall`] holds, as mathematical values.
pub struct PyCallView {
    pub func: PyFunctionView,
    pub args: Seq<PyExprView>,
}

/// What a [`PyExpr`] holds, as mathematical values.
pub enum PyExprView {
    Aggregate(PyAggregateExprView),
    Unary(PyUnaryExprView),
    Binary(PyBinaryExprView),
    Paren(PyParenExprView),
    Subquery(PySubqueryExprView),
    NumberLiteral(PyNumberLiteral),
    StringLiteral(PyStringLiteralView),
    VectorSelector(PyVectorSelectorView),
    MatrixSelector(PyMatrixSelectorView),
    Call(PyCallView),
}

impl View for PyStringLiteral {
    type V = PyStringLiteralView;

    open spec fn view(&self) -> PyStringLiteralView {
        PyStringLiteralView { val: self.val@ }
    }
}

impl View for PyVectorSelector {
    type V = PyVectorSelectorView;

    open spec fn view(&self) -> PyVectorSelectorView {
        PyVectorSelectorView {
            name: crate::source::opt_string_view(self.name),
            matchers: self.matchers@,
            offset: opt_duration_view(self.offset),
            at: self.at,
        }
    }
}

impl View for PyMatrixSelector {
    type V = PyMatrixSelectorView;

    open spec fn view(&self) -> PyMatrixSelectorView {
        PyMatrixSelectorView { vector_selector: self.vector_selector@, range: self.range@ }
    }
}

/// The view of a node, node by node.
pub open spec fn node_view(e: PyExpr) -> PyExprView
    decreases e,
{
    match e {
        PyExpr::Aggregate(a) => PyExprView::Aggregate(aggregate_node_view(a)),
        PyExpr::Unary(u) => PyExprView::Unary(unary_node_view(u)),
        PyExpr::Binary(b) => PyExprView::Binary(binary_node_view(b)),
        PyExpr::Paren(p) => PyExprView::Paren(paren_node_view(p)),
        PyExpr::Subquery(s) => PyExprView::Subquery(subquery_node_view(s)),
        PyExpr::NumberLiteral(n) => PyExprView::NumberLiteral(n),
        PyExpr::StringLiteral(s) => PyExprView::StringLiteral(s@),
        PyExpr::VectorSelector(v) => PyExprView::VectorSelector(v@),
        PyExpr::MatrixSelector(m) => PyExprView::MatrixSelector(m@),
        PyExpr::Call(c) => PyExprView::Call(call_node_view(c)),
    }
}

/// The view of an optional boxed node.
pub open spec fn opt_node_view(e: Option<Box<PyExpr>>) -> Option<Box<PyExprView>>
    decreases e,
{
    match e {
        Some(e) => Some(Box::new(node_view(*e))),
        None => None,
    }
}

/// The view of a [`PyAggregateExpr`].
pub open spec fn aggregate_node_view(a: PyAggregateExpr) -> PyAggregateExprView
    decreases a,
{
    PyAggregateExprView {
        op: a.op,
        expr: Box::new(node_view(*a.expr)),
        param: opt_node_view(a.param),
        modifier: match a.modifier {
            Some(m) => Some(m@),
            None => None,
        },
    }
}

/// The view of a [`PyUnaryExpr`].
pub open spec fn unary_node_view(u: PyUnaryExpr) -> PyUnaryExprView
    decreases u,
{
    PyUnaryExprView { op: u.op, expr: Box::new(node_view(*u.expr)) }
}

/// The view of a [`PyBinaryExpr`].
pub open spec fn binary_node_view(b: PyBinaryExpr) -> PyBinaryExprView
    decreases b,
{
    PyBinaryExprView {
        op: b.op,
        lhs: Box::new(node_view(*b.lhs)),
        rhs: Box::new(node_view(*b.rhs)),
        modifier: match b.modifier {
            Some(m) => Some(m@),
            None => None,
        },
    }
}

/// The view of a [`PyParenExpr`].
pub open spec fn paren_node_view(p: PyParenExpr) -> PyParenExprView
    decreases p,
{
    PyParenExprView { expr: Box::new(node_view(*p.expr)) }
}

/// The view of a [`PySubqueryExpr`].
pub open spec fn subquery_node_view(s: PySubqueryExpr) -> PySubqueryExprView
    decreases s,
{
    PySubqueryExprView {
        expr: Box::new(node_view(*s.expr)),
        offset: opt_duration_view(s.offset),
        at: s.at,
        range: s.range@,
        step: opt_duration_view(s.step),
    }
}

/// The views of a list of nodes, in order.
pub open spec fn nodes_view(v: Seq<PyExpr>) -> Seq<PyExprView>
    decreases v,
{
    Seq::new(
        v.len(),
        |i: int|
            if 0 <= i < v.len() {
                node_view(v[i])
            } else {
                arbitrary()
            },
    )
}

/// The view of a [`PyCall`].
pub open spec fn call_node_view(c: PyCall) -> PyCallView
    decreases c,
{
    PyCallView { func: c.func@, args: nodes_view(c.args@) }
}

impl View for PyAggregateExpr {
    type V = PyAggregateExprView;

    open spec fn view(&self) -> PyAggregateExprView {
        aggregate_node_view(*self)
    }
}

impl View for PyUnaryExpr {
    type V = PyUnaryExprView;

    open spec fn view(&self) -> PyUnaryExprView {
        unary_node_view(*self)
    }
}

impl View for PyBinaryExpr {
    type V = PyBinaryExprView;

    open spec fn view(&self) -> PyBinaryExprView {
        binary_node_view(*self)
    }
}

impl View for PyParenExpr {
    type V = PyParenExprView;

    open spec fn view(&self) -> PyParenExprView {
        paren_node_view(*self)
    }
}

impl View for PySubqueryExpr {
    type V = PySubqueryExprView;

    open spec fn view(&self) -> PySubqueryExprView {
        subquery_node_view(*self)
    }
}

impl View for PyCall {
    type V = PyCallView;

    open spec fn view(&self) -> PyCallView {
        call_node_view(*self)
    }
}

impl View for PyExpr {
    type V = PyExprView;

    open spec fn view(&self) -> PyExprView {
        node_view(*self)
    }
}

} // verus!
