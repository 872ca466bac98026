//! The projection: from a parser's tree to the node model, one node for one
//! node, children before their parent. It either yields the whole tree or
//! fails as a whole.

use vstd::prelude::*;
use vstd::std_specs::convert::FromSpecImpl;

use crate::duration::{opt_offset_nanos, opt_signed_nanos, signed_nanos, SignedDuration};
use crate::error::Error;
use crate::matcher::{PyMatchOp, PyMatcher, PyMatcherView, PyMatchers, PyMatchersView};
use crate::node::{
    nodes_view, PyAggModifier, PyAggModifierType, PyAggModifierView, PyAggregateExpr,
    PyAggregateExprView, PyAtModifier, PyAtModifierType, PyBinModifier, PyBinModifierView,
    PyBinaryExpr, PyBinaryExprView, PyCall, PyCallView, PyExpr, PyExprView, PyFunction,
    PyFunctionView, PyLabelModifier, PyLabelModifierType, PyLabelModifierView, PyMatrixSelector,
    PyMatrixSelectorView, PyNumberLiteral, PyParenExpr, PyParenExprView, PyStringLiteral,
    PyStringLiteralView, PySubqueryExpr, PySubqueryExprView, PyTokenType, PyUnaryExpr,
    PyUnaryExprView, PyValueType, PyVectorMatchCardinality, PyVectorSelector,
    PyVectorSelectorView,
};
use crate::source::{
    exprs_view, strings_view, AggregateExpr, AggregateExprView, AtModifier, BinModifier,
    BinModifierView, BinaryExpr, BinaryExprView, Call, CallView, Expr, ExprView, Function,
    FunctionView, LabelModifier, LabelModifierView, MatchOp, MatchOpView, Matcher, MatcherView,
    Matchers, MatchersView, MatrixSelector, MatrixSelectorView, NumberLiteral, ParenExpr,
    ParenExprView, StringLiteral, SubqueryExpr, SubqueryExprView, TokenType,
    UnaryExpr, UnaryExprView, ValueType, VectorMatchCardinality, VectorMatchCardinalityView,
    VectorSelector, VectorSelectorView,
};

verus! {

impl From<TokenType> for PyTokenType {
    fn from(token_type: TokenType) -> (r: PyTokenType) {
        PyTokenType { kind: token_type }
    }
}

impl FromSpecImpl<TokenType> for PyTokenType {
    open spec fn obeys_from_spec() -> bool {
        true
    }

    open spec fn from_spec(token_type: TokenType) -> PyTokenType {
        PyTokenType { kind: token_type }
    }
}

/// A value type in the node model.
pub open spec fn project_value_type(value: ValueType) -> PyValueType {
    match value {
        ValueType::Vector => PyValueType::Vector,
        ValueType::Scalar => PyValueType::Scalar,
        ValueType::Matrix => PyValueType::Matrix,
        ValueType::String => PyValueType::String,
    }
}

impl From<ValueType> for PyValueType {
    fn from(value: ValueType) -> (r: PyValueType) {
        match value {
            ValueType::Vector => PyValueType::Vector,
            ValueType::Scalar => PyValueType::Scalar,
            ValueType::Matrix => PyValueType::Matrix,
            ValueType::String => PyValueType::String,
        }
    }
}

impl FromSpecImpl<ValueType> for PyValueType {
    open spec fn obeys_from_spec() -> bool {
        true
    }

    open spec fn from_spec(value: ValueType) -> PyValueType {
        project_value_type(value)
    }
}

/// The cardinality tag of `card`, without the labels it carries.
pub open spec fn project_cardinality(card: VectorMatchCardinalityView) -> PyVectorMatchCardinality {
    match card {
        VectorMatchCardinalityView::OneToOne => PyVectorMatchCardinality::OneToOne,
        VectorMatchCardinalityView::ManyToOne(_) => PyVectorMatchCardinality::ManyToOne,
        VectorMatchCardinalityView::OneToMany(_) => PyVectorMatchCardinality::OneToMany,
        VectorMatchCardinalityView::ManyToMany => PyVectorMatchCardinality::ManyToMany,
    }
}

impl<'a> From<&'a VectorMatchCardinality> for PyVectorMatchCardinality {
    fn from(value: &'a VectorMatchCardinality) -> (r: PyVectorMatchCardinality) {
        match value {
            VectorMatchCardinality::OneToOne => PyVectorMatchCardinality::OneToOne,
            VectorMatchCardinality::ManyToOne(_) => PyVectorMatchCardinality::ManyToOne,
            VectorMatchCardinality::OneToMany(_) => PyVectorMatchCardinality::OneToMany,
            VectorMatchCardinality::ManyToMany => PyVectorMatchCardinality::ManyToMany,
        }
    }
}

impl<'a> FromSpecImpl<&'a VectorMatchCardinality> for PyVectorMatchCardinality {
    open spec fn obeys_from_spec() -> bool {
        true
    }

    open spec fn from_spec(value: &'a VectorMatchCardinality) -> PyVectorMatchCardinality {
        project_cardinality(value@)
    }
}

/// The `@` modifier in the node model: its form, and the instant if it has one.
pub open spec fn project_at(at: AtModifier) -> PyAtModifier {
    match at {
        AtModifier::Start => PyAtModifier { kind: PyAtModifierType::Start, at: None },
        AtModifier::End => PyAtModifier { kind: PyAtModifierType::End, at: None },
        AtModifier::At(instant) => PyAtModifier { kind: PyAtModifierType::At, at: Some(instant) },
    }
}

/// The optional `@` modifier in the node model.
pub open spec fn project_opt_at(at: Option<AtModifier>) -> Option<PyAtModifier> {
    match at {
        Some(at) => Some(project_at(at)),
        None => None,
    }
}

impl From<AtModifier> for PyAtModifier {
    fn from(at: AtModifier) -> (r: PyAtModifier) {
        match at {
            AtModifier::Start => PyAtModifier { kind: PyAtModifierType::Start, at: None },
            AtModifier::End => PyAtModifier { kind: PyAtModifierType::End, at: None },
            AtModifier::At(instant) => PyAtModifier {
                kind: PyAtModifierType::At,
                at: Some(instant),
            },
        }
    }
}

impl FromSpecImpl<AtModifier> for PyAtModifier {
    open spec fn obeys_from_spec() -> bool {
        true
    }

    open spec fn from_spec(at: AtModifier) -> PyAtModifier {
        project_at(at)
    }
}

/// The operator of a matcher in the node model: the compiled pattern is left
/// behind, since the matcher's value already says what it was compiled from.
pub open spec fn project_match_op(op: MatchOpView) -> PyMatchOp {
    match op {
        MatchOpView::Equal => PyMatchOp::Equal,
        MatchOpView::NotEqual => PyMatchOp::NotEqual,
        MatchOpView::Re(_) => PyMatchOp::Re,
        MatchOpView::NotRe(_) => PyMatchOp::NotRe,
    }
}

/// A matcher in the node model: name and value as they are.
pub open spec fn project_matcher(m: MatcherView) -> PyMatcherView {
    PyMatcherView { op: project_match_op(m.op), name: m.name, value: m.value }
}

impl<'a> From<&'a Matcher> for PyMatcher {
    fn from(matcher: &'a Matcher) -> (r: PyMatcher) {
        PyMatcher {
            name: matcher.name.clone(),
            value: matcher.value.clone(),
            op: match matcher.op {
                MatchOp::Equal => PyMatchOp::Equal,
                MatchOp::NotEqual => PyMatchOp::NotEqual,
                MatchOp::Re(_) => PyMatchOp::Re,
                MatchOp::NotRe(_) => PyMatchOp::NotRe,
            },
        }
    }
}

impl<'a> FromSpecImpl<&'a Matcher> for PyMatcher {
    open spec fn obeys_from_spec() -> bool {
        true
    }

    open spec fn from_spec(matcher: &'a Matcher) -> PyMatcher {
        PyMatcher {
            name: matcher.name,
            value: matcher.value,
            op: project_match_op(matcher.op@),
        }
    }
}

/// A conjunction of matchers in the node model: each matcher, in order.
pub open spec fn project_matcher_set(set: Seq<MatcherView>) -> Seq<PyMatcherView> {
    set.map_values(|m: MatcherView| project_matcher(m))
}

/// The matchers of a selector in the node model: the primary conjunction,
/// then each alternative conjunction, in order.
pub open spec fn project_matchers(m: MatchersView) -> PyMatchersView {
    PyMatchersView {
        matchers: project_matcher_set(m.matchers),
        or_matchers: m.or_matchers.map_values(|set: Seq<MatcherView>| project_matcher_set(set)),
    }
}

/// Projects one conjunction of matchers.
pub fn create_matcher_set(set: &Vec<Matcher>) -> (r: Vec<PyMatcher>)
    ensures
        crate::matcher::py_matchers_view(r@) == project_matcher_set(
            crate::source::matchers_view(set@),
        ),
{
    let mut out: Vec<PyMatcher> = Vec::with_capacity(set.len());
    let mut i: usize = 0;
    while i < set.len()
        invariant
            i <= set.len(),
            out@.len() == i,
            forall|j: int| 0 <= j < i ==> (#[trigger] out@[j])@ == project_matcher(set@[j]@),
        decreases set.len() - i,
    {
        out.push(PyMatcher::from(&set[i]));
        i += 1;
    }
    assert(crate::matcher::py_matchers_view(out@) =~= project_matcher_set(
        crate::source::matchers_view(set@),
    ));
    out
}

impl PyMatchers {
    /// Projects the matchers of a selector.
    pub fn create(matchers: &Matchers) -> (r: PyMatchers)
        ensures
            r@ == project_matchers(matchers@),
    {
        let primary = create_matcher_set(&matchers.matchers);
        let mut alternatives: Vec<Vec<PyMatcher>> = Vec::with_capacity(matchers.or_matchers.len());
        let mut i: usize = 0;
        while i < matchers.or_matchers.len()
            invariant
                i <= matchers.or_matchers.len(),
                alternatives@.len() == i,
                forall|j: int|
                    0 <= j < i ==> crate::matcher::py_matchers_view(
                        (#[trigger] alternatives@[j])@,
                    ) == project_matcher_set(
                        crate::source::matchers_view(matchers.or_matchers@[j]@),
                    ),
            decreases matchers.or_matchers.len() - i,
        {
            alternatives.push(create_matcher_set(&matchers.or_matchers[i]));
            i += 1;
        }
        let r = PyMatchers { matchers: primary, or_matchers: alternatives };
        assert(r@.or_matchers =~= project_matchers(matchers@).or_matchers);
        r
    }
}

/// Copies a label list.
fn clone_labels(labels: &Vec<String>) -> (r: Vec<String>)
    ensures
        strings_view(r@) == strings_view(labels@),
{
    let mut out: Vec<String> = Vec::with_capacity(labels.len());
    let mut i: usize = 0;
    while i < labels.len()
        invariant
            i <= labels.len(),
            out@.len() == i,
            forall|j: int| 0 <= j < i ==> (#[trigger] out@[j])@ == labels@[j]@,
        decreases labels.len() - i,
    {
        out.push(labels[i].clone());
        i += 1;
    }
    assert(strings_view(out@) =~= strings_view(labels@));
    out
}

/// The grouping of an aggregation in the node model: `Include` is `by`,
/// `Exclude` is `without`.
pub open spec fn project_agg_modifier(m: LabelModifierView) -> PyAggModifierView {
    match m {
        LabelModifierView::Include(labels) => PyAggModifierView {
            kind: PyAggModifierType::By,
            labels,
        },
        LabelModifierView::Exclude(labels) => PyAggModifierView {
            kind: PyAggModifierType::Without,
            labels,
        },
    }
}

/// The optional grouping of an aggregation in the node model.
pub open spec fn project_opt_agg_modifier(m: Option<LabelModifierView>) -> Option<
    PyAggModifierView,
> {
    match m {
        Some(m) => Some(project_agg_modifier(m)),
        None => None,
    }
}

impl PyAggModifier {
    /// Projects the grouping of an aggregation.
    pub fn create(modifier: &LabelModifier) -> (r: PyAggModifier)
        ensures
            r@ == project_agg_modifier(modifier@),
    {
        match modifier {
            LabelModifier::Include(labels) => PyAggModifier {
                kind: PyAggModifierType::By,
                labels: clone_labels(labels),
            },
            LabelModifier::Exclude(labels) => PyAggModifier {
                kind: PyAggModifierType::Without,
                labels: clone_labels(labels),
            },
        }
    }
}

/// A label list of a binary operation in the node model.
pub open spec fn project_label_modifier(m: LabelModifierView) -> PyLabelModifierView {
    match m {
        LabelModifierView::Include(labels) => PyLabelModifierView {
            kind: PyLabelModifierType::Include,
            labels,
        },
        LabelModifierView::Exclude(labels) => PyLabelModifierView {
            kind: PyLabelModifierType::Exclude,
            labels,
        },
    }
}

/// The labels that a grouped cardinality carries, as a list of labels to
/// include; nothing for the two cardinalities that carry none.
pub open spec fn project_grouping(card: VectorMatchCardinalityView) -> Option<PyLabelModifierView> {
    match card {
        VectorMatchCardinalityView::ManyToOne(labels) => Some(
            PyLabelModifierView { kind: PyLabelModifierType::Include, labels },
        ),
        VectorMatchCardinalityView::OneToMany(labels) => Some(
            PyLabelModifierView { kind: PyLabelModifierType::Include, labels },
        ),
        _ => None,
    }
}

/// The modifier of a binary operation in the node model. The cardinality
/// becomes a bare tag; the labels it carried move to `grouping`.
pub open spec fn project_bin_modifier(m: BinModifierView) -> PyBinModifierView {
    PyBinModifierView {
        card: project_cardinality(m.card),
        matching: match m.matching {
            Some(l) => Some(project_label_modifier(l)),
            None => None,
        },
        grouping: project_grouping(m.card),
        return_bool: m.return_bool,
    }
}

/// The optional modifier of a binary operation in the node model.
pub open spec fn project_opt_bin_modifier(m: Option<BinModifierView>) -> Option<PyBinModifierView> {
    match m {
        Some(m) => Some(project_bin_modifier(m)),
        None => None,
    }
}

impl PyLabelModifier {
    /// Projects the `on` or `ignoring` clause of a binary operation.
    pub fn create(modifier: &LabelModifier) -> (r: PyLabelModifier)
        ensures
            r@ == project_label_modifier(modifier@),
    {
        match modifier {
            LabelModifier::Include(labels) => PyLabelModifier {
                kind: PyLabelModifierType::Include,
                labels: clone_labels(labels),
            },
            LabelModifier::Exclude(labels) => PyLabelModifier {
                kind: PyLabelModifierType::Exclude,
                labels: clone_labels(labels),
            },
        }
    }

    /// Brings out the labels of `group_left` or `group_right`.
    pub fn grouping(card: &VectorMatchCardinality) -> (r: Option<PyLabelModifier>)
        ensures
            crate::node::opt_label_modifier_view(r) == project_grouping(card@),
    {
        match card {
            VectorMatchCardinality::ManyToOne(labels) => Some(
                PyLabelModifier { kind: PyLabelModifierType::Include, labels: clone_labels(labels) },
            ),
            VectorMatchCardinality::OneToMany(labels) => Some(
                PyLabelModifier { kind: PyLabelModifierType::Include, labels: clone_labels(labels) },
            ),
            _ => None,
        }
    }
}

impl PyBinModifier {
    /// Projects the modifier of a binary operation.
    pub fn create(modifier: &BinModifier) -> (r: PyBinModifier)
        ensures
            r@ == project_bin_modifier(modifier@),
    {
        PyBinModifier {
            card: PyVectorMatchCardinality::from(&modifier.card),
            matching: match &modifier.matching {
                Some(l) => Some(PyLabelModifier::create(l)),
                None => None,
            },
            grouping: PyLabelModifier::grouping(&modifier.card),
            return_bool: modifier.return_bool,
        }
    }
}

/// The types of a function's arguments in the node model, in order.
pub open spec fn project_value_types(types: Seq<ValueType>) -> Seq<PyValueType> {
    types.map_values(|t: ValueType| project_value_type(t))
}

/// A function's descriptor in the node model.
pub open spec fn project_function(f: FunctionView) -> PyFunctionView {
    PyFunctionView {
        name: f.name,
        arg_types: project_value_types(f.arg_types),
        variadic: f.variadic,
        return_type: project_value_type(f.return_type),
    }
}

impl PyFunction {
    /// Projects a function's descriptor.
    pub fn create(func: &Function) -> (r: PyFunction)
        ensures
            r@ == project_function(func@),
    {
        let mut arg_types: Vec<PyValueType> = Vec::with_capacity(func.arg_types.len());
        let mut i: usize = 0;
        while i < func.arg_types.len()
            invariant
                i <= func.arg_types.len(),
                arg_types@.len() == i,
                forall|j: int|
                    0 <= j < i ==> #[trigger] arg_types@[j] == project_value_type(
                        func.arg_types@[j],
                    ),
            decreases func.arg_types.len() - i,
        {
            arg_types.push(PyValueType::from(func.arg_types[i]));
            i += 1;
        }
        assert(arg_types@ =~= project_value_types(func.arg_types@));
        PyFunction {
            name: func.name.clone(),
            arg_types,
            variadic: func.variadic,
            return_type: PyValueType::from(func.return_type),
        }
    }
}

/// A vector selector in the node model, or the overflow of its offset.
pub open spec fn project_vector_selector(v: VectorSelectorView) -> Result<
    PyVectorSelectorView,
    Error,
> {
    match opt_offset_nanos(v.offset) {
        Err(e) => Err(e),
        Ok(offset) => Ok(
            PyVectorSelectorView {
                name: v.name,
                matchers: project_matchers(v.matchers),
                offset,
                at: project_opt_at(v.at),
            },
        ),
    }
}

/// A matrix selector in the node model, or the first overflow met: that of
/// the selector's offset, then that of the range.
pub open spec fn project_matrix_selector(m: MatrixSelectorView) -> Result<
    PyMatrixSelectorView,
    Error,
> {
    match project_vector_selector(m.vs) {
        Err(e) => Err(e),
        Ok(vector_selector) => match signed_nanos(m.range) {
            Err(e) => Err(e),
            Ok(range) => Ok(PyMatrixSelectorView { vector_selector, range }),
        },
    }
}

/// The node that stands for the expression `e`, or why there is none.
///
/// Children come before their parent and, among the fields of one node, in
/// the order in which the node lists them; the first failure met is the
/// failure of the whole tree.
pub open spec fn project(e: ExprView) -> Result<PyExprView, Error>
    decreases e, 0nat,
{
    match e {
        ExprView::Aggregate(a) => match project_aggregate(a) {
            Ok(n) => Ok(PyExprView::Aggregate(n)),
            Err(e) => Err(e),
        },
        ExprView::Unary(u) => match project_unary(u) {
            Ok(n) => Ok(PyExprView::Unary(n)),
            Err(e) => Err(e),
        },
        ExprView::Binary(b) => match project_binary(b) {
            Ok(n) => Ok(PyExprView::Binary(n)),
            Err(e) => Err(e),
        },
        ExprView::Paren(p) => match project_paren(p) {
            Ok(n) => Ok(PyExprView::Paren(n)),
            Err(e) => Err(e),
        },
        ExprView::Subquery(s) => match project_subquery(s) {
            Ok(n) => Ok(PyExprView::Subquery(n)),
            Err(e) => Err(e),
        },
        ExprView::NumberLiteral(n) => Ok(
            PyExprView::NumberLiteral(PyNumberLiteral { bits: n.bits }),
        ),
        ExprView::StringLiteral(s) => Ok(
            PyExprView::StringLiteral(PyStringLiteralView { val: s.val }),
        ),
        ExprView::VectorSelector(v) => match project_vector_selector(v) {
            Ok(n) => Ok(PyExprView::VectorSelector(n)),
            Err(e) => Err(e),
        },
        ExprView::MatrixSelector(m) => match project_matrix_selector(m) {
            Ok(n) => Ok(PyExprView::MatrixSelector(n)),
            Err(e) => Err(e),
        },
        ExprView::Call(c) => match project_call(c) {
            Ok(n) => Ok(PyExprView::Call(n)),
            Err(e) => Err(e),
        },
        ExprView::Extension(_) => Err(Error::UnsupportedConstruct),
    }
}

/// The node for an optional expression: absent stays absent.
pub open spec fn project_opt(e: Option<Box<ExprView>>) -> Result<Option<Box<PyExprView>>, Error>
    decreases e, 0nat,
{
    match e {
        None => Ok(None),
        Some(e) => match project(*e) {
            Ok(n) => Ok(Some(Box::new(n))),
            Err(e) => Err(e),
        },
    }
}

/// An aggregation in the node model: the operand, then the parameter.
pub open spec fn project_aggregate(a: AggregateExprView) -> Result<PyAggregateExprView, Error>
    decreases a, 0nat,
{
    match project(*a.expr) {
        Err(e) => Err(e),
        Ok(expr) => match project_opt(a.param) {
            Err(e) => Err(e),
            Ok(param) => Ok(
                PyAggregateExprView {
                    op: PyTokenType { kind: a.op },
                    expr: Box::new(expr),
                    param,
                    modifier: project_opt_agg_modifier(a.modifier),
                },
            ),
        },
    }
}

/// A unary operation in the node model.
pub open spec fn project_unary(u: UnaryExprView) -> Result<PyUnaryExprView, Error>
    decreases u, 0nat,
{
    match project(*u.expr) {
        Err(e) => Err(e),
        Ok(expr) => Ok(PyUnaryExprView { op: PyTokenType { kind: u.op }, expr: Box::new(expr) }),
    }
}

/// A binary operation in the node model: the left side, then the right.
pub open spec fn project_binary(b: BinaryExprView) -> Result<PyBinaryExprView, Error>
    decreases b, 0nat,
{
    match project(*b.lhs) {
        Err(e) => Err(e),
        Ok(lhs) => match project(*b.rhs) {
            Err(e) => Err(e),
            Ok(rhs) => Ok(
                PyBinaryExprView {
                    op: PyTokenType { kind: b.op },
                    lhs: Box::new(lhs),
                    rhs: Box::new(rhs),
                    modifier: project_opt_bin_modifier(b.modifier),
                },
            ),
        },
    }
}

/// A parenthesised expression in the node model.
pub open spec fn project_paren(p: ParenExprView) -> Result<PyParenExprView, Error>
    decreases p, 0nat,
{
    match project(*p.expr) {
        Err(e) => Err(e),
        Ok(expr) => Ok(PyParenExprView { expr: Box::new(expr) }),
    }
}

/// A subquery in the node model: the operand, then offset, range and step.
pub open spec fn project_subquery(s: SubqueryExprView) -> Result<PySubqueryExprView, Error>
    decreases s, 0nat,
{
    match project(*s.expr) {
        Err(e) => Err(e),
        Ok(expr) => match opt_offset_nanos(s.offset) {
            Err(e) => Err(e),
            Ok(offset) => match signed_nanos(s.range) {
                Err(e) => Err(e),
                Ok(range) => match opt_signed_nanos(s.step) {
                    Err(e) => Err(e),
                    Ok(step) => Ok(
                        PySubqueryExprView {
                            expr: Box::new(expr),
                            offset,
                            at: project_opt_at(s.at),
                            range,
                            step,
                        },
                    ),
                },
            },
        },
    }
}

/// The nodes for the first `n` of `args`, in order, or the failure of the
/// first among them that has no node.
pub open spec fn project_prefix(args: Seq<ExprView>, n: nat) -> Result<Seq<PyExprView>, Error>
    decreases args, n,
{
    if n == 0 || n > args.len() {
        Ok(Seq::empty())
    } else {
        match project_prefix(args, (n - 1) as nat) {
            Err(e) => Err(e),
            Ok(nodes) => match project(args[n - 1]) {
                Err(e) => Err(e),
                Ok(node) => Ok(nodes.push(node)),
            },
        }
    }
}

/// A call in the node model: every argument, in order.
pub open spec fn project_call(c: CallView) -> Result<PyCallView, Error>
    decreases c, 0nat,
{
    match project_prefix(c.args, c.args.len()) {
        Err(e) => Err(e),
        Ok(args) => Ok(PyCallView { func: project_function(c.func), args }),
    }
}

/// Once a prefix of the arguments has failed, every longer prefix fails the
/// same way.
pub proof fn lemma_prefix_failure_stays(args: Seq<ExprView>, n: nat, m: nat)
    requires
        n <= m <= args.len(),
        project_prefix(args, n) is Err,
    ensures
        project_prefix(args, m) == project_prefix(args, n),
    decreases m,
{
    if n < m {
        lemma_prefix_failure_stays(args, n, (m - 1) as nat);
    }
}

/// Clones an optional string.
fn clone_opt_string(s: &Option<String>) -> (r: Option<String>)
    ensures
        crate::source::opt_string_view(r) == crate::source::opt_string_view(*s),
{
    match s {
        Some(s) => Some(s.clone()),
        None => None,
    }
}

/// Projects an optional `@` modifier.
fn create_opt_at(at: Option<AtModifier>) -> (r: Option<PyAtModifier>)
    ensures
        r == project_opt_at(at),
{
    match at {
        Some(at) => Some(PyAtModifier::from(at)),
        None => None,
    }
}

impl PyVectorSelector {
    /// Projects a vector selector: name and matchers as they are, the offset
    /// as a signed duration. Fails only if the offset does not fit.
    pub fn create(expr: &VectorSelector) -> (r: Result<PyVectorSelector, Error>)
        ensures
            match r {
                Ok(node) => project_vector_selector(expr@) == Ok::<PyVectorSelectorView, Error>(
                    node@,
                ),
                Err(e) => project_vector_selector(expr@) == Err::<PyVectorSelectorView, Error>(e),
            },
    {
        let matchers = PyMatchers::create(&expr.matchers);
        let offset = match SignedDuration::from_opt_offset(expr.offset) {
            Ok(offset) => offset,
            Err(e) => {
                return Err(e);
            },
        };
        Ok(
            PyVectorSelector {
                name: clone_opt_string(&expr.name),
                matchers,
                offset,
                at: create_opt_at(expr.at),
            },
        )
    }
}

impl PyMatrixSelector {
    /// Projects a matrix selector: the vector selector, then the range.
    pub fn create(expr: &MatrixSelector) -> (r: Result<PyMatrixSelector, Error>)
        ensures
            match r {
                Ok(node) => project_matrix_selector(expr@) == Ok::<PyMatrixSelectorView, Error>(
                    node@,
                ),
                Err(e) => project_matrix_selector(expr@) == Err::<PyMatrixSelectorView, Error>(e),
            },
    {
        let vector_selector = match PyVectorSelector::create(&expr.vs) {
            Ok(v) => v,
            Err(e) => {
                return Err(e);
            },
        };
        match SignedDuration::from_unsigned(expr.range) {
            Ok(range) => Ok(PyMatrixSelector { vector_selector, range }),
            Err(e) => Err(e),
        }
    }
}

impl PyNumberLiteral {
    /// Projects a number literal: the same bits.
    pub fn create(expr: &NumberLiteral) -> (r: PyNumberLiteral)
        ensures
            r.bits == expr.bits,
    {
        PyNumberLiteral { bits: expr.bits }
    }
}

impl PyStringLiteral {
    /// Projects a string literal: the same text.
    pub fn create(expr: &StringLiteral) -> (r: PyStringLiteral)
        ensures
            r@.val == expr@.val,
    {
        PyStringLiteral { val: expr.val.clone() }
    }
}

impl PyExpr {
    /// Projects a parsed expression to its node, children first.
    ///
    /// Succeeds unless a duration in the tree exceeds the signed range or the
    /// tree holds an extension node; then no tree at all is returned, and the
    /// error is that of the first such place in the order of `project`.
    pub fn create(expr: &Expr) -> (r: Result<PyExpr, Error>)
        ensures
            match r {
                Ok(node) => project(expr@) == Ok::<PyExprView, Error>(node@),
                Err(e) => project(expr@) == Err::<PyExprView, Error>(e),
            },
        decreases expr,
    {
        match expr {
            Expr::Aggregate(agg) => match PyAggregateExpr::create(agg) {
                Ok(n) => Ok(PyExpr::Aggregate(n)),
                Err(e) => Err(e),
            },
            Expr::Unary(unary) => match PyUnaryExpr::create(unary) {
                Ok(n) => Ok(PyExpr::Unary(n)),
                Err(e) => Err(e),
            },
            Expr::Binary(bin) => match PyBinaryExpr::create(bin) {
                Ok(n) => Ok(PyExpr::Binary(n)),
                Err(e) => Err(e),
            },
            Expr::Paren(paren) => match PyParenExpr::create(paren) {
                Ok(n) => Ok(PyExpr::Paren(n)),
                Err(e) => Err(e),
            },
            Expr::Subquery(subquery) => match PySubqueryExpr::create(subquery) {
                Ok(n) => Ok(PyExpr::Subquery(n)),
                Err(e) => Err(e),
            },
            Expr::NumberLiteral(lit) => Ok(PyExpr::NumberLiteral(PyNumberLiteral::create(lit))),
            Expr::StringLiteral(lit) => Ok(PyExpr::StringLiteral(PyStringLiteral::create(lit))),
            Expr::VectorSelector(selector) => match PyVectorSelector::create(selector) {
                Ok(n) => Ok(PyExpr::VectorSelector(n)),
                Err(e) => Err(e),
            },
            Expr::MatrixSelector(selector) => match PyMatrixSelector::create(selector) {
                Ok(n) => Ok(PyExpr::MatrixSelector(n)),
                Err(e) => Err(e),
            },
            Expr::Call(call) => match PyCall::create(call) {
                Ok(n) => Ok(PyExpr::Call(n)),
                Err(e) => Err(e),
            },
            Expr::Extension(_) => Err(Error::UnsupportedConstruct),
        }
    }

    /// Projects an optional expression.
    fn create_opt(expr: &Option<Box<Expr>>) -> (r: Result<Option<Box<PyExpr>>, Error>)
        ensures
            match r {
                Ok(node) => project_opt(crate::source::opt_expr_view(*expr)) == Ok::<
                    Option<Box<PyExprView>>,
                    Error,
                >(crate::node::opt_node_view(node)),
                Err(e) => project_opt(crate::source::opt_expr_view(*expr)) == Err::<
                    Option<Box<PyExprView>>,
                    Error,
                >(e),
            },
        decreases expr,
    {
        match expr {
            None => Ok(None),
            Some(expr) => match PyExpr::create(expr) {
                Ok(n) => Ok(Some(Box::new(n))),
                Err(e) => Err(e),
            },
        }
    }
}

impl PyAggregateExpr {
    /// Projects an aggregation. The parameter is present in the node exactly
    /// when it is present in the expression.
    pub fn create(expr: &AggregateExpr) -> (r: Result<PyAggregateExpr, Error>)
        ensures
            match r {
                Ok(node) => project_aggregate(expr@) == Ok::<PyAggregateExprView, Error>(node@),
                Err(e) => project_aggregate(expr@) == Err::<PyAggregateExprView, Error>(e),
            },
        decreases expr,
    {
        let operand = match PyExpr::create(&expr.expr) {
            Ok(n) => n,
            Err(e) => {
                return Err(e);
            },
        };
        let param = match PyExpr::create_opt(&expr.param) {
            Ok(n) => n,
            Err(e) => {
                return Err(e);
            },
        };
        let modifier = match &expr.modifier {
            Some(m) => Some(PyAggModifier::create(m)),
            None => None,
        };
        Ok(
            PyAggregateExpr {
                op: PyTokenType::from(expr.op),
                expr: Box::new(operand),
                param,
                modifier,
            },
        )
    }
}

impl PyUnaryExpr {
    /// Projects a unary operation.
    pub fn create(expr: &UnaryExpr) -> (r: Result<PyUnaryExpr, Error>)
        ensures
            match r {
                Ok(node) => project_unary(expr@) == Ok::<PyUnaryExprView, Error>(node@),
                Err(e) => project_unary(expr@) == Err::<PyUnaryExprView, Error>(e),
            },
        decreases expr,
    {
        match PyExpr::create(&expr.expr) {
            Ok(n) => Ok(PyUnaryExpr { op: PyTokenType::from(expr.op), expr: Box::new(n) }),
            Err(e) => Err(e),
        }
    }
}

impl PyBinaryExpr {
    /// Projects a binary operation and its modifier.
    pub fn create(expr: &BinaryExpr) -> (r: Result<PyBinaryExpr, Error>)
        ensures
            match r {
                Ok(node) => project_binary(expr@) == Ok::<PyBinaryExprView, Error>(node@),
                Err(e) => project_binary(expr@) == Err::<PyBinaryExprView, Error>(e),
            },
        decreases expr,
    {
        let modifier = match &expr.modifier {
            Some(m) => Some(PyBinModifier::create(m)),
            None => None,
        };
        let lhs = match PyExpr::create(&expr.lhs) {
            Ok(n) => n,
            Err(e) => {
                return Err(e);
            },
        };
        let rhs = match PyExpr::create(&expr.rhs) {
            Ok(n) => n,
            Err(e) => {
                return Err(e);
            },
        };
        Ok(
            PyBinaryExpr {
                op: PyTokenType::from(expr.op),
                lhs: Box::new(lhs),
                rhs: Box::new(rhs),
                modifier,
            },
        )
    }
}

impl PyParenExpr {
    /// Projects a parenthesised expression.
    pub fn create(expr: &ParenExpr) -> (r: Result<PyParenExpr, Error>)
        ensures
            match r {
                Ok(node) => project_paren(expr@) == Ok::<PyParenExprView, Error>(node@),
                Err(e) => project_paren(expr@) == Err::<PyParenExprView, Error>(e),
            },
        decreases expr,
    {
        match PyExpr::create(&expr.expr) {
            Ok(n) => Ok(PyParenExpr { expr: Box::new(n) }),
            Err(e) => Err(e),
        }
    }
}

impl PySubqueryExpr {
    /// Projects a subquery: the operand, then offset, range and step as
    /// signed durations.
    pub fn create(expr: &SubqueryExpr) -> (r: Result<PySubqueryExpr, Error>)
        ensures
            match r {
                Ok(node) => project_subquery(expr@) == Ok::<PySubqueryExprView, Error>(node@),
                Err(e) => project_subquery(expr@) == Err::<PySubqueryExprView, Error>(e),
            },
        decreases expr,
    {
        let operand = match PyExpr::create(&expr.expr) {
            Ok(n) => n,
            Err(e) => {
                return Err(e);
            },
        };
        let offset = match SignedDuration::from_opt_offset(expr.offset) {
            Ok(d) => d,
            Err(e) => {
                return Err(e);
            },
        };
        let range = match SignedDuration::from_unsigned(expr.range) {
            Ok(d) => d,
            Err(e) => {
                return Err(e);
            },
        };
        let step = match SignedDuration::from_opt_unsigned(expr.step) {
            Ok(d) => d,
            Err(e) => {
                return Err(e);
            },
        };
        Ok(
            PySubqueryExpr {
                expr: Box::new(operand),
                offset,
                at: create_opt_at(expr.at),
                range,
                step,
            },
        )
    }
}

impl PyCall {
    /// Projects a call: the function's descriptor and every argument, in order.
    pub fn create(expr: &Call) -> (r: Result<PyCall, Error>)
        ensures
            match r {
                Ok(node) => project_call(expr@) == Ok::<PyCallView, Error>(node@),
                Err(e) => project_call(expr@) == Err::<PyCallView, Error>(e),
            },
        decreases expr,
    {
        let func = PyFunction::create(&expr.func);
        let ghost args = exprs_view(expr.args@);
        let mut nodes: Vec<PyExpr> = Vec::with_capacity(expr.args.len());
        let mut i: usize = 0;
        assert(nodes_view(nodes@) =~= Seq::<PyExprView>::empty());
        while i < expr.args.len()
            invariant
                i <= expr.args.len(),
                args == exprs_view(expr.args@),
                project_prefix(args, i as nat) == Ok::<Seq<PyExprView>, Error>(nodes_view(nodes@)),
            decreases expr.args.len() - i,
        {
            match PyExpr::create(&expr.args[i]) {
                Ok(n) => {
                    proof {
                        assert(nodes_view(nodes@.push(n)) =~= nodes_view(nodes@).push(n@));
                    }
                    nodes.push(n);
                },
                Err(e) => {
                    proof {
                        lemma_prefix_failure_stays(args, (i + 1) as nat, args.len());
                    }
                    return Err(e);
                },
            }
            i += 1;
        }
        Ok(PyCall { func, args: nodes })
    }
}

} // verus!
