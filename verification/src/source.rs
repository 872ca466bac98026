//! The tree as a PromQL parser produces it, held as plain values.
//!
//! Every type here stands for one type of the parser's tree. Durations are
//! unsigned magnitudes, a number literal is the bit pattern of its 64-bit
//! float, an instant is its distance from the Unix epoch, and a regex
//! operator carries the text of its compiled pattern.

use vstd::prelude::*;

use crate::duration::UnsignedDuration;

verus! {

/// The view of a list of strings: the list of their views.
pub open spec fn strings_view(v: Seq<String>) -> Seq<Seq<char>> {
    v.map_values(|s: String| s@)
}

/// The view of an optional string.
pub open spec fn opt_string_view(s: Option<String>) -> Option<Seq<char>> {
    match s {
        Some(s) => Some(s@),
        None => None,
    }
}

/// An operator or keyword of the query language, by the lexer's number for it.
#[derive(Debug, Clone, Copy, PartialEq, Eq, Structural)]
pub struct TokenType {
    pub id: u8,
}

/// The type an expression evaluates to.
#[derive(Debug, Clone, Copy, PartialEq, Eq, Structural)]
pub enum ValueType {
    Vector,
    Scalar,
    Matrix,
    String,
}

/// A label list to keep (`by`, `on`) or to drop (`without`, `ignoring`).
#[derive(Debug, Clone, PartialEq, Eq)]
pub enum LabelModifier {
    Include(Vec<String>),
    Exclude(Vec<String>),
}

/// What a [`LabelModifier`] holds, as mathematical values.
pub enum LabelModifierView {
    Include(Seq<Seq<char>>),
    Exclude(Seq<Seq<char>>),
}

impl View for LabelModifier {
    type V = LabelModifierView;

    open spec fn view(&self) -> LabelModifierView {
        match self {
            LabelModifier::Include(labels) => LabelModifierView::Include(strings_view(labels@)),
            LabelModifier::Exclude(labels) => LabelModifierView::Exclude(strings_view(labels@)),
        }
    }
}

/// How the series of the two sides of a binary operation pair up. The two
/// grouped forms carry the labels named by `group_left` or `group_right`.
#[derive(Debug, Clone, PartialEq, Eq)]
pub enum VectorMatchCardinality {
    OneToOne,
    ManyToOne(Vec<String>),
    OneToMany(Vec<String>),
    ManyToMany,
}

/// What a [`VectorMatchCardinality`] holds, as mathematical values.
pub enum VectorMatchCardinalityView {
    OneToOne,
    ManyToOne(Seq<Seq<char>>),
    OneToMany(Seq<Seq<char>>),
    ManyToMany,
}

impl View for VectorMatchCardinality {
    type V = VectorMatchCardinalityView;

    open spec fn view(&self) -> VectorMatchCardinalityView {
        match self {
            VectorMatchCardinality::OneToOne => VectorMatchCardinalityView::OneToOne,
            VectorMatchCardinality::ManyToOne(labels) => VectorMatchCardinalityView::ManyToOne(
                strings_view(labels@),
            ),
            VectorMatchCardinality::OneToMany(labels) => VectorMatchCardinalityView::OneToMany(
                strings_view(labels@),
            ),
            VectorMatchCardinality::ManyToMany => VectorMatchCardinalityView::ManyToMany,
        }
    }
}

/// The modifier of a binary operation between two vectors.
#[derive(Debug, Clone, PartialEq, Eq)]
pub struct BinModifier {
    pub card: VectorMatchCardinality,
    pub matching: Option<LabelModifier>,
    pub return_bool: bool,
}

/// What a [`BinModifier`] holds, as mathematical values.
pub struct BinModifierView {
    pub card: VectorMatchCardinalityView,
    pub matching: Option<LabelModifierView>,
    pub return_bool: bool,
}

impl View for BinModifier {
    type V = BinModifierView;

    open spec fn view(&self) -> BinModifierView {
        BinModifierView {
            card: self.card@,
            matching: match self.matching {
                Some(m) => Some(m@),
                None => None,
            },
            return_bool: self.return_bool,
        }
    }
}

/// A time shift of a selector's window: forward (`Pos`) or backward (`Neg`).
#[derive(Debug, Clone, Copy, PartialEq, Eq, Structural)]
pub enum Offset {
    Pos(UnsignedDuration),
    Neg(UnsignedDuration),
}

/// An instant, as its distance from the Unix epoch and the side it lies on.
#[derive(Debug, Clone, Copy, PartialEq, Eq, Structural)]
pub struct Timestamp {
    pub before_epoch: bool,
    pub secs: u64,
    pub nanos: u32,
}

/// The `@` modifier: the start or end of the evaluated range, or an instant.
#[derive(Debug, Clone, Copy, PartialEq, Eq, Structural)]
pub enum AtModifier {
    Start,
    End,
    At(Timestamp),
}

/// A matcher's operator. The two regex forms carry the text of the pattern
/// that the parser compiled, which may differ from the matcher's value.
#[derive(Debug, Clone, PartialEq, Eq)]
pub enum MatchOp {
    Equal,
    NotEqual,
    Re(String),
    NotRe(String),
}

/// What a [`MatchOp`] holds, as mathematical values.
pub enum MatchOpView {
    Equal,
    NotEqual,
    Re(Seq<char>),
    NotRe(Seq<char>),
}

impl View for MatchOp {
    type V = MatchOpView;

    open spec fn view(&self) -> MatchOpView {
        match self {
            MatchOp::Equal => MatchOpView::Equal,
            MatchOp::NotEqual => MatchOpView::NotEqual,
            MatchOp::Re(pattern) => MatchOpView::Re(pattern@),
            MatchOp::NotRe(pattern) => MatchOpView::NotRe(pattern@),
        }
    }
}

/// One constraint on a label.
#[derive(Debug, Clone, PartialEq, Eq)]
pub struct Matcher {
    pub op: MatchOp,
    pub name: String,
    pub value: String,
}

/// What a [`Matcher`] holds, as mathematical values.
pub struct MatcherView {
    pub op: MatchOpView,
    pub name: Seq<char>,
    pub value: Seq<char>,
}

impl View for Matcher {
    type V = MatcherView;

    open spec fn view(&self) -> MatcherView {
        MatcherView { op: self.op@, name: self.name@, value: self.value@ }
    }
}

/// The view of a list of matchers.
pub open spec fn matchers_view(v: Seq<Matcher>) -> Seq<MatcherView> {
    v.map_values(|m: Matcher| m@)
}

/// A primary conjunction of matchers and, in order, the alternative
/// conjunctions. A series is selected if it satisfies any one of them.
#[derive(Debug, Clone, PartialEq, Eq)]
pub struct Matchers {
    pub matchers: Vec<Matcher>,
    pub or_matchers: Vec<Vec<Matcher>>,
}

/// What a [`Matchers`] holds, as mathematical values.
pub struct MatchersView {
    pub matchers: Seq<MatcherView>,
    pub or_matchers: Seq<Seq<MatcherView>>,
}

impl View for Matchers {
    type V = MatchersView;

    open spec fn view(&self) -> MatchersView {
        MatchersView {
            matchers: matchers_view(self.matchers@),
            or_matchers: self.or_matchers@.map_values(|set: Vec<Matcher>| matchers_view(set@)),
        }
    }
}

/// A builtin function's descriptor, as the parser's function table gives it.
#[derive(Debug, Clone, PartialEq, Eq)]
pub struct Function {
    pub name: String,
    pub arg_types: Vec<ValueType>,
    pub variadic: bool,
    pub return_type: ValueType,
}

/// What a [`Function`] holds, as mathematical values.
pub struct FunctionView {
    pub name: Seq<char>,
    pub arg_types: Seq<ValueType>,
    pub variadic: bool,
    pub return_type: ValueType,
}

impl View for Function {
    type V = FunctionView;

    open spec fn view(&self) -> FunctionView {
        FunctionView {
            name: self.name@,
            arg_types: self.arg_types@,
            variadic: self.variadic,
            return_type: self.return_type,
        }
    }
}

/// An aggregation over a vector, with the parameter that some operators take.
#[derive(Debug, PartialEq, Eq)]
pub struct AggregateExpr {
    pub op: TokenType,
    pub expr: Box<Expr>,
    pub param: Option<Box<Expr>>,
    pub modifier: Option<LabelModifier>,
}

/// A unary operation on an expression.
#[derive(Debug, PartialEq, Eq)]
pub struct UnaryExpr {
    pub op: TokenType,
    pub expr: Box<Expr>,
}

/// A binary operation between two expressions.
#[derive(Debug, PartialEq, Eq)]
pub struct BinaryExpr {
    pub op: TokenType,
    pub lhs: Box<Expr>,
    pub rhs: Box<Expr>,
    pub modifier: Option<BinModifier>,
}

/// An expression in parentheses.
#[derive(Debug, PartialEq, Eq)]
pub struct ParenExpr {
    pub expr: Box<Expr>,
}

/// An expression evaluated over a range, at a step.
#[derive(Debug, PartialEq, Eq)]
pub struct SubqueryExpr {
    pub expr: Box<Expr>,
    pub offset: Option<Offset>,
    pub at: Option<AtModifier>,
    pub range: UnsignedDuration,
    pub step: Option<UnsignedDuration>,
}

/// A number, as the bit pattern of its 64-bit float.
#[derive(Debug, Clone, Copy, PartialEq, Eq, Structural)]
pub struct NumberLiteral {
    pub bits: u64,
}

/// A string.
#[derive(Debug, Clone, PartialEq, Eq)]
pub struct StringLiteral {
    pub val: String,
}

/// A selection of series at one instant.
#[derive(Debug, Clone, PartialEq, Eq)]
pub struct VectorSelector {
    pub name: Option<String>,
    pub matchers: Matchers,
    pub offset: Option<Offset>,
    pub at: Option<AtModifier>,
}

/// A selection of series over a range.
#[derive(Debug, Clone, PartialEq, Eq)]
pub struct MatrixSelector {
    pub vs: VectorSelector,
    pub range: UnsignedDuration,
}

/// A call of a builtin function.
#[derive(Debug, PartialEq, Eq)]
pub struct Call {
    pub func: Function,
    pub args: Vec<Expr>,
}

/// A node that a user attached to the tree. No parser produces one, and the
/// node model has no place for it.
#[derive(Debug, Clone, PartialEq, Eq)]
pub struct Extension {
    pub name: String,
}

/// A parsed expression.
#[derive(Debug, PartialEq, Eq)]
pub enum Expr {
    Aggregate(AggregateExpr),
    Unary(UnaryExpr),
    Binary(BinaryExpr),
    Paren(ParenExpr),
    Subquery(SubqueryExpr),
    NumberLiteral(NumberLiteral),
    StringLiteral(StringLiteral),
    VectorSelector(VectorSelector),
    MatrixSelector(MatrixSelector),
    Call(Call),
    Extension(Extension),
}

/// What a [`AggregateExpr`] holds, as mathematical values.
pub struct AggregateExprView {
    pub op: TokenType,
    pub expr: Box<ExprView>,
    pub param: Option<Box<ExprView>>,
    pub modifier: Option<LabelModifierView>,
}

/// What a [`UnaryExpr`] holds, as mathematical values.
pub struct UnaryExprView {
    pub op: TokenType,
    pub expr: Box<ExprView>,
}

/// What a [`BinaryExpr`] holds, as mathematical values.
pub struct BinaryExprView {
    pub op: TokenType,
    pub lhs: Box<ExprView>,
    pub rhs: Box<ExprView>,
    pub modifier: Option<BinModifierView>,
}

/// What a [`ParenExpr`] holds, as mathematical values.
pub struct ParenExprView {
    pub expr: Box<ExprView>,
}

/// What a [`SubqueryExpr`] holds, as mathematical values.
pub struct SubqueryExprView {
    pub expr: Box<ExprView>,
    pub offset: Option<Offset>,
    pub at: Option<AtModifier>,
    pub range: UnsignedDuration,
    pub step: Option<UnsignedDuration>,
}

/// What a [`StringLiteral`] holds, as mathematical values.
pub struct StringLiteralView {
    pub val: Seq<char>,
}

/// What a [`VectorSelector`] holds, as mathematical values.
pub struct VectorSelectorView {
    pub name: Option<Seq<char>>,
    pub matchers: MatchersView,
    pub offset: Option<Offset>,
    pub at: Option<AtModifier>,
}

/// What a [`MatrixSelector`] holds, as mathematical values.
pub struct MatrixSelectorView {
    pub vs: VectorSelectorView,
    pub range: UnsignedDuration,
}

/// What a [`Call`] holds, as mathematical values.
pub struct CallView {
    pub func: FunctionView,
    pub args: Seq<ExprView>,
}

/// What a [`Extension`] holds, as mathematical values.
pub struct ExtensionView {
    pub name: Seq<char>,
}

/// What a [`Expr`] holds, as mathematical values.
pub enum ExprView {
    Aggregate(AggregateExprView),
    Unary(UnaryExprView),
    Binary(BinaryExprView),
    Paren(ParenExprView),
    Subquery(SubqueryExprView),
    NumberLiteral(NumberLiteral),
    StringLiteral(StringLiteralView),
    VectorSelector(VectorSelectorView),
    MatrixSelector(MatrixSelectorView),
    Call(CallView),
    Extension(ExtensionView),
}

impl View for StringLiteral {
    type V = StringLiteralView;

    open spec fn view(&self) -> StringLiteralView {
        StringLiteralView { val: self.val@ }
    }
}

impl View for VectorSelector {
    type V = VectorSelectorView;

    open spec fn view(&self) -> VectorSelectorView {
        VectorSelectorView {
            name: opt_string_view(self.name),
            matchers: self.matchers@,
            offset: self.offset,
            at: self.at,
        }
    }
}

impl View for MatrixSelector {
    type V = MatrixSelectorView;

    open spec fn view(&self) -> MatrixSelectorView {
        MatrixSelectorView { vs: self.vs@, range: self.range }
    }
}

impl View for Extension {
    type V = ExtensionView;

    open spec fn view(&self) -> ExtensionView {
        ExtensionView { name: self.name@ }
    }
}

/// The view of an expression, node by node.
pub open spec fn expr_view(e: Expr) -> ExprView
    decreases e,
{
    match e {
        Expr::Aggregate(a) => ExprView::Aggregate(aggregate_view(a)),
        Expr::Unary(u) => ExprView::Unary(unary_view(u)),
        Expr::Binary(b) => ExprView::Binary(binary_view(b)),
        Expr::Paren(p) => ExprView::Paren(paren_view(p)),
        Expr::Subquery(s) => ExprView::Subquery(subquery_view(s)),
        Expr::NumberLiteral(n) => ExprView::NumberLiteral(n),
        Expr::StringLiteral(s) => ExprView::StringLiteral(s@),
        Expr::VectorSelector(v) => ExprView::VectorSelector(v@),
        Expr::MatrixSelector(m) => ExprView::MatrixSelector(m@),
        Expr::Call(c) => ExprView::Call(call_view(c)),
        Expr::Extension(x) => ExprView::Extension(x@),
    }
}

/// The view of an optional boxed expression.
pub open spec fn opt_expr_view(e: Option<Box<Expr>>) -> Option<Box<ExprView>>
    decreases e,
{
    match e {
        Some(e) => Some(Box::new(expr_view(*e))),
        None => None,
    }
}

/// The view of an [`AggregateExpr`].
pub open spec fn aggregate_view(a: AggregateExpr) -> AggregateExprView
    decreases a,
{
    AggregateExprView {
        op: a.op,
        expr: Box::new(expr_view(*a.expr)),
        param: opt_expr_view(a.param),
        modifier: match a.modifier {
            Some(m) => Some(m@),
            None => None,
        },
    }
}

/// The view of an [`UnaryExpr`].
pub open spec fn unary_view(u: UnaryExpr) -> UnaryExprView
    decreases u,
{
    UnaryExprView { op: u.op, expr: Box::new(expr_view(*u.expr)) }
}

/// The view of a [`BinaryExpr`].
pub open spec fn binary_view(b: BinaryExpr) -> BinaryExprView
    decreases b,
{
    BinaryExprView {
        op: b.op,
        lhs: Box::new(expr_view(*b.lhs)),
        rhs: Box::new(expr_view(*b.rhs)),
        modifier: match b.modifier {
            Some(m) => Some(m@),
            None => None,
        },
    }
}

/// The view of a [`ParenExpr`].
pub open spec fn paren_view(p: ParenExpr) -> ParenExprView
    decreases p,
{
    ParenExprView { expr: Box::new(expr_view(*p.expr)) }
}

/// The view of a [`SubqueryExpr`].
pub open spec fn subquery_view(s: SubqueryExpr) -> SubqueryExprView
    decreases s,
{
    SubqueryExprView {
        expr: Box::new(expr_view(*s.expr)),
        offset: s.offset,
        at: s.at,
        range: s.range,
        step: s.step,
    }
}

/// The views of a list of expressions, in order.
pub open spec fn exprs_view(v: Seq<Expr>) -> Seq<ExprView>
    decreases v,
{
    Seq::new(
        v.len(),
        |i: int|
            if 0 <= i < v.len() {
                expr_view(v[i])
            } else {
                arbitrary()
            },
    )
}

/// The view of a [`Call`].
pub open spec fn call_view(c: Call) -> CallView
    decreases c,
{
    CallView { func: c.func@, args: exprs_view(c.args@) }
}

impl View for AggregateExpr {
    type V = AggregateExprView;

    open spec fn view(&self) -> AggregateExprView {
        aggregate_view(*self)
    }
}

impl View for UnaryExpr {
    type V = UnaryExprView;

    open spec fn view(&self) -> UnaryExprView {
        unary_view(*self)
    }
}

impl View for BinaryExpr {
    type V = BinaryExprView;

    open spec fn view(&self) -> BinaryExprView {
        binary_view(*self)
    }
}

impl View for ParenExpr {
    type V = ParenExprView;

    open spec fn view(&self) -> ParenExprView {
        paren_view(*self)
    }
}

impl View for SubqueryExpr {
    type V = SubqueryExprView;

    open spec fn view(&self) -> SubqueryExprView {
        subquery_view(*self)
    }
}

impl View for Call {
    type V = CallView;

    open spec fn view(&self) -> CallView {
        call_view(*self)
    }
}

impl View for Expr {
    type V = ExprView;

    open spec fn view(&self) -> ExprView {
        expr_view(*self)
    }
}

} // verus!
