//! What holds of every projection, stated over the views of the two trees and
//! proved from the definition of `project`.

use vstd::prelude::*;

use crate::duration::{in_range, max_nanos, offset_nanos, UnsignedDuration};
use crate::error::Error;
use crate::matcher::{PyMatchOp, PyMatcherView};
use crate::node::{PyExprView, PyLabelModifierType, PyLabelModifierView, PyVectorMatchCardinality};
use crate::project::{
    project, project_aggregate, project_bin_modifier, project_matcher, project_matcher_set,
    project_matchers, project_opt, project_prefix, project_subquery, project_vector_selector,
};
use crate::source::{
    AggregateExprView, BinModifierView, ExprView, MatcherView, MatchersView, Offset,
    SubqueryExprView, VectorMatchCardinalityView, VectorSelectorView,
};

verus! {

/// Sign preservation: for every magnitude that fits the signed range, the
/// backward offset projects to the negation of what the forward offset
/// projects to, and both lie in the signed range. A magnitude that does not
/// fit fails both ways.
pub proof fn lemma_offset_sign_preserved(d: UnsignedDuration)
    ensures
        d@ <= max_nanos() ==> {
            &&& offset_nanos(Offset::Pos(d)) == Ok::<int, Error>(d@ as int)
            &&& offset_nanos(Offset::Neg(d)) == Ok::<int, Error>(-(d@ as int))
            &&& in_range(d@ as int)
            &&& in_range(-(d@ as int))
        },
        d@ > max_nanos() ==> {
            &&& offset_nanos(Offset::Pos(d)) == Err::<int, Error>(Error::Overflow)
            &&& offset_nanos(Offset::Neg(d)) == Err::<int, Error>(Error::Overflow)
        },
{
}

/// Sign preservation in a selector: two vector selectors that differ only in
/// the direction of their offset project to nodes that differ only in the
/// sign of their offset.
pub proof fn lemma_selector_offset_sign_preserved(v: VectorSelectorView, d: UnsignedDuration)
    requires
        d@ <= max_nanos(),
    ensures
        ({
            let forward = project_vector_selector(
                VectorSelectorView { offset: Some(Offset::Pos(d)), ..v },
            );
            let backward = project_vector_selector(
                VectorSelectorView { offset: Some(Offset::Neg(d)), ..v },
            );
            &&& forward is Ok
            &&& backward is Ok
            &&& forward->Ok_0.offset == Some(d@ as int)
            &&& backward->Ok_0.offset == Some(-(d@ as int))
            &&& backward->Ok_0.name == forward->Ok_0.name
            &&& backward->Ok_0.matchers == forward->Ok_0.matchers
            &&& backward->Ok_0.at == forward->Ok_0.at
        }),
{
}

/// Sign preservation in a subquery: two subqueries that differ only in the
/// direction of their offset have nodes together or not at all, and then the
/// nodes differ only in the sign of their offset.
pub proof fn lemma_subquery_offset_sign_preserved(s: SubqueryExprView, d: UnsignedDuration)
    requires
        d@ <= max_nanos(),
    ensures
        ({
            let forward = project_subquery(SubqueryExprView { offset: Some(Offset::Pos(d)), ..s });
            let backward = project_subquery(SubqueryExprView { offset: Some(Offset::Neg(d)), ..s });
            &&& forward is Ok <==> backward is Ok
            &&& forward is Err ==> backward == forward
            &&& forward is Ok ==> {
                &&& forward->Ok_0.offset == Some(d@ as int)
                &&& backward->Ok_0.offset == Some(-(d@ as int))
                &&& backward->Ok_0.expr == forward->Ok_0.expr
                &&& backward->Ok_0.at == forward->Ok_0.at
                &&& backward->Ok_0.range == forward->Ok_0.range
                &&& backward->Ok_0.step == forward->Ok_0.step
            }
        }),
{
}

/// Matchers keep their sets: the projected matchers hold as many
/// conjunctions as the selector had, in the same order, and each holds the
/// projection of each of its matchers, in the same order.
pub proof fn lemma_matcher_sets_preserved(m: MatchersView)
    ensures
        project_matchers(m).matchers.len() == m.matchers.len(),
        forall|i: int|
            0 <= i < m.matchers.len() ==> #[trigger] project_matchers(m).matchers[i]
                == project_matcher(m.matchers[i]),
        project_matchers(m).or_matchers.len() == m.or_matchers.len(),
        forall|k: int|
            0 <= k < m.or_matchers.len() ==> (#[trigger] project_matchers(m).or_matchers[k]).len()
                == m.or_matchers[k].len(),
        forall|k: int, i: int|
            0 <= k < m.or_matchers.len() && 0 <= i < m.or_matchers[k].len()
                ==> #[trigger] project_matchers(m).or_matchers[k][i] == project_matcher(
                m.or_matchers[k][i],
            ),
{
}

/// A projected matcher keeps name and value as they were, and its operator
/// is the parser's operator without the compiled pattern: what was compiled
/// has no part in the result.
pub proof fn lemma_matcher_keeps_text(m: MatcherView)
    ensures
        project_matcher(m).name == m.name,
        project_matcher(m).value == m.value,
        m.op is Equal <==> project_matcher(m).op == PyMatchOp::Equal,
        m.op is NotEqual <==> project_matcher(m).op == PyMatchOp::NotEqual,
        m.op is Re <==> project_matcher(m).op == PyMatchOp::Re,
        m.op is NotRe <==> project_matcher(m).op == PyMatchOp::NotRe,
{
}

/// As sets, the projected matchers are the projections of the matchers: a
/// triple is among the projected ones exactly when it is the projection of
/// one of the parser's matchers.
pub proof fn lemma_matcher_set_is_image(set: Seq<MatcherView>, x: PyMatcherView)
    ensures
        project_matcher_set(set).to_set().contains(x) <==> exists|i: int|
            0 <= i < set.len() && x == project_matcher(#[trigger] set[i]),
{
    let projected = project_matcher_set(set);
    if projected.to_set().contains(x) {
        let i = choose|i: int| 0 <= i < projected.len() && projected[i] == x;
        assert(x == project_matcher(set[i]));
    }
    if exists|i: int| 0 <= i < set.len() && x == project_matcher(#[trigger] set[i]) {
        let i = choose|i: int| 0 <= i < set.len() && x == project_matcher(#[trigger] set[i]);
        assert(projected[i] == x);
    }
}

/// Closed variant coverage: a node is of the same kind as the expression it
/// stands for, and of no other. An extension has no node.
pub proof fn lemma_variant_preserved(e: ExprView)
    ensures
        e is Extension ==> project(e) == Err::<PyExprView, Error>(Error::UnsupportedConstruct),
        project(e) matches Ok(node) ==> {
            &&& e is Aggregate <==> node is Aggregate
            &&& e is Unary <==> node is Unary
            &&& e is Binary <==> node is Binary
            &&& e is Paren <==> node is Paren
            &&& e is Subquery <==> node is Subquery
            &&& e is NumberLiteral <==> node is NumberLiteral
            &&& e is StringLiteral <==> node is StringLiteral
            &&& e is VectorSelector <==> node is VectorSelector
            &&& e is MatrixSelector <==> node is MatrixSelector
            &&& e is Call <==> node is Call
            &&& !(e is Extension)
        },
{
}

/// The labels of a grouped cardinality are never lost: they are the labels
/// of the modifier's `grouping`, which is present exactly for the two grouped
/// cardinalities, while the cardinality itself becomes a bare tag.
pub proof fn lemma_group_labels_reachable(m: BinModifierView)
    ensures
        m.card matches VectorMatchCardinalityView::ManyToOne(labels) ==> {
            &&& project_bin_modifier(m).card == PyVectorMatchCardinality::ManyToOne
            &&& project_bin_modifier(m).grouping == Some(
                PyLabelModifierView { kind: PyLabelModifierType::Include, labels },
            )
        },
        m.card matches VectorMatchCardinalityView::OneToMany(labels) ==> {
            &&& project_bin_modifier(m).card == PyVectorMatchCardinality::OneToMany
            &&& project_bin_modifier(m).grouping == Some(
                PyLabelModifierView { kind: PyLabelModifierType::Include, labels },
            )
        },
        project_bin_modifier(m).grouping is Some <==> (m.card is ManyToOne || m.card is OneToMany),
        project_bin_modifier(m).return_bool == m.return_bool,
        project_bin_modifier(m).matching is Some <==> m.matching is Some,
{
}

/// An aggregation's node has a parameter exactly when the aggregation has.
pub proof fn lemma_aggregate_parameter_preserved(a: AggregateExprView)
    ensures
        project_aggregate(a) matches Ok(node) ==> (node.param is Some <==> a.param is Some),
{
}

/// Whether the magnitude of an optional offset fits the signed range.
pub open spec fn offset_fits(o: Option<Offset>) -> bool {
    match o {
        None => true,
        Some(Offset::Pos(d)) => d@ <= max_nanos(),
        Some(Offset::Neg(d)) => d@ <= max_nanos(),
    }
}

/// Whether every duration anywhere in the tree fits the signed range.
pub open spec fn durations_fit(e: ExprView) -> bool
    decreases e,
{
    match e {
        ExprView::Aggregate(a) => durations_fit(*a.expr) && match a.param {
            Some(p) => durations_fit(*p),
            None => true,
        },
        ExprView::Unary(u) => durations_fit(*u.expr),
        ExprView::Binary(b) => durations_fit(*b.lhs) && durations_fit(*b.rhs),
        ExprView::Paren(p) => durations_fit(*p.expr),
        ExprView::Subquery(s) => {
            &&& durations_fit(*s.expr)
            &&& offset_fits(s.offset)
            &&& s.range@ <= max_nanos()
            &&& match s.step {
                Some(step) => step@ <= max_nanos(),
                None => true,
            }
        },
        ExprView::NumberLiteral(_) => true,
        ExprView::StringLiteral(_) => true,
        ExprView::VectorSelector(v) => offset_fits(v.offset),
        ExprView::MatrixSelector(m) => offset_fits(m.vs.offset) && m.range@ <= max_nanos(),
        ExprView::Call(c) => forall|i: int| 0 <= i < c.args.len() ==> durations_fit(c.args[i]),
        ExprView::Extension(_) => true,
    }
}

/// Whether no node anywhere in the tree is an extension.
pub open spec fn extension_free(e: ExprView) -> bool
    decreases e,
{
    match e {
        ExprView::Aggregate(a) => extension_free(*a.expr) && match a.param {
            Some(p) => extension_free(*p),
            None => true,
        },
        ExprView::Unary(u) => extension_free(*u.expr),
        ExprView::Binary(b) => extension_free(*b.lhs) && extension_free(*b.rhs),
        ExprView::Paren(p) => extension_free(*p.expr),
        ExprView::Subquery(s) => extension_free(*s.expr),
        ExprView::NumberLiteral(_) => true,
        ExprView::StringLiteral(_) => true,
        ExprView::VectorSelector(_) => true,
        ExprView::MatrixSelector(_) => true,
        ExprView::Call(c) => forall|i: int| 0 <= i < c.args.len() ==> extension_free(c.args[i]),
        ExprView::Extension(_) => false,
    }
}

/// Failure is of the whole tree: a tree has a node exactly when every
/// duration in it fits and it holds no extension. One duration out of range,
/// however deep and whatever else is in range, leaves no tree but an
/// overflow; one extension leaves an unsupported construct. No other failure
/// occurs.
pub proof fn lemma_failure_is_of_the_whole_tree(e: ExprView)
    ensures
        project(e) is Ok <==> durations_fit(e) && extension_free(e),
        project(e) matches Err(x) ==> x == Error::Overflow || x == Error::UnsupportedConstruct,
        extension_free(e) && !durations_fit(e) ==> project(e) == Err::<PyExprView, Error>(
            Error::Overflow,
        ),
        durations_fit(e) && !extension_free(e) ==> project(e) == Err::<PyExprView, Error>(
            Error::UnsupportedConstruct,
        ),
    decreases e, 0nat,
{
    match e {
        ExprView::Aggregate(a) => {
            lemma_failure_is_of_the_whole_tree(*a.expr);
            match a.param {
                Some(p) => {
                    lemma_failure_is_of_the_whole_tree(*p);
                },
                None => {},
            }
            assert(project(e) is Ok <==> project_aggregate(a) is Ok);
        },
        ExprView::Unary(u) => {
            lemma_failure_is_of_the_whole_tree(*u.expr);
        },
        ExprView::Binary(b) => {
            lemma_failure_is_of_the_whole_tree(*b.lhs);
            lemma_failure_is_of_the_whole_tree(*b.rhs);
        },
        ExprView::Paren(p) => {
            lemma_failure_is_of_the_whole_tree(*p.expr);
        },
        ExprView::Subquery(s) => {
            lemma_failure_is_of_the_whole_tree(*s.expr);
        },
        ExprView::Call(c) => {
            lemma_prefix_failure(c.args, c.args.len());
        },
        _ => {},
    }
}

/// The same, of the first `n` arguments of a call.
pub proof fn lemma_prefix_failure(args: Seq<ExprView>, n: nat)
    requires
        n <= args.len(),
    ensures
        project_prefix(args, n) is Ok <==> forall|i: int|
            0 <= i < n ==> durations_fit(#[trigger] args[i]) && extension_free(args[i]),
        project_prefix(args, n) matches Ok(nodes) ==> nodes.len() == n,
        project_prefix(args, n) matches Err(x) ==> x == Error::Overflow || x
            == Error::UnsupportedConstruct,
        (forall|i: int| 0 <= i < n ==> extension_free(#[trigger] args[i])) && !(forall|i: int|
            0 <= i < n ==> durations_fit(#[trigger] args[i])) ==> project_prefix(args, n) == Err::<
            Seq<PyExprView>,
            Error,
        >(Error::Overflow),
        (forall|i: int| 0 <= i < n ==> durations_fit(#[trigger] args[i])) && !(forall|i: int|
            0 <= i < n ==> extension_free(#[trigger] args[i])) ==> project_prefix(args, n) == Err::<
            Seq<PyExprView>,
            Error,
        >(Error::UnsupportedConstruct),
    decreases args, n,
{
    if n > 0 {
        lemma_prefix_failure(args, (n - 1) as nat);
        lemma_failure_is_of_the_whole_tree(args[n - 1]);
    }
}

} // verus!
