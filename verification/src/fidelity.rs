//! The projection loses nothing of a query's meaning: two expressions have
//! the same node exactly when they mean the same, that is, when they differ
//! at most in the patterns that were compiled for their regex matchers, in
//! how a magnitude is split into seconds and nanoseconds, and in the
//! direction of an offset of no length.

use vstd::prelude::*;

use crate::project::{
    project, project_aggregate, project_bin_modifier, project_function, project_matcher,
    project_matcher_set, project_matchers, project_opt, project_opt_agg_modifier,
    project_prefix, project_value_type, project_vector_selector,
};
use crate::source::{
    BinModifierView, ExprView, FunctionView, LabelModifierView, MatchOpView, MatcherView,
    MatchersView, Offset, VectorSelectorView,
};

verus! {

/// The shift of an offset in nanoseconds, backward shifts negative.
pub open spec fn shift(o: Offset) -> int {
    match o {
        Offset::Pos(d) => d@ as int,
        Offset::Neg(d) => -(d@ as int),
    }
}

/// Whether two optional offsets shift by the same amount.
pub open spec fn same_offset(a: Option<Offset>, b: Option<Offset>) -> bool {
    match a {
        None => b is None,
        Some(x) => b is Some && shift(x) == shift(b->Some_0),
    }
}

/// Whether two matcher operators are the same operator, whatever pattern
/// was compiled for them.
pub open spec fn same_op(a: MatchOpView, b: MatchOpView) -> bool {
    match a {
        MatchOpView::Equal => b is Equal,
        MatchOpView::NotEqual => b is NotEqual,
        MatchOpView::Re(_) => b is Re,
        MatchOpView::NotRe(_) => b is NotRe,
    }
}

/// Whether two matchers constrain the same label in the same way.
pub open spec fn same_matcher(a: MatcherView, b: MatcherView) -> bool {
    same_op(a.op, b.op) && a.name == b.name && a.value == b.value
}

/// Whether two conjunctions hold the same matchers in the same order.
pub open spec fn same_matcher_set(a: Seq<MatcherView>, b: Seq<MatcherView>) -> bool {
    a.len() == b.len() && forall|i: int| 0 <= i < a.len() ==> same_matcher(a[i], b[i])
}

/// Whether two selectors' matchers hold the same conjunctions in the same
/// order.
pub open spec fn same_matchers(a: MatchersView, b: MatchersView) -> bool {
    &&& same_matcher_set(a.matchers, b.matchers)
    &&& a.or_matchers.len() == b.or_matchers.len()
    &&& forall|k: int|
        0 <= k < a.or_matchers.len() ==> same_matcher_set(a.or_matchers[k], b.or_matchers[k])
}

/// Whether two vector selectors select the same series at the same time.
pub open spec fn same_selector(a: VectorSelectorView, b: VectorSelectorView) -> bool {
    &&& a.name == b.name
    &&& same_matchers(a.matchers, b.matchers)
    &&& same_offset(a.offset, b.offset)
    &&& a.at == b.at
}

/// Whether two expressions mean the same: they are of the same kind, neither
/// is an extension, and their parts mean the same.
pub open spec fn same_meaning(a: ExprView, b: ExprView) -> bool
    decreases a,
{
    match a {
        ExprView::Aggregate(x) => b is Aggregate && {
            let y = b->Aggregate_0;
            &&& x.op == y.op
            &&& same_meaning(*x.expr, *y.expr)
            &&& match x.param {
                None => y.param is None,
                Some(p) => y.param is Some && same_meaning(*p, *y.param->Some_0),
            }
            &&& x.modifier == y.modifier
        },
        ExprView::Unary(x) => b is Unary && {
            let y = b->Unary_0;
            x.op == y.op && same_meaning(*x.expr, *y.expr)
        },
        ExprView::Binary(x) => b is Binary && {
            let y = b->Binary_0;
            &&& x.op == y.op
            &&& same_meaning(*x.lhs, *y.lhs)
            &&& same_meaning(*x.rhs, *y.rhs)
            &&& x.modifier == y.modifier
        },
        ExprView::Paren(x) => b is Paren && same_meaning(*x.expr, *b->Paren_0.expr),
        ExprView::Subquery(x) => b is Subquery && {
            let y = b->Subquery_0;
            &&& same_meaning(*x.expr, *y.expr)
            &&& same_offset(x.offset, y.offset)
            &&& x.at == y.at
            &&& x.range@ == y.range@
            &&& match x.step {
                None => y.step is None,
                Some(s) => y.step is Some && s@ == y.step->Some_0@,
            }
        },
        ExprView::NumberLiteral(x) => b is NumberLiteral && x.bits == b->NumberLiteral_0.bits,
        ExprView::StringLiteral(x) => b is StringLiteral && x.val == b->StringLiteral_0.val,
        ExprView::VectorSelector(x) => b is VectorSelector && same_selector(
            x,
            b->VectorSelector_0,
        ),
        ExprView::MatrixSelector(x) => b is MatrixSelector && {
            let y = b->MatrixSelector_0;
            same_selector(x.vs, y.vs) && x.range@ == y.range@
        },
        ExprView::Call(x) => b is Call && {
            let y = b->Call_0;
            &&& x.func == y.func
            &&& x.args.len() == y.args.len()
            &&& forall|i: int| 0 <= i < x.args.len() ==> same_meaning(x.args[i], y.args[i])
        },
        ExprView::Extension(_) => false,
    }
}

/// Two matchers have the same projection exactly when they are the same
/// matcher.
pub proof fn lemma_matcher_fidelity(a: MatcherView, b: MatcherView)
    ensures
        project_matcher(a) == project_matcher(b) <==> same_matcher(a, b),
{
}

/// Two conjunctions have the same projection exactly when they hold the same
/// matchers in the same order.
pub proof fn lemma_matcher_set_fidelity(a: Seq<MatcherView>, b: Seq<MatcherView>)
    ensures
        project_matcher_set(a) == project_matcher_set(b) <==> same_matcher_set(a, b),
{
    let pa = project_matcher_set(a);
    let pb = project_matcher_set(b);
    if pa == pb {
        assert(a.len() == pa.len());
        assert(b.len() == pb.len());
        assert forall|i: int| 0 <= i < a.len() implies same_matcher(a[i], b[i]) by {
            assert(pa[i] == project_matcher(a[i]));
            assert(pb[i] == project_matcher(b[i]));
        }
    }
    if same_matcher_set(a, b) {
        assert(pa =~= pb);
    }
}

/// Two selectors' matchers have the same projection exactly when they hold
/// the same conjunctions in the same order.
pub proof fn lemma_matchers_fidelity(a: MatchersView, b: MatchersView)
    ensures
        project_matchers(a) == project_matchers(b) <==> same_matchers(a, b),
{
    let pa = project_matchers(a);
    let pb = project_matchers(b);
    lemma_matcher_set_fidelity(a.matchers, b.matchers);
    if pa == pb {
        assert(pa.or_matchers.len() == a.or_matchers.len());
        assert(pb.or_matchers.len() == b.or_matchers.len());
        assert forall|k: int| 0 <= k < a.or_matchers.len() implies same_matcher_set(
            a.or_matchers[k],
            b.or_matchers[k],
        ) by {
            assert(pa.or_matchers[k] == project_matcher_set(a.or_matchers[k]));
            assert(pb.or_matchers[k] == project_matcher_set(b.or_matchers[k]));
            lemma_matcher_set_fidelity(a.or_matchers[k], b.or_matchers[k]);
        }
    }
    if same_matchers(a, b) {
        assert forall|k: int| 0 <= k < a.or_matchers.len() implies pa.or_matchers[k]
            == pb.or_matchers[k] by {
            lemma_matcher_set_fidelity(a.or_matchers[k], b.or_matchers[k]);
        }
        assert(pa.or_matchers =~= pb.or_matchers);
    }
}

/// A binary operation's modifier is recovered whole from its projection: the
/// labels that the cardinality carried come back from the grouping.
pub proof fn lemma_bin_modifier_fidelity(a: BinModifierView, b: BinModifierView)
    ensures
        project_bin_modifier(a) == project_bin_modifier(b) <==> a == b,
{
}

/// An aggregation's grouping is recovered whole from its projection.
pub proof fn lemma_agg_modifier_fidelity(
    a: Option<LabelModifierView>,
    b: Option<LabelModifierView>,
)
    ensures
        project_opt_agg_modifier(a) == project_opt_agg_modifier(b) <==> a == b,
{
}

/// A function's descriptor is recovered whole from its projection.
pub proof fn lemma_function_fidelity(a: FunctionView, b: FunctionView)
    ensures
        project_function(a) == project_function(b) <==> a == b,
{
    let pa = project_function(a);
    let pb = project_function(b);
    if pa == pb {
        assert(a.arg_types.len() == pa.arg_types.len());
        assert(b.arg_types.len() == pb.arg_types.len());
        assert forall|i: int| 0 <= i < a.arg_types.len() implies a.arg_types[i]
            == b.arg_types[i] by {
            assert(pa.arg_types[i] == project_value_type(a.arg_types[i]));
            assert(pb.arg_types[i] == project_value_type(b.arg_types[i]));
        }
        assert(a.arg_types =~= b.arg_types);
    }
}

/// Two vector selectors that mean the same have the same projection, and two
/// that have the same node mean the same.
pub proof fn lemma_selector_fidelity(a: VectorSelectorView, b: VectorSelectorView)
    ensures
        same_selector(a, b) ==> project_vector_selector(a) == project_vector_selector(b),
        project_vector_selector(a) is Ok && project_vector_selector(a) == project_vector_selector(
            b,
        ) ==> same_selector(a, b),
{
    lemma_matchers_fidelity(a.matchers, b.matchers);
}

/// Fidelity: two expressions that mean the same have the same projection,
/// failure included, and two expressions that have the same node mean the
/// same. So nothing of the meaning is lost on the way to the node, and
/// nothing is added.
pub proof fn lemma_fidelity(a: ExprView, b: ExprView)
    ensures
        same_meaning(a, b) ==> project(a) == project(b),
        project(a) is Ok && project(a) == project(b) ==> same_meaning(a, b),
    decreases a, 0nat,
{
    match a {
        ExprView::Aggregate(x) => {
            if b is Aggregate {
                let y = b->Aggregate_0;
                lemma_fidelity(*x.expr, *y.expr);
                lemma_agg_modifier_fidelity(x.modifier, y.modifier);
                lemma_opt_fidelity(x.param, y.param);
                assert(project(a) is Ok <==> project_aggregate(x) is Ok);
                assert(project(b) is Ok <==> project_aggregate(y) is Ok);
            }
        },
        ExprView::Unary(x) => {
            if b is Unary {
                lemma_fidelity(*x.expr, *b->Unary_0.expr);
            }
        },
        ExprView::Binary(x) => {
            if b is Binary {
                let y = b->Binary_0;
                lemma_fidelity(*x.lhs, *y.lhs);
                lemma_fidelity(*x.rhs, *y.rhs);
                if x.modifier is Some && y.modifier is Some {
                    lemma_bin_modifier_fidelity(x.modifier->Some_0, y.modifier->Some_0);
                }
            }
        },
        ExprView::Paren(x) => {
            if b is Paren {
                lemma_fidelity(*x.expr, *b->Paren_0.expr);
            }
        },
        ExprView::Subquery(x) => {
            if b is Subquery {
                lemma_fidelity(*x.expr, *b->Subquery_0.expr);
            }
        },
        ExprView::VectorSelector(x) => {
            if b is VectorSelector {
                lemma_selector_fidelity(x, b->VectorSelector_0);
            }
        },
        ExprView::MatrixSelector(x) => {
            if b is MatrixSelector {
                lemma_selector_fidelity(x.vs, b->MatrixSelector_0.vs);
            }
        },
        ExprView::Call(x) => {
            if b is Call {
                let y = b->Call_0;
                lemma_function_fidelity(x.func, y.func);
                crate::laws::lemma_prefix_failure(x.args, x.args.len());
                crate::laws::lemma_prefix_failure(y.args, y.args.len());
                if x.args.len() == y.args.len() {
                    lemma_prefix_fidelity(x.args, y.args, x.args.len());
                }
            }
        },
        _ => {},
    }
}

/// The same, of two optional expressions.
pub proof fn lemma_opt_fidelity(a: Option<Box<ExprView>>, b: Option<Box<ExprView>>)
    ensures
        match a {
            None => b is None,
            Some(p) => b is Some && same_meaning(*p, *b->Some_0),
        } ==> project_opt(a) == project_opt(b),
        project_opt(a) is Ok && project_opt(a) == project_opt(b) ==> match a {
            None => b is None,
            Some(p) => b is Some && same_meaning(*p, *b->Some_0),
        },
    decreases a, 0nat,
{
    match a {
        Some(p) => {
            if b is Some {
                lemma_fidelity(*p, *b->Some_0);
            }
        },
        None => {},
    }
}

/// The same, of the first `n` arguments of two calls.
pub proof fn lemma_prefix_fidelity(x: Seq<ExprView>, y: Seq<ExprView>, n: nat)
    requires
        n <= x.len(),
        n <= y.len(),
    ensures
        (forall|i: int| 0 <= i < n ==> same_meaning(x[i], y[i])) ==> project_prefix(x, n)
            == project_prefix(y, n),
        project_prefix(x, n) is Ok && project_prefix(x, n) == project_prefix(y, n) ==> forall|
            i: int,
        | 0 <= i < n ==> same_meaning(x[i], y[i]),
    decreases x, n,
{
    if n > 0 {
        let m = (n - 1) as nat;
        lemma_prefix_fidelity(x, y, m);
        lemma_fidelity(x[n - 1], y[n - 1]);
        crate::laws::lemma_prefix_failure(x, m);
        crate::laws::lemma_prefix_failure(y, m);
        if project_prefix(x, n) is Ok && project_prefix(x, n) == project_prefix(y, n) {
            let nodes_x = project_prefix(x, m)->Ok_0;
            let nodes_y = project_prefix(y, m)->Ok_0;
            let node_x = project(x[n - 1])->Ok_0;
            let node_y = project(y[n - 1])->Ok_0;
            assert(nodes_x.push(node_x) == nodes_y.push(node_y));
            assert(nodes_x.push(node_x).drop_last() =~= nodes_x);
            assert(nodes_y.push(node_y).drop_last() =~= nodes_y);
            assert(nodes_x.push(node_x).last() == node_x);
            assert(nodes_y.push(node_y).last() == node_y);
        }
    }
}

} // verus!
