//! Properties of the unification pass that span two runs of it.
use vstd::prelude::*;
use crate::expr::{ArmPattern, CallType, Expr, MatchArm};
use crate::semantics::{
    all_visited, all_visited_in_pattern, reports,
    arms_errors, expr_errors, next_type, own_errors, own_next, pattern_errors, rev_errors,
    rev_field_errors, rev_field_pattern_errors, rev_pattern_errors, unified_pattern_to,
    unified_to, Renderer, Unifier,
};

verus! {

/// Unifying a unified type gives it back.
pub open spec fn idempotent<T>(u: Unifier<T>) -> bool {
    forall|t: T| #[trigger] u(t) matches Ok(t2) ==> u(t2) == Ok::<T, Seq<char>>(t2)
}

proof fn lemma_next_type_fixed<T>(t: T, u: Unifier<T>)
    requires
        idempotent(u),
    ensures
        next_type(next_type(t, u), u) == next_type(t, u),
        u(next_type(t, u)) is Ok <==> u(t) is Ok,
{
    if let Ok(t2) = u(t) {
        assert(u(t2) == Ok::<T, Seq<char>>(t2));
    }
}

/// A second pass, with a unifier that gives back what it unified, leaves
/// the tree that the first pass left unchanged.
pub proof fn lemma_second_pass_changes_nothing<T>(e: Expr<T>, e1: Expr<T>, u: Unifier<T>)
    requires
        idempotent(u),
        unified_to(e, e1, u),
    ensures
        unified_to(e1, e1, u),
    decreases e,
{
    lemma_next_type_fixed(e.type_of(), u);
    match e {
        Expr::Let { expr, .. } => {
            if let Expr::Let { expr: e2, .. } = e1 {
                lemma_second_pass_changes_nothing(*expr, *e2, u);
            }
        },
        Expr::SelectField { expr, .. } => {
            if let Expr::SelectField { expr: e2, .. } = e1 {
                lemma_second_pass_changes_nothing(*expr, *e2, u);
            }
        },
        Expr::SelectIndex { expr, .. } => {
            if let Expr::SelectIndex { expr: e2, .. } = e1 {
                lemma_second_pass_changes_nothing(*expr, *e2, u);
            }
        },
        Expr::Sequence { exprs, .. } => {
            if let Expr::Sequence { exprs: x2, .. } = e1 {
                assert forall|i: int| 0 <= i < x2@.len() implies unified_to(
                    #[trigger] x2@[i],
                    x2@[i],
                    u,
                ) by {
                    lemma_second_pass_changes_nothing(exprs@[i], x2@[i], u);
                }
            }
        },
        Expr::Record { exprs, .. } => {
            if let Expr::Record { exprs: x2, .. } = e1 {
                assert forall|i: int| 0 <= i < x2@.len() implies x2@[i].0 == (
                #[trigger] x2@[i]).0 && unified_to(*x2@[i].1, *x2@[i].1, u) by {
                    lemma_second_pass_changes_nothing(*exprs@[i].1, *x2@[i].1, u);
                }
            }
        },
        Expr::Tuple { exprs, .. } => {
            if let Expr::Tuple { exprs: x2, .. } = e1 {
                assert forall|i: int| 0 <= i < x2@.len() implies unified_to(
                    #[trigger] x2@[i],
                    x2@[i],
                    u,
                ) by {
                    lemma_second_pass_changes_nothing(exprs@[i], x2@[i], u);
                }
            }
        },
        Expr::Concat { exprs, .. } => {
            if let Expr::Concat { exprs: x2, .. } = e1 {
                assert forall|i: int| 0 <= i < x2@.len() implies unified_to(
                    #[trigger] x2@[i],
                    x2@[i],
                    u,
                ) by {
                    lemma_second_pass_changes_nothing(exprs@[i], x2@[i], u);
                }
            }
        },
        Expr::ExprBlock { exprs, .. } => {
            if let Expr::ExprBlock { exprs: x2, .. } = e1 {
                assert forall|i: int| 0 <= i < x2@.len() implies unified_to(
                    #[trigger] x2@[i],
                    x2@[i],
                    u,
                ) by {
                    lemma_second_pass_changes_nothing(exprs@[i], x2@[i], u);
                }
            }
        },
        Expr::Not { expr, .. } => {
            if let Expr::Not { expr: e2, .. } = e1 {
                lemma_second_pass_changes_nothing(*expr, *e2, u);
            }
        },
        Expr::Unwrap { expr, .. } => {
            if let Expr::Unwrap { expr: e2, .. } = e1 {
                lemma_second_pass_changes_nothing(*expr, *e2, u);
            }
        },
        Expr::GreaterThan { lhs: a, rhs: b, .. } => {
            if let Expr::GreaterThan { lhs: a2, rhs: b2, .. } = e1 {
                lemma_second_pass_changes_nothing(*a, *a2, u);
                lemma_second_pass_changes_nothing(*b, *b2, u);
            }
        },
        Expr::GreaterThanOrEqualTo { lhs: a, rhs: b, .. } => {
            if let Expr::GreaterThanOrEqualTo { lhs: a2, rhs: b2, .. } = e1 {
                lemma_second_pass_changes_nothing(*a, *a2, u);
                lemma_second_pass_changes_nothing(*b, *b2, u);
            }
        },
        Expr::LessThanOrEqualTo { lhs: a, rhs: b, .. } => {
            if let Expr::LessThanOrEqualTo { lhs: a2, rhs: b2, .. } = e1 {
                lemma_second_pass_changes_nothing(*a, *a2, u);
                lemma_second_pass_changes_nothing(*b, *b2, u);
            }
        },
        Expr::Plus { lhs: a, rhs: b, .. } => {
            if let Expr::Plus { lhs: a2, rhs: b2, .. } = e1 {
                lemma_second_pass_changes_nothing(*a, *a2, u);
                lemma_second_pass_changes_nothing(*b, *b2, u);
            }
        },
        Expr::Minus { lhs: a, rhs: b, .. } => {
            if let Expr::Minus { lhs: a2, rhs: b2, .. } = e1 {
                lemma_second_pass_changes_nothing(*a, *a2, u);
                lemma_second_pass_changes_nothing(*b, *b2, u);
            }
        },
        Expr::Multiply { lhs: a, rhs: b, .. } => {
            if let Expr::Multiply { lhs: a2, rhs: b2, .. } = e1 {
                lemma_second_pass_changes_nothing(*a, *a2, u);
                lemma_second_pass_changes_nothing(*b, *b2, u);
            }
        },
        Expr::Divide { lhs: a, rhs: b, .. } => {
            if let Expr::Divide { lhs: a2, rhs: b2, .. } = e1 {
                lemma_second_pass_changes_nothing(*a, *a2, u);
                lemma_second_pass_changes_nothing(*b, *b2, u);
            }
        },
        Expr::EqualTo { lhs: a, rhs: b, .. } => {
            if let Expr::EqualTo { lhs: a2, rhs: b2, .. } = e1 {
                lemma_second_pass_changes_nothing(*a, *a2, u);
                lemma_second_pass_changes_nothing(*b, *b2, u);
            }
        },
        Expr::LessThan { lhs: a, rhs: b, .. } => {
            if let Expr::LessThan { lhs: a2, rhs: b2, .. } = e1 {
                lemma_second_pass_changes_nothing(*a, *a2, u);
                lemma_second_pass_changes_nothing(*b, *b2, u);
            }
        },
        Expr::And { lhs: a, rhs: b, .. } => {
            if let Expr::And { lhs: a2, rhs: b2, .. } = e1 {
                lemma_second_pass_changes_nothing(*a, *a2, u);
                lemma_second_pass_changes_nothing(*b, *b2, u);
            }
        },
        Expr::Or { lhs: a, rhs: b, .. } => {
            if let Expr::Or { lhs: a2, rhs: b2, .. } = e1 {
                lemma_second_pass_changes_nothing(*a, *a2, u);
                lemma_second_pass_changes_nothing(*b, *b2, u);
            }
        },
        Expr::Cond { cond: c, lhs: a, rhs: b, .. } => {
            if let Expr::Cond { cond: c2, lhs: a2, rhs: b2, .. } = e1 {
                lemma_second_pass_changes_nothing(*c, *c2, u);
                lemma_second_pass_changes_nothing(*a, *a2, u);
                lemma_second_pass_changes_nothing(*b, *b2, u);
            }
        },
        Expr::PatternMatch { predicate, match_arms, .. } => {
            if let Expr::PatternMatch { predicate: p2, match_arms: a2, .. } = e1 {
                lemma_second_pass_changes_nothing(*predicate, *p2, u);
                assert forall|i: int| 0 <= i < a2@.len() implies unified_pattern_to(
                    (#[trigger] a2@[i]).arm_pattern,
                    a2@[i].arm_pattern,
                    u,
                ) && unified_to(*a2@[i].arm_resolution_expr, *a2@[i].arm_resolution_expr, u) by {
                    lemma_second_pass_changes_nothing_in_pattern(
                        match_arms@[i].arm_pattern,
                        a2@[i].arm_pattern,
                        u,
                    );
                    lemma_second_pass_changes_nothing(
                        *match_arms@[i].arm_resolution_expr,
                        *a2@[i].arm_resolution_expr,
                        u,
                    );
                }
            }
        },
        Expr::Option { expr: Some(inner), .. } => {
            if let Expr::Option { expr: Some(e2), .. } = e1 {
                lemma_second_pass_changes_nothing(*inner, *e2, u);
            }
        },
        Expr::Result { expr: Ok(inner), .. } => {
            if let Expr::Result { expr: Ok(e2), .. } = e1 {
                lemma_second_pass_changes_nothing(*inner, *e2, u);
            }
        },
        Expr::Result { expr: Err(inner), .. } => {
            if let Expr::Result { expr: Err(e2), .. } = e1 {
                lemma_second_pass_changes_nothing(*inner, *e2, u);
            }
        },
        Expr::Call { call_type, args, .. } => {
            if let Expr::Call { call_type: c2, args: x2, .. } = e1 {
                assert forall|i: int| 0 <= i < x2@.len() implies unified_to(
                    #[trigger] x2@[i],
                    x2@[i],
                    u,
                ) by {
                    lemma_second_pass_changes_nothing(args@[i], x2@[i], u);
                }
                if let CallType::Function { worker: Some(w), .. } = call_type {
                    if let CallType::Function { worker: Some(w2), .. } = c2 {
                        lemma_second_pass_changes_nothing(*w, *w2, u);
                    }
                }
            }
        },
        Expr::ListComprehension { iterable_expr, yield_expr, .. } => {
            if let Expr::ListComprehension { iterable_expr: i2, yield_expr: y2, .. } = e1 {
                lemma_second_pass_changes_nothing(*iterable_expr, *i2, u);
                lemma_second_pass_changes_nothing(*yield_expr, *y2, u);
            }
        },
        Expr::ListReduce { iterable_expr, init_value_expr, yield_expr, .. } => {
            if let Expr::ListReduce {
                iterable_expr: i2,
                init_value_expr: n2,
                yield_expr: y2,
                ..
            } = e1 {
                lemma_second_pass_changes_nothing(*iterable_expr, *i2, u);
                lemma_second_pass_changes_nothing(*init_value_expr, *n2, u);
                lemma_second_pass_changes_nothing(*yield_expr, *y2, u);
            }
        },
        _ => {},
    }
}

/// The same for the literal expressions of a pattern.
pub proof fn lemma_second_pass_changes_nothing_in_pattern<T>(
    p: ArmPattern<T>,
    p1: ArmPattern<T>,
    u: Unifier<T>,
)
    requires
        idempotent(u),
        unified_pattern_to(p, p1, u),
    ensures
        unified_pattern_to(p1, p1, u),
    decreases p,
{
    match p {
        ArmPattern::WildCard => {},
        ArmPattern::As(_, inner) => {
            if let ArmPattern::As(_, i2) = p1 {
                lemma_second_pass_changes_nothing_in_pattern(*inner, *i2, u);
            }
        },
        ArmPattern::Constructor(_, ps) => {
            if let ArmPattern::Constructor(_, p2) = p1 {
                assert forall|i: int| 0 <= i < p2@.len() implies unified_pattern_to(
                    #[trigger] p2@[i],
                    p2@[i],
                    u,
                ) by {
                    lemma_second_pass_changes_nothing_in_pattern(ps@[i], p2@[i], u);
                }
            }
        },
        ArmPattern::TupleConstructor(ps) => {
            if let ArmPattern::TupleConstructor(p2) = p1 {
                assert forall|i: int| 0 <= i < p2@.len() implies unified_pattern_to(
                    #[trigger] p2@[i],
                    p2@[i],
                    u,
                ) by {
                    lemma_second_pass_changes_nothing_in_pattern(ps@[i], p2@[i], u);
                }
            }
        },
        ArmPattern::ListConstructor(ps) => {
            if let ArmPattern::ListConstructor(p2) = p1 {
                assert forall|i: int| 0 <= i < p2@.len() implies unified_pattern_to(
                    #[trigger] p2@[i],
                    p2@[i],
                    u,
                ) by {
                    lemma_second_pass_changes_nothing_in_pattern(ps@[i], p2@[i], u);
                }
            }
        },
        ArmPattern::RecordConstructor(fs) => {
            if let ArmPattern::RecordConstructor(f2) = p1 {
                assert forall|i: int| 0 <= i < f2@.len() implies f2@[i].0 == (
                #[trigger] f2@[i]).0 && unified_pattern_to(f2@[i].1, f2@[i].1, u) by {
                    lemma_second_pass_changes_nothing_in_pattern(fs@[i].1, f2@[i].1, u);
                }
            }
        },
        ArmPattern::Literal(inner) => {
            if let ArmPattern::Literal(e2) = p1 {
                lemma_second_pass_changes_nothing(*inner, *e2, u);
            }
        },
    }
}


proof fn lemma_own_same_count<T>(e: Expr<T>, e1: Expr<T>, u: Unifier<T>, r1: Renderer<T>, r2: Renderer<T>)
    requires
        idempotent(u),
        unified_to(e, e1, u),
    ensures
        own_errors(e1, u, r2).len() == own_errors(e, u, r1).len(),
{
    lemma_next_type_fixed(e.type_of(), u);
}

/// A second pass, with a unifier that gives back what it unified, reports
/// as many messages as the first: a node that failed fails again, one that
/// unified unifies again. (Their texts may differ, as the nodes they quote
/// may show their new types.)
pub proof fn lemma_second_pass_same_count<T>(
    e: Expr<T>,
    e1: Expr<T>,
    u: Unifier<T>,
    r1: Renderer<T>,
    r2: Renderer<T>,
)
    requires
        idempotent(u),
        unified_to(e, e1, u),
    ensures
        expr_errors(e1, u, r2).len() == expr_errors(e, u, r1).len(),
    decreases e,
{
    lemma_own_same_count(e, e1, u, r1, r2);
    match e {
        Expr::Let { expr, .. } => {
            if let Expr::Let { expr: e2, .. } = e1 {
                lemma_second_pass_same_count(*expr, *e2, u, r1, r2);
            }
        },
        Expr::SelectField { expr, .. } => {
            if let Expr::SelectField { expr: e2, .. } = e1 {
                lemma_second_pass_same_count(*expr, *e2, u, r1, r2);
            }
        },
        Expr::SelectIndex { expr, .. } => {
            if let Expr::SelectIndex { expr: e2, .. } = e1 {
                lemma_second_pass_same_count(*expr, *e2, u, r1, r2);
            }
        },
        Expr::Not { expr, .. } => {
            if let Expr::Not { expr: e2, .. } = e1 {
                lemma_second_pass_same_count(*expr, *e2, u, r1, r2);
            }
        },
        Expr::Unwrap { expr, .. } => {
            if let Expr::Unwrap { expr: e2, .. } = e1 {
                lemma_second_pass_same_count(*expr, *e2, u, r1, r2);
            }
        },
        Expr::GreaterThan { lhs: a, rhs: b, .. } => {
            if let Expr::GreaterThan { lhs: a2, rhs: b2, .. } = e1 {
                lemma_second_pass_same_count(*a, *a2, u, r1, r2);
                lemma_second_pass_same_count(*b, *b2, u, r1, r2);
            }
        },
        Expr::GreaterThanOrEqualTo { lhs: a, rhs: b, .. } => {
            if let Expr::GreaterThanOrEqualTo { lhs: a2, rhs: b2, .. } = e1 {
                lemma_second_pass_same_count(*a, *a2, u, r1, r2);
                lemma_second_pass_same_count(*b, *b2, u, r1, r2);
            }
        },
        Expr::LessThanOrEqualTo { lhs: a, rhs: b, .. } => {
            if let Expr::LessThanOrEqualTo { lhs: a2, rhs: b2, .. } = e1 {
                lemma_second_pass_same_count(*a, *a2, u, r1, r2);
                lemma_second_pass_same_count(*b, *b2, u, r1, r2);
            }
        },
        Expr::Plus { lhs: a, rhs: b, .. } => {
            if let Expr::Plus { lhs: a2, rhs: b2, .. } = e1 {
                lemma_second_pass_same_count(*a, *a2, u, r1, r2);
                lemma_second_pass_same_count(*b, *b2, u, r1, r2);
            }
        },
        Expr::Minus { lhs: a, rhs: b, .. } => {
            if let Expr::Minus { lhs: a2, rhs: b2, .. } = e1 {
                lemma_second_pass_same_count(*a, *a2, u, r1, r2);
                lemma_second_pass_same_count(*b, *b2, u, r1, r2);
            }
        },
        Expr::Multiply { lhs: a, rhs: b, .. } => {
            if let Expr::Multiply { lhs: a2, rhs: b2, .. } = e1 {
                lemma_second_pass_same_count(*a, *a2, u, r1, r2);
                lemma_second_pass_same_count(*b, *b2, u, r1, r2);
            }
        },
        Expr::Divide { lhs: a, rhs: b, .. } => {
            if let Expr::Divide { lhs: a2, rhs: b2, .. } = e1 {
                lemma_second_pass_same_count(*a, *a2, u, r1, r2);
                lemma_second_pass_same_count(*b, *b2, u, r1, r2);
            }
        },
        Expr::EqualTo { lhs: a, rhs: b, .. } => {
            if let Expr::EqualTo { lhs: a2, rhs: b2, .. } = e1 {
                lemma_second_pass_same_count(*a, *a2, u, r1, r2);
                lemma_second_pass_same_count(*b, *b2, u, r1, r2);
            }
        },
        Expr::LessThan { lhs: a, rhs: b, .. } => {
            if let Expr::LessThan { lhs: a2, rhs: b2, .. } = e1 {
                lemma_second_pass_same_count(*a, *a2, u, r1, r2);
                lemma_second_pass_same_count(*b, *b2, u, r1, r2);
            }
        },
        Expr::And { lhs: a, rhs: b, .. } => {
            if let Expr::And { lhs: a2, rhs: b2, .. } = e1 {
                lemma_second_pass_same_count(*a, *a2, u, r1, r2);
                lemma_second_pass_same_count(*b, *b2, u, r1, r2);
            }
        },
        Expr::Or { lhs: a, rhs: b, .. } => {
            if let Expr::Or { lhs: a2, rhs: b2, .. } = e1 {
                lemma_second_pass_same_count(*a, *a2, u, r1, r2);
                lemma_second_pass_same_count(*b, *b2, u, r1, r2);
            }
        },
        Expr::Sequence { exprs, .. } => {
            if let Expr::Sequence { exprs: x2, .. } = e1 {
                lemma_rev_same_count(exprs@, x2@, u, r1, r2);
            }
        },
        Expr::Tuple { exprs, .. } => {
            if let Expr::Tuple { exprs: x2, .. } = e1 {
                lemma_rev_same_count(exprs@, x2@, u, r1, r2);
            }
        },
        Expr::Concat { exprs, .. } => {
            if let Expr::Concat { exprs: x2, .. } = e1 {
                lemma_rev_same_count(exprs@, x2@, u, r1, r2);
            }
        },
        Expr::ExprBlock { exprs, .. } => {
            if let Expr::ExprBlock { exprs: x2, .. } = e1 {
                lemma_rev_same_count(exprs@, x2@, u, r1, r2);
            }
        },
        Expr::Record { exprs, .. } => {
            if let Expr::Record { exprs: x2, .. } = e1 {
                lemma_rev_field_same_count(exprs@, x2@, u, r1, r2);
            }
        },
        Expr::Cond { cond: c, lhs: a, rhs: b, .. } => {
            if let Expr::Cond { cond: c2, lhs: a2, rhs: b2, .. } = e1 {
                lemma_second_pass_same_count(*c, *c2, u, r1, r2);
                lemma_second_pass_same_count(*a, *a2, u, r1, r2);
                lemma_second_pass_same_count(*b, *b2, u, r1, r2);
            }
        },
        Expr::PatternMatch { predicate, match_arms, .. } => {
            if let Expr::PatternMatch { predicate: p2, match_arms: a2, .. } = e1 {
                lemma_second_pass_same_count(*predicate, *p2, u, r1, r2);
                lemma_arms_same_count(match_arms@, a2@, u, r1, r2);
            }
        },
        Expr::Option { expr: Some(inner), .. } => {
            if let Expr::Option { expr: Some(e2), .. } = e1 {
                lemma_second_pass_same_count(*inner, *e2, u, r1, r2);
            }
        },
        Expr::Result { expr: Ok(inner), .. } => {
            if let Expr::Result { expr: Ok(e2), .. } = e1 {
                lemma_second_pass_same_count(*inner, *e2, u, r1, r2);
            }
        },
        Expr::Result { expr: Err(inner), .. } => {
            if let Expr::Result { expr: Err(e2), .. } = e1 {
                lemma_second_pass_same_count(*inner, *e2, u, r1, r2);
            }
        },
        Expr::Call { call_type, args, .. } => {
            if let Expr::Call { call_type: c2, args: x2, .. } = e1 {
                lemma_rev_same_count(args@, x2@, u, r1, r2);
                if let CallType::Function { worker: Some(w), .. } = call_type {
                    if let CallType::Function { worker: Some(w2), .. } = c2 {
                        lemma_second_pass_same_count(*w, *w2, u, r1, r2);
                    }
                }
            }
        },
        Expr::ListComprehension { iterable_expr, yield_expr, .. } => {
            if let Expr::ListComprehension { iterable_expr: i2, yield_expr: y2, .. } = e1 {
                lemma_second_pass_same_count(*iterable_expr, *i2, u, r1, r2);
                lemma_second_pass_same_count(*yield_expr, *y2, u, r1, r2);
            }
        },
        Expr::ListReduce { iterable_expr, init_value_expr, yield_expr, .. } => {
            if let Expr::ListReduce {
                iterable_expr: i2,
                init_value_expr: n2,
                yield_expr: y2,
                ..
            } = e1 {
                lemma_second_pass_same_count(*iterable_expr, *i2, u, r1, r2);
                lemma_second_pass_same_count(*init_value_expr, *n2, u, r1, r2);
                lemma_second_pass_same_count(*yield_expr, *y2, u, r1, r2);
            }
        },
        _ => {},
    }
}

proof fn lemma_rev_same_count<T>(
    s: Seq<Expr<T>>,
    s1: Seq<Expr<T>>,
    u: Unifier<T>,
    r1: Renderer<T>,
    r2: Renderer<T>,
)
    requires
        idempotent(u),
        s1.len() == s.len(),
        forall|i: int| 0 <= i < s.len() ==> unified_to(#[trigger] s[i], s1[i], u),
    ensures
        rev_errors(s1, u, r2).len() == rev_errors(s, u, r1).len(),
    decreases s,
{
    if s.len() > 0 {
        let n = s.len() - 1;
        lemma_second_pass_same_count(s[n], s1[n], u, r1, r2);
        assert forall|i: int| 0 <= i < s.drop_last().len() implies unified_to(
            #[trigger] s.drop_last()[i],
            s1.drop_last()[i],
            u,
        ) by {
            assert(unified_to(s[i], s1[i], u));
        }
        lemma_rev_same_count(s.drop_last(), s1.drop_last(), u, r1, r2);
    }
}

proof fn lemma_rev_field_same_count<T>(
    s: Seq<(String, Box<Expr<T>>)>,
    s1: Seq<(String, Box<Expr<T>>)>,
    u: Unifier<T>,
    r1: Renderer<T>,
    r2: Renderer<T>,
)
    requires
        idempotent(u),
        s1.len() == s.len(),
        forall|i: int|
            0 <= i < s.len() ==> s1[i].0 == (#[trigger] s[i]).0 && unified_to(*s[i].1, *s1[i].1, u),
    ensures
        rev_field_errors(s1, u, r2).len() == rev_field_errors(s, u, r1).len(),
    decreases s,
{
    if s.len() > 0 {
        let n = s.len() - 1;
        assert(unified_to(*s[n].1, *s1[n].1, u));
        lemma_second_pass_same_count(*s[n].1, *s1[n].1, u, r1, r2);
        assert forall|i: int| 0 <= i < s.drop_last().len() implies s1.drop_last()[i].0 == (
        #[trigger] s.drop_last()[i]).0 && unified_to(*s.drop_last()[i].1, *s1.drop_last()[i].1, u) by {
            assert(unified_to(*s[i].1, *s1[i].1, u));
        }
        lemma_rev_field_same_count(s.drop_last(), s1.drop_last(), u, r1, r2);
    }
}

proof fn lemma_arms_same_count<T>(
    s: Seq<MatchArm<T>>,
    s1: Seq<MatchArm<T>>,
    u: Unifier<T>,
    r1: Renderer<T>,
    r2: Renderer<T>,
)
    requires
        idempotent(u),
        s1.len() == s.len(),
        forall|i: int|
            0 <= i < s.len() ==> unified_pattern_to((#[trigger] s[i]).arm_pattern, s1[i].arm_pattern, u)
                && unified_to(*s[i].arm_resolution_expr, *s1[i].arm_resolution_expr, u),
    ensures
        arms_errors(s1, u, r2).len() == arms_errors(s, u, r1).len(),
    decreases s,
{
    if s.len() > 0 {
        let n = s.len() - 1;
        assert(unified_to(*s[n].arm_resolution_expr, *s1[n].arm_resolution_expr, u));
        lemma_second_pass_same_count(*s[n].arm_resolution_expr, *s1[n].arm_resolution_expr, u, r1, r2);
        lemma_pattern_same_count(s[n].arm_pattern, s1[n].arm_pattern, u, r1, r2);
        assert forall|i: int| 0 <= i < s.drop_last().len() implies unified_pattern_to(
            (#[trigger] s.drop_last()[i]).arm_pattern,
            s1.drop_last()[i].arm_pattern,
            u,
        ) && unified_to(*s.drop_last()[i].arm_resolution_expr, *s1.drop_last()[i].arm_resolution_expr, u) by {
            assert(unified_to(*s[i].arm_resolution_expr, *s1[i].arm_resolution_expr, u));
        }
        lemma_arms_same_count(s.drop_last(), s1.drop_last(), u, r1, r2);
    }
}

proof fn lemma_pattern_same_count<T>(
    p: ArmPattern<T>,
    p1: ArmPattern<T>,
    u: Unifier<T>,
    r1: Renderer<T>,
    r2: Renderer<T>,
)
    requires
        idempotent(u),
        unified_pattern_to(p, p1, u),
    ensures
        pattern_errors(p1, u, r2).len() == pattern_errors(p, u, r1).len(),
    decreases p,
{
    match p {
        ArmPattern::WildCard => {},
        ArmPattern::As(_, inner) => {
            if let ArmPattern::As(_, i2) = p1 {
                lemma_pattern_same_count(*inner, *i2, u, r1, r2);
            }
        },
        ArmPattern::Constructor(_, ps) => {
            if let ArmPattern::Constructor(_, p2) = p1 {
                lemma_rev_pattern_same_count(ps@, p2@, u, r1, r2);
            }
        },
        ArmPattern::TupleConstructor(ps) => {
            if let ArmPattern::TupleConstructor(p2) = p1 {
                lemma_rev_pattern_same_count(ps@, p2@, u, r1, r2);
            }
        },
        ArmPattern::ListConstructor(ps) => {
            if let ArmPattern::ListConstructor(p2) = p1 {
                lemma_rev_pattern_same_count(ps@, p2@, u, r1, r2);
            }
        },
        ArmPattern::RecordConstructor(fs) => {
            if let ArmPattern::RecordConstructor(f2) = p1 {
                lemma_rev_field_pattern_same_count(fs@, f2@, u, r1, r2);
            }
        },
        ArmPattern::Literal(inner) => {
            if let ArmPattern::Literal(e2) = p1 {
                lemma_second_pass_same_count(*inner, *e2, u, r1, r2);
            }
        },
    }
}

proof fn lemma_rev_pattern_same_count<T>(
    s: Seq<ArmPattern<T>>,
    s1: Seq<ArmPattern<T>>,
    u: Unifier<T>,
    r1: Renderer<T>,
    r2: Renderer<T>,
)
    requires
        idempotent(u),
        s1.len() == s.len(),
        forall|i: int| 0 <= i < s.len() ==> unified_pattern_to(#[trigger] s[i], s1[i], u),
    ensures
        rev_pattern_errors(s1, u, r2).len() == rev_pattern_errors(s, u, r1).len(),
    decreases s,
{
    if s.len() > 0 {
        let n = s.len() - 1;
        lemma_pattern_same_count(s[n], s1[n], u, r1, r2);
        assert forall|i: int| 0 <= i < s.drop_last().len() implies unified_pattern_to(
            #[trigger] s.drop_last()[i],
            s1.drop_last()[i],
            u,
        ) by {
            assert(unified_pattern_to(s[i], s1[i], u));
        }
        lemma_rev_pattern_same_count(s.drop_last(), s1.drop_last(), u, r1, r2);
    }
}

proof fn lemma_rev_field_pattern_same_count<T>(
    s: Seq<(String, ArmPattern<T>)>,
    s1: Seq<(String, ArmPattern<T>)>,
    u: Unifier<T>,
    r1: Renderer<T>,
    r2: Renderer<T>,
)
    requires
        idempotent(u),
        s1.len() == s.len(),
        forall|i: int|
            0 <= i < s.len() ==> s1[i].0 == (#[trigger] s[i]).0 && unified_pattern_to(s[i].1, s1[i].1, u),
    ensures
        rev_field_pattern_errors(s1, u, r2).len() == rev_field_pattern_errors(s, u, r1).len(),
    decreases s,
{
    if s.len() > 0 {
        let n = s.len() - 1;
        assert(unified_pattern_to(s[n].1, s1[n].1, u));
        lemma_pattern_same_count(s[n].1, s1[n].1, u, r1, r2);
        assert forall|i: int| 0 <= i < s.drop_last().len() implies s1.drop_last()[i].0 == (
        #[trigger] s.drop_last()[i]).0 && unified_pattern_to(s.drop_last()[i].1, s1.drop_last()[i].1, u) by {
            assert(unified_pattern_to(s[i].1, s1[i].1, u));
        }
        lemma_rev_field_pattern_same_count(s.drop_last(), s1.drop_last(), u, r1, r2);
    }
}


/// A node that reports a failure unifies.
pub open spec fn unifies_cleanly<T>(u: Unifier<T>) -> spec_fn(Expr<T>) -> bool {
    |n: Expr<T>| reports(n) ==> u(n.type_of()) is Ok
}

/// The pass reports no message exactly when every visited node that would
/// report a failure has a type that unifies.
pub proof fn lemma_no_errors_iff_all_unify<T>(e: Expr<T>, u: Unifier<T>, r: Renderer<T>)
    ensures
        expr_errors(e, u, r).len() == 0 <==> all_visited(e, unifies_cleanly(u)),
    decreases e,
{
    match e {
        Expr::Let { expr, .. } => {
            lemma_no_errors_iff_all_unify(*expr, u, r);
        },
        Expr::SelectField { expr, .. } => {
            lemma_no_errors_iff_all_unify(*expr, u, r);
        },
        Expr::SelectIndex { expr, .. } => {
            lemma_no_errors_iff_all_unify(*expr, u, r);
        },
        Expr::Not { expr, .. } => {
            lemma_no_errors_iff_all_unify(*expr, u, r);
        },
        Expr::Unwrap { expr, .. } => {
            lemma_no_errors_iff_all_unify(*expr, u, r);
        },
        Expr::GreaterThan { lhs: a, rhs: b, .. } => {
            lemma_no_errors_iff_all_unify(*a, u, r);
            lemma_no_errors_iff_all_unify(*b, u, r);
        },
        Expr::GreaterThanOrEqualTo { lhs: a, rhs: b, .. } => {
            lemma_no_errors_iff_all_unify(*a, u, r);
            lemma_no_errors_iff_all_unify(*b, u, r);
        },
        Expr::LessThanOrEqualTo { lhs: a, rhs: b, .. } => {
            lemma_no_errors_iff_all_unify(*a, u, r);
            lemma_no_errors_iff_all_unify(*b, u, r);
        },
        Expr::Plus { lhs: a, rhs: b, .. } => {
            lemma_no_errors_iff_all_unify(*a, u, r);
            lemma_no_errors_iff_all_unify(*b, u, r);
        },
        Expr::Minus { lhs: a, rhs: b, .. } => {
            lemma_no_errors_iff_all_unify(*a, u, r);
            lemma_no_errors_iff_all_unify(*b, u, r);
        },
        Expr::Multiply { lhs: a, rhs: b, .. } => {
            lemma_no_errors_iff_all_unify(*a, u, r);
            lemma_no_errors_iff_all_unify(*b, u, r);
        },
        Expr::Divide { lhs: a, rhs: b, .. } => {
            lemma_no_errors_iff_all_unify(*a, u, r);
            lemma_no_errors_iff_all_unify(*b, u, r);
        },
        Expr::EqualTo { lhs: a, rhs: b, .. } => {
            lemma_no_errors_iff_all_unify(*a, u, r);
            lemma_no_errors_iff_all_unify(*b, u, r);
        },
        Expr::LessThan { lhs: a, rhs: b, .. } => {
            lemma_no_errors_iff_all_unify(*a, u, r);
            lemma_no_errors_iff_all_unify(*b, u, r);
        },
        Expr::And { lhs: a, rhs: b, .. } => {
            lemma_no_errors_iff_all_unify(*a, u, r);
            lemma_no_errors_iff_all_unify(*b, u, r);
        },
        Expr::Or { lhs: a, rhs: b, .. } => {
            lemma_no_errors_iff_all_unify(*a, u, r);
            lemma_no_errors_iff_all_unify(*b, u, r);
        },
        Expr::Sequence { exprs, .. } => {
            lemma_rev_no_errors(exprs@, u, r);
        },
        Expr::Tuple { exprs, .. } => {
            lemma_rev_no_errors(exprs@, u, r);
        },
        Expr::Concat { exprs, .. } => {
            lemma_rev_no_errors(exprs@, u, r);
        },
        Expr::ExprBlock { exprs, .. } => {
            lemma_rev_no_errors(exprs@, u, r);
        },
        Expr::Record { exprs, .. } => {
            lemma_rev_field_no_errors(exprs@, u, r);
        },
        Expr::Cond { cond: c, lhs: a, rhs: b, .. } => {
            lemma_no_errors_iff_all_unify(*c, u, r);
            lemma_no_errors_iff_all_unify(*a, u, r);
            lemma_no_errors_iff_all_unify(*b, u, r);
        },
        Expr::PatternMatch { predicate, match_arms, .. } => {
            lemma_no_errors_iff_all_unify(*predicate, u, r);
            lemma_arms_no_errors(match_arms@, u, r);
        },
        Expr::Option { expr: Some(inner), .. } => {
            lemma_no_errors_iff_all_unify(*inner, u, r);
        },
        Expr::Result { expr: Ok(inner), .. } => {
            lemma_no_errors_iff_all_unify(*inner, u, r);
        },
        Expr::Result { expr: Err(inner), .. } => {
            lemma_no_errors_iff_all_unify(*inner, u, r);
        },
        Expr::Call { call_type, args, .. } => {
            lemma_rev_no_errors(args@, u, r);
            if let CallType::Function { worker: Some(w), .. } = call_type {
                lemma_no_errors_iff_all_unify(*w, u, r);
            }
        },
        Expr::ListComprehension { iterable_expr, yield_expr, .. } => {
            lemma_no_errors_iff_all_unify(*iterable_expr, u, r);
            lemma_no_errors_iff_all_unify(*yield_expr, u, r);
        },
        Expr::ListReduce { iterable_expr, init_value_expr, yield_expr, .. } => {
            lemma_no_errors_iff_all_unify(*iterable_expr, u, r);
            lemma_no_errors_iff_all_unify(*init_value_expr, u, r);
            lemma_no_errors_iff_all_unify(*yield_expr, u, r);
        },
        _ => {},
    }
}

proof fn lemma_rev_no_errors<T>(s: Seq<Expr<T>>, u: Unifier<T>, r: Renderer<T>)
    ensures
        rev_errors(s, u, r).len() == 0 <==> forall|i: int|
            0 <= i < s.len() ==> all_visited(#[trigger] s[i], unifies_cleanly(u)),
    decreases s,
{
    if s.len() > 0 {
        let n = s.len() - 1;
        lemma_no_errors_iff_all_unify(s[n], u, r);
        lemma_rev_no_errors(s.drop_last(), u, r);
        if rev_errors(s, u, r).len() == 0 {
            assert forall|i: int| 0 <= i < s.len() implies all_visited(
                #[trigger] s[i],
                unifies_cleanly(u),
            ) by {
                if i < n {
                    assert(s[i] == s.drop_last()[i]);
                }
            }
        }
        if forall|i: int| 0 <= i < s.len() ==> all_visited(#[trigger] s[i], unifies_cleanly(u)) {
            assert(all_visited(s[n], unifies_cleanly(u)));
            assert forall|i: int| 0 <= i < s.drop_last().len() implies all_visited(
                #[trigger] s.drop_last()[i],
                unifies_cleanly(u),
            ) by {
                assert(all_visited(s[i], unifies_cleanly(u)));
            }
        }
    }
}

proof fn lemma_rev_field_no_errors<T>(s: Seq<(String, Box<Expr<T>>)>, u: Unifier<T>, r: Renderer<T>)
    ensures
        rev_field_errors(s, u, r).len() == 0 <==> forall|i: int|
            0 <= i < s.len() ==> all_visited(*(#[trigger] s[i]).1, unifies_cleanly(u)),
    decreases s,
{
    if s.len() > 0 {
        let n = s.len() - 1;
        lemma_no_errors_iff_all_unify(*s[n].1, u, r);
        lemma_rev_field_no_errors(s.drop_last(), u, r);
        if rev_field_errors(s, u, r).len() == 0 {
            assert forall|i: int| 0 <= i < s.len() implies all_visited(
                *(#[trigger] s[i]).1,
                unifies_cleanly(u),
            ) by {
                if i < n {
                    assert(s[i] == s.drop_last()[i]);
                }
            }
        }
        if forall|i: int| 0 <= i < s.len() ==> all_visited(*(#[trigger] s[i]).1, unifies_cleanly(u)) {
            assert(all_visited(*s[n].1, unifies_cleanly(u)));
            assert forall|i: int| 0 <= i < s.drop_last().len() implies all_visited(
                *(#[trigger] s.drop_last()[i]).1,
                unifies_cleanly(u),
            ) by {
                assert(all_visited(*s[i].1, unifies_cleanly(u)));
            }
        }
    }
}

proof fn lemma_arms_no_errors<T>(s: Seq<MatchArm<T>>, u: Unifier<T>, r: Renderer<T>)
    ensures
        arms_errors(s, u, r).len() == 0 <==> forall|i: int|
            0 <= i < s.len() ==> all_visited_in_pattern((#[trigger] s[i]).arm_pattern, unifies_cleanly(u))
                && all_visited(*s[i].arm_resolution_expr, unifies_cleanly(u)),
    decreases s,
{
    if s.len() > 0 {
        let n = s.len() - 1;
        lemma_no_errors_iff_all_unify(*s[n].arm_resolution_expr, u, r);
        lemma_pattern_no_errors(s[n].arm_pattern, u, r);
        lemma_arms_no_errors(s.drop_last(), u, r);
        if arms_errors(s, u, r).len() == 0 {
            assert forall|i: int| 0 <= i < s.len() implies all_visited_in_pattern(
                (#[trigger] s[i]).arm_pattern,
                unifies_cleanly(u),
            ) && all_visited(*s[i].arm_resolution_expr, unifies_cleanly(u)) by {
                if i < n {
                    assert(s[i] == s.drop_last()[i]);
                }
            }
        }
        if forall|i: int|
            0 <= i < s.len() ==> all_visited_in_pattern((#[trigger] s[i]).arm_pattern, unifies_cleanly(u))
                && all_visited(*s[i].arm_resolution_expr, unifies_cleanly(u)) {
            assert(all_visited(*s[n].arm_resolution_expr, unifies_cleanly(u)));
            assert forall|i: int| 0 <= i < s.drop_last().len() implies all_visited_in_pattern(
                (#[trigger] s.drop_last()[i]).arm_pattern,
                unifies_cleanly(u),
            ) && all_visited(*s.drop_last()[i].arm_resolution_expr, unifies_cleanly(u)) by {
                assert(all_visited(*s[i].arm_resolution_expr, unifies_cleanly(u)));
            }
        }
    }
}

proof fn lemma_pattern_no_errors<T>(p: ArmPattern<T>, u: Unifier<T>, r: Renderer<T>)
    ensures
        pattern_errors(p, u, r).len() == 0 <==> all_visited_in_pattern(p, unifies_cleanly(u)),
    decreases p,
{
    match p {
        ArmPattern::WildCard => {},
        ArmPattern::As(_, inner) => {
            lemma_pattern_no_errors(*inner, u, r);
        },
        ArmPattern::Constructor(_, ps) => {
            lemma_rev_pattern_no_errors(ps@, u, r);
        },
        ArmPattern::TupleConstructor(ps) => {
            lemma_rev_pattern_no_errors(ps@, u, r);
        },
        ArmPattern::ListConstructor(ps) => {
            lemma_rev_pattern_no_errors(ps@, u, r);
        },
        ArmPattern::RecordConstructor(fs) => {
            lemma_rev_field_pattern_no_errors(fs@, u, r);
        },
        ArmPattern::Literal(inner) => {
            lemma_no_errors_iff_all_unify(*inner, u, r);
        },
    }
}

proof fn lemma_rev_pattern_no_errors<T>(s: Seq<ArmPattern<T>>, u: Unifier<T>, r: Renderer<T>)
    ensures
        rev_pattern_errors(s, u, r).len() == 0 <==> forall|i: int|
            0 <= i < s.len() ==> all_visited_in_pattern(#[trigger] s[i], unifies_cleanly(u)),
    decreases s,
{
    if s.len() > 0 {
        let n = s.len() - 1;
        lemma_pattern_no_errors(s[n], u, r);
        lemma_rev_pattern_no_errors(s.drop_last(), u, r);
        if rev_pattern_errors(s, u, r).len() == 0 {
            assert forall|i: int| 0 <= i < s.len() implies all_visited_in_pattern(
                #[trigger] s[i],
                unifies_cleanly(u),
            ) by {
                if i < n {
                    assert(s[i] == s.drop_last()[i]);
                }
            }
        }
        if forall|i: int| 0 <= i < s.len() ==> all_visited_in_pattern(#[trigger] s[i], unifies_cleanly(u)) {
            assert(all_visited_in_pattern(s[n], unifies_cleanly(u)));
            assert forall|i: int| 0 <= i < s.drop_last().len() implies all_visited_in_pattern(
                #[trigger] s.drop_last()[i],
                unifies_cleanly(u),
            ) by {
                assert(all_visited_in_pattern(s[i], unifies_cleanly(u)));
            }
        }
    }
}

proof fn lemma_rev_field_pattern_no_errors<T>(
    s: Seq<(String, ArmPattern<T>)>,
    u: Unifier<T>,
    r: Renderer<T>,
)
    ensures
        rev_field_pattern_errors(s, u, r).len() == 0 <==> forall|i: int|
            0 <= i < s.len() ==> all_visited_in_pattern((#[trigger] s[i]).1, unifies_cleanly(u)),
    decreases s,
{
    if s.len() > 0 {
        let n = s.len() - 1;
        lemma_pattern_no_errors(s[n].1, u, r);
        lemma_rev_field_pattern_no_errors(s.drop_last(), u, r);
        if rev_field_pattern_errors(s, u, r).len() == 0 {
            assert forall|i: int| 0 <= i < s.len() implies all_visited_in_pattern(
                (#[trigger] s[i]).1,
                unifies_cleanly(u),
            ) by {
                if i < n {
                    assert(s[i] == s.drop_last()[i]);
                }
            }
        }
        if forall|i: int| 0 <= i < s.len() ==> all_visited_in_pattern((#[trigger] s[i]).1, unifies_cleanly(u)) {
            assert(all_visited_in_pattern(s[n].1, unifies_cleanly(u)));
            assert forall|i: int| 0 <= i < s.drop_last().len() implies all_visited_in_pattern(
                (#[trigger] s.drop_last()[i]).1,
                unifies_cleanly(u),
            ) by {
                assert(all_visited_in_pattern(s[i].1, unifies_cleanly(u)));
            }
        }
    }
}

} // verus!
