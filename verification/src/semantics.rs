//! What a unification pass over an expression does, stated over spec
//! functions: the tree it leaves behind and the errors it reports.
//!
//! The pass walks the tree with a stack: it takes the node on top, unifies
//! its type, reports a failure, and pushes the node's children. So a node
//! comes before its descendants, and children come in the reverse of the
//! order in which they were pushed.
use vstd::prelude::*;
use crate::expr::{ArmPattern, CallType, Expr, MatchArm};

verus! {

/// Unification of one type: the unified type, or the reason why there is none.
pub type Unifier<T> = spec_fn(T) -> Result<T, Seq<char>>;

/// The text under which an expression is shown in messages.
pub type Renderer<T> = spec_fn(Expr<T>) -> Seq<char>;

/// The type that a node holds after the pass: the unified type where
/// unification succeeds, the old type where it fails.
pub open spec fn next_type<T>(t: T, unifier: Unifier<T>) -> T {
    match unifier(t) {
        Ok(unified) => unified,
        Err(_) => t,
    }
}

/// Whether the pass unifies the type of this node.
pub open spec fn unifies<T>(e: Expr<T>) -> bool {
    match e {
        Expr::Let { .. } | Expr::Boolean { .. } | Expr::Concat { .. } | Expr::GreaterThan { .. }
        | Expr::GreaterThanOrEqualTo { .. } | Expr::LessThanOrEqualTo { .. } | Expr::EqualTo { .. }
        | Expr::LessThan { .. } | Expr::And { .. } | Expr::Or { .. } | Expr::InvokeMethodLazy {
            ..
        } => false,
        Expr::Call { call_type, .. } => !(call_type is InstanceCreation),
        _ => true,
    }
}

/// Whether a failure to unify this node's type is reported. A block keeps
/// its type silently.
pub open spec fn reports<T>(e: Expr<T>) -> bool {
    unifies(e) && !(e is ExprBlock)
}

/// The words that name the kind of node in a message.
pub open spec fn kind_label<T>(e: Expr<T>) -> Seq<char> {
    match e {
        Expr::Record { .. } => "record "@,
        Expr::Tuple { .. } => "tuple "@,
        Expr::Sequence { .. } => "sequence "@,
        Expr::Option { .. } => "option "@,
        Expr::Result { expr: Ok(_), .. } => "`result::ok` "@,
        Expr::Result { expr: Err(_), .. } => "`result::err` "@,
        Expr::Cond { .. } => "condition expression "@,
        Expr::ListComprehension { .. } => "list comprehension "@,
        Expr::ListReduce { .. } => "list aggregation "@,
        Expr::PatternMatch { .. } => "pattern match expression "@,
        Expr::Call { .. } => "function return "@,
        Expr::SelectField { .. } => "field selection "@,
        Expr::SelectIndex { .. } => "index selection "@,
        Expr::Flags { .. } => "flags "@,
        _ => ""@,
    }
}

/// What a message shows of the node: the callee's name for a call, the
/// rendered expression otherwise.
pub open spec fn subject<T>(e: Expr<T>, renderer: Renderer<T>) -> Seq<char> {
    match e {
        Expr::Call { call_type: CallType::Function { function_name, .. }, .. } => function_name@,
        Expr::Call { call_type: CallType::VariantConstructor(name), .. } => name@,
        Expr::Call { call_type: CallType::EnumConstructor(name), .. } => name@,
        _ => renderer(e),
    }
}

/// The message for a type that cannot be unified.
pub open spec fn error_text(label: Seq<char>, subject: Seq<char>, reason: Seq<char>) -> Seq<char> {
    "unable to infer the type of "@ + label + subject + ", "@ + reason
}

/// The message the pass reports for this node itself, if any.
pub open spec fn own_errors<T>(e: Expr<T>, unifier: Unifier<T>, renderer: Renderer<T>) -> Seq<
    Seq<char>,
> {
    if reports(e) {
        match unifier(e.type_of()) {
            Ok(_) => Seq::empty(),
            Err(reason) => seq![error_text(kind_label(e), subject(e, renderer), reason)],
        }
    } else {
        Seq::empty()
    }
}

/// The type that this node holds after the pass.
pub open spec fn own_next<T>(e: Expr<T>, unifier: Unifier<T>) -> T {
    if unifies(e) {
        next_type(e.type_of(), unifier)
    } else {
        e.type_of()
    }
}

/// `new` is what the pass leaves of `old`: every visited node that unifies
/// holds `next_type` of its type, and all else is unchanged.
pub open spec fn unified_to<T>(old: Expr<T>, new: Expr<T>, u: Unifier<T>) -> bool
    decreases old,
{
    let nt = own_next(old, u);
    match old {
        Expr::Let { variable_id, expr, .. } => {
            &&& new matches Expr::Let { variable_id: v2, expr: e2, inferred_type: t2 }
            &&& v2 == variable_id && t2 == nt
            &&& unified_to(*expr, *e2, u)
        },
        Expr::SelectField { expr, field, .. } => {
            &&& new matches Expr::SelectField { expr: e2, field: f2, inferred_type: t2 }
            &&& f2 == field && t2 == nt
            &&& unified_to(*expr, *e2, u)
        },
        Expr::SelectIndex { expr, index, .. } => {
            &&& new matches Expr::SelectIndex { expr: e2, index: i2, inferred_type: t2 }
            &&& i2 == index && t2 == nt
            &&& unified_to(*expr, *e2, u)
        },
        Expr::Sequence { exprs, .. } => {
            &&& new matches Expr::Sequence { exprs: x2, inferred_type: t2 }
            &&& t2 == nt
            &&& x2@.len() == exprs@.len()
            &&& forall|i: int| 0 <= i < exprs@.len() ==> unified_to(#[trigger] exprs@[i], x2@[i], u)
        },
        Expr::Record { exprs, .. } => {
            &&& new matches Expr::Record { exprs: x2, inferred_type: t2 }
            &&& t2 == nt
            &&& x2@.len() == exprs@.len()
            &&& forall|i: int|
                0 <= i < exprs@.len() ==> x2@[i].0 == (#[trigger] exprs@[i]).0 && unified_to(
                    *exprs@[i].1,
                    *x2@[i].1,
                    u,
                )
        },
        Expr::Tuple { exprs, .. } => {
            &&& new matches Expr::Tuple { exprs: x2, inferred_type: t2 }
            &&& t2 == nt
            &&& x2@.len() == exprs@.len()
            &&& forall|i: int| 0 <= i < exprs@.len() ==> unified_to(#[trigger] exprs@[i], x2@[i], u)
        },
        Expr::Literal { value, .. } => new == Expr::Literal { value, inferred_type: nt },
        Expr::Number { number, .. } => new == Expr::Number { number, inferred_type: nt },
        Expr::Flags { flags, .. } => new == Expr::Flags { flags, inferred_type: nt },
        Expr::Identifier { variable_id, .. } => new == Expr::Identifier {
            variable_id,
            inferred_type: nt,
        },
        Expr::Boolean { .. } => new == old,
        Expr::Concat { exprs, .. } => {
            &&& new matches Expr::Concat { exprs: x2, inferred_type: t2 }
            &&& t2 == nt
            &&& x2@.len() == exprs@.len()
            &&& forall|i: int| 0 <= i < exprs@.len() ==> unified_to(#[trigger] exprs@[i], x2@[i], u)
        },
        Expr::ExprBlock { exprs, .. } => {
            &&& new matches Expr::ExprBlock { exprs: x2, inferred_type: t2 }
            &&& t2 == nt
            &&& x2@.len() == exprs@.len()
            &&& forall|i: int| 0 <= i < exprs@.len() ==> unified_to(#[trigger] exprs@[i], x2@[i], u)
        },
        Expr::Not { expr, .. } => {
            &&& new matches Expr::Not { expr: e2, inferred_type: t2 }
            &&& t2 == nt
            &&& unified_to(*expr, *e2, u)
        },
        Expr::GreaterThan { lhs, rhs, .. } => {
            &&& new matches Expr::GreaterThan { lhs: l2, rhs: r2, inferred_type: t2 }
            &&& t2 == nt
            &&& unified_to(*lhs, *l2, u) && unified_to(*rhs, *r2, u)
        },
        Expr::GreaterThanOrEqualTo { lhs, rhs, .. } => {
            &&& new matches Expr::GreaterThanOrEqualTo { lhs: l2, rhs: r2, inferred_type: t2 }
            &&& t2 == nt
            &&& unified_to(*lhs, *l2, u) && unified_to(*rhs, *r2, u)
        },
        Expr::LessThanOrEqualTo { lhs, rhs, .. } => {
            &&& new matches Expr::LessThanOrEqualTo { lhs: l2, rhs: r2, inferred_type: t2 }
            &&& t2 == nt
            &&& unified_to(*lhs, *l2, u) && unified_to(*rhs, *r2, u)
        },
        Expr::Plus { lhs, rhs, .. } => {
            &&& new matches Expr::Plus { lhs: l2, rhs: r2, inferred_type: t2 }
            &&& t2 == nt
            &&& unified_to(*lhs, *l2, u) && unified_to(*rhs, *r2, u)
        },
        Expr::Minus { lhs, rhs, .. } => {
            &&& new matches Expr::Minus { lhs: l2, rhs: r2, inferred_type: t2 }
            &&& t2 == nt
            &&& unified_to(*lhs, *l2, u) && unified_to(*rhs, *r2, u)
        },
        Expr::Multiply { lhs, rhs, .. } => {
            &&& new matches Expr::Multiply { lhs: l2, rhs: r2, inferred_type: t2 }
            &&& t2 == nt
            &&& unified_to(*lhs, *l2, u) && unified_to(*rhs, *r2, u)
        },
        Expr::Divide { lhs, rhs, .. } => {
            &&& new matches Expr::Divide { lhs: l2, rhs: r2, inferred_type: t2 }
            &&& t2 == nt
            &&& unified_to(*lhs, *l2, u) && unified_to(*rhs, *r2, u)
        },
        Expr::EqualTo { lhs, rhs, .. } => {
            &&& new matches Expr::EqualTo { lhs: l2, rhs: r2, inferred_type: t2 }
            &&& t2 == nt
            &&& unified_to(*lhs, *l2, u) && unified_to(*rhs, *r2, u)
        },
        Expr::LessThan { lhs, rhs, .. } => {
            &&& new matches Expr::LessThan { lhs: l2, rhs: r2, inferred_type: t2 }
            &&& t2 == nt
            &&& unified_to(*lhs, *l2, u) && unified_to(*rhs, *r2, u)
        },
        Expr::Cond { cond, lhs, rhs, .. } => {
            &&& new matches Expr::Cond { cond: c2, lhs: l2, rhs: r2, inferred_type: t2 }
            &&& t2 == nt
            &&& unified_to(*cond, *c2, u) && unified_to(*lhs, *l2, u) && unified_to(*rhs, *r2, u)
        },
        Expr::PatternMatch { predicate, match_arms, .. } => {
            &&& new matches Expr::PatternMatch { predicate: p2, match_arms: a2, inferred_type: t2 }
            &&& t2 == nt
            &&& unified_to(*predicate, *p2, u)
            &&& a2@.len() == match_arms@.len()
            &&& forall|i: int|
                0 <= i < match_arms@.len() ==> unified_pattern_to(
                    (#[trigger] match_arms@[i]).arm_pattern,
                    a2@[i].arm_pattern,
                    u,
                ) && unified_to(*match_arms@[i].arm_resolution_expr, *a2@[i].arm_resolution_expr, u)
        },
        Expr::Option { expr: Some(inner), .. } => {
            &&& new matches Expr::Option { expr: Some(e2), inferred_type: t2 }
            &&& t2 == nt
            &&& unified_to(*inner, *e2, u)
        },
        Expr::Option { expr: None, .. } => new == Expr::Option { expr: None, inferred_type: nt },
        Expr::Result { expr: Ok(inner), .. } => {
            &&& new matches Expr::Result { expr: Ok(e2), inferred_type: t2 }
            &&& t2 == nt
            &&& unified_to(*inner, *e2, u)
        },
        Expr::Result { expr: Err(inner), .. } => {
            &&& new matches Expr::Result { expr: Err(e2), inferred_type: t2 }
            &&& t2 == nt
            &&& unified_to(*inner, *e2, u)
        },
        Expr::Call { call_type, args, .. } => {
            &&& new matches Expr::Call { call_type: c2, args: x2, inferred_type: t2 }
            &&& t2 == nt
            &&& x2@.len() == args@.len()
            &&& forall|i: int| 0 <= i < args@.len() ==> unified_to(#[trigger] args@[i], x2@[i], u)
            &&& match call_type {
                CallType::Function { worker: Some(w), function_name } => {
                    &&& c2 matches CallType::Function { worker: Some(w2), function_name: f2 }
                    &&& f2 == function_name
                    &&& unified_to(*w, *w2, u)
                },
                _ => c2 == call_type,
            }
        },
        Expr::InvokeMethodLazy { .. } => new == old,
        Expr::Unwrap { expr, .. } => {
            &&& new matches Expr::Unwrap { expr: e2, inferred_type: t2 }
            &&& t2 == nt
            &&& unified_to(*expr, *e2, u)
        },
        Expr::Throw { message, .. } => new == Expr::Throw { message, inferred_type: nt },
        Expr::GetTag { expr, .. } => new == Expr::GetTag { expr, inferred_type: nt },
        Expr::And { lhs, rhs, .. } => {
            &&& new matches Expr::And { lhs: l2, rhs: r2, inferred_type: t2 }
            &&& t2 == nt
            &&& unified_to(*lhs, *l2, u) && unified_to(*rhs, *r2, u)
        },
        Expr::Or { lhs, rhs, .. } => {
            &&& new matches Expr::Or { lhs: l2, rhs: r2, inferred_type: t2 }
            &&& t2 == nt
            &&& unified_to(*lhs, *l2, u) && unified_to(*rhs, *r2, u)
        },
        Expr::ListComprehension { iterated_variable, iterable_expr, yield_expr, .. } => {
            &&& new matches Expr::ListComprehension {
                iterated_variable: v2,
                iterable_expr: i2,
                yield_expr: y2,
                inferred_type: t2,
            }
            &&& v2 == iterated_variable && t2 == nt
            &&& unified_to(*iterable_expr, *i2, u) && unified_to(*yield_expr, *y2, u)
        },
        Expr::ListReduce {
            reduce_variable,
            iterated_variable,
            iterable_expr,
            init_value_expr,
            yield_expr,
            ..
        } => {
            &&& new matches Expr::ListReduce {
                reduce_variable: r2,
                iterated_variable: v2,
                iterable_expr: i2,
                init_value_expr: n2,
                yield_expr: y2,
                inferred_type: t2,
            }
            &&& r2 == reduce_variable && v2 == iterated_variable && t2 == nt
            &&& unified_to(*iterable_expr, *i2, u) && unified_to(*init_value_expr, *n2, u)
                && unified_to(*yield_expr, *y2, u)
        },
    }
}

/// `new` is what the pass leaves of the pattern `old`: its literal
/// expressions are unified, all else is unchanged.
pub open spec fn unified_pattern_to<T>(old: ArmPattern<T>, new: ArmPattern<T>, u: Unifier<T>) -> bool
    decreases old,
{
    match old {
        ArmPattern::WildCard => new == old,
        ArmPattern::As(name, inner) => {
            &&& new matches ArmPattern::As(n2, i2)
            &&& n2 == name
            &&& unified_pattern_to(*inner, *i2, u)
        },
        ArmPattern::Constructor(name, patterns) => {
            &&& new matches ArmPattern::Constructor(n2, p2)
            &&& n2 == name
            &&& p2@.len() == patterns@.len()
            &&& forall|i: int|
                0 <= i < patterns@.len() ==> unified_pattern_to(#[trigger] patterns@[i], p2@[i], u)
        },
        ArmPattern::TupleConstructor(patterns) => {
            &&& new matches ArmPattern::TupleConstructor(p2)
            &&& p2@.len() == patterns@.len()
            &&& forall|i: int|
                0 <= i < patterns@.len() ==> unified_pattern_to(#[trigger] patterns@[i], p2@[i], u)
        },
        ArmPattern::RecordConstructor(fields) => {
            &&& new matches ArmPattern::RecordConstructor(f2)
            &&& f2@.len() == fields@.len()
            &&& forall|i: int|
                0 <= i < fields@.len() ==> f2@[i].0 == (#[trigger] fields@[i]).0
                    && unified_pattern_to(fields@[i].1, f2@[i].1, u)
        },
        ArmPattern::ListConstructor(patterns) => {
            &&& new matches ArmPattern::ListConstructor(p2)
            &&& p2@.len() == patterns@.len()
            &&& forall|i: int|
                0 <= i < patterns@.len() ==> unified_pattern_to(#[trigger] patterns@[i], p2@[i], u)
        },
        ArmPattern::Literal(e) => {
            &&& new matches ArmPattern::Literal(e2)
            &&& unified_to(*e, *e2, u)
        },
    }
}

/// The messages the pass reports for `e` and its subtree, in order.
pub open spec fn expr_errors<T>(e: Expr<T>, u: Unifier<T>, r: Renderer<T>) -> Seq<Seq<char>>
    decreases e,
{
    own_errors(e, u, r) + match e {
        Expr::Let { expr, .. } => expr_errors(*expr, u, r),
        Expr::SelectField { expr, .. } => expr_errors(*expr, u, r),
        Expr::SelectIndex { expr, .. } => expr_errors(*expr, u, r),
        Expr::Sequence { exprs, .. } => rev_errors(exprs@, u, r),
        Expr::Record { exprs, .. } => rev_field_errors(exprs@, u, r),
        Expr::Tuple { exprs, .. } => rev_errors(exprs@, u, r),
        Expr::Concat { exprs, .. } => rev_errors(exprs@, u, r),
        Expr::ExprBlock { exprs, .. } => rev_errors(exprs@, u, r),
        Expr::Not { expr, .. } => expr_errors(*expr, u, r),
        Expr::Unwrap { expr, .. } => expr_errors(*expr, u, r),
        Expr::GreaterThan { lhs, rhs, .. } => expr_errors(*rhs, u, r) + expr_errors(*lhs, u, r),
        Expr::GreaterThanOrEqualTo { lhs, rhs, .. } => expr_errors(*rhs, u, r) + expr_errors(
            *lhs,
            u,
            r,
        ),
        Expr::LessThanOrEqualTo { lhs, rhs, .. } => expr_errors(*rhs, u, r) + expr_errors(
            *lhs,
            u,
            r,
        ),
        Expr::Plus { lhs, rhs, .. } => expr_errors(*rhs, u, r) + expr_errors(*lhs, u, r),
        Expr::Minus { lhs, rhs, .. } => expr_errors(*rhs, u, r) + expr_errors(*lhs, u, r),
        Expr::Multiply { lhs, rhs, .. } => expr_errors(*rhs, u, r) + expr_errors(*lhs, u, r),
        Expr::Divide { lhs, rhs, .. } => expr_errors(*rhs, u, r) + expr_errors(*lhs, u, r),
        Expr::EqualTo { lhs, rhs, .. } => expr_errors(*rhs, u, r) + expr_errors(*lhs, u, r),
        Expr::LessThan { lhs, rhs, .. } => expr_errors(*rhs, u, r) + expr_errors(*lhs, u, r),
        Expr::And { lhs, rhs, .. } => expr_errors(*rhs, u, r) + expr_errors(*lhs, u, r),
        Expr::Or { lhs, rhs, .. } => expr_errors(*rhs, u, r) + expr_errors(*lhs, u, r),
        Expr::Cond { cond, lhs, rhs, .. } => expr_errors(*rhs, u, r) + expr_errors(*lhs, u, r)
            + expr_errors(*cond, u, r),
        Expr::PatternMatch { predicate, match_arms, .. } => arms_errors(match_arms@, u, r)
            + expr_errors(*predicate, u, r),
        Expr::Option { expr: Some(inner), .. } => expr_errors(*inner, u, r),
        Expr::Result { expr: Ok(inner), .. } => expr_errors(*inner, u, r),
        Expr::Result { expr: Err(inner), .. } => expr_errors(*inner, u, r),
        Expr::Call { call_type, args, .. } => match call_type {
            CallType::Function { worker: Some(w), .. } => expr_errors(*w, u, r) + rev_errors(
                args@,
                u,
                r,
            ),
            _ => rev_errors(args@, u, r),
        },
        Expr::ListComprehension { iterable_expr, yield_expr, .. } => expr_errors(
            *yield_expr,
            u,
            r,
        ) + expr_errors(*iterable_expr, u, r),
        Expr::ListReduce { iterable_expr, init_value_expr, yield_expr, .. } => expr_errors(
            *yield_expr,
            u,
            r,
        ) + expr_errors(*init_value_expr, u, r) + expr_errors(*iterable_expr, u, r),
        _ => Seq::empty(),
    }
}

/// The messages for a list of pushed expressions: the last one comes first.
pub open spec fn rev_errors<T>(s: Seq<Expr<T>>, u: Unifier<T>, r: Renderer<T>) -> Seq<Seq<char>>
    decreases s,
{
    if s.len() == 0 {
        Seq::empty()
    } else {
        expr_errors(s.last(), u, r) + rev_errors(s.drop_last(), u, r)
    }
}

/// The messages for the fields of a record: the last field comes first.
pub open spec fn rev_field_errors<T>(
    s: Seq<(String, Box<Expr<T>>)>,
    u: Unifier<T>,
    r: Renderer<T>,
) -> Seq<Seq<char>>
    decreases s,
{
    if s.len() == 0 {
        Seq::empty()
    } else {
        expr_errors(*s.last().1, u, r) + rev_field_errors(s.drop_last(), u, r)
    }
}

/// The messages for the arms of a match, first arm first.
pub open spec fn arms_errors<T>(s: Seq<MatchArm<T>>, u: Unifier<T>, r: Renderer<T>) -> Seq<
    Seq<char>,
>
    decreases s,
{
    if s.len() == 0 {
        Seq::empty()
    } else {
        arms_errors(s.drop_last(), u, r) + expr_errors(*s.last().arm_resolution_expr, u, r)
            + pattern_errors(s.last().arm_pattern, u, r)
    }
}

/// The messages for the literal expressions of a pattern: the last one
/// comes first.
pub open spec fn pattern_errors<T>(p: ArmPattern<T>, u: Unifier<T>, r: Renderer<T>) -> Seq<
    Seq<char>,
>
    decreases p,
{
    match p {
        ArmPattern::WildCard => Seq::empty(),
        ArmPattern::As(_, inner) => pattern_errors(*inner, u, r),
        ArmPattern::Constructor(_, patterns) => rev_pattern_errors(patterns@, u, r),
        ArmPattern::TupleConstructor(patterns) => rev_pattern_errors(patterns@, u, r),
        ArmPattern::RecordConstructor(fields) => rev_field_pattern_errors(fields@, u, r),
        ArmPattern::ListConstructor(patterns) => rev_pattern_errors(patterns@, u, r),
        ArmPattern::Literal(e) => expr_errors(*e, u, r),
    }
}

/// The messages for a list of patterns: the last one comes first.
pub open spec fn rev_pattern_errors<T>(s: Seq<ArmPattern<T>>, u: Unifier<T>, r: Renderer<T>) -> Seq<
    Seq<char>,
>
    decreases s,
{
    if s.len() == 0 {
        Seq::empty()
    } else {
        pattern_errors(s.last(), u, r) + rev_pattern_errors(s.drop_last(), u, r)
    }
}

/// The messages for the field patterns of a record pattern: the last one
/// comes first.
pub open spec fn rev_field_pattern_errors<T>(
    s: Seq<(String, ArmPattern<T>)>,
    u: Unifier<T>,
    r: Renderer<T>,
) -> Seq<Seq<char>>
    decreases s,
{
    if s.len() == 0 {
        Seq::empty()
    } else {
        pattern_errors(s.last().1, u, r) + rev_field_pattern_errors(s.drop_last(), u, r)
    }
}


/// `p` holds of every node that the pass visits in `e`.
pub open spec fn all_visited<T>(e: Expr<T>, p: spec_fn(Expr<T>) -> bool) -> bool
    decreases e,
{
    p(e) && match e {
        Expr::Let { expr, .. } => all_visited(*expr, p),
        Expr::SelectField { expr, .. } => all_visited(*expr, p),
        Expr::SelectIndex { expr, .. } => all_visited(*expr, p),
        Expr::Not { expr, .. } => all_visited(*expr, p),
        Expr::Unwrap { expr, .. } => all_visited(*expr, p),
        Expr::GreaterThan { lhs, rhs, .. } => all_visited(*lhs, p) && all_visited(*rhs, p),
        Expr::GreaterThanOrEqualTo { lhs, rhs, .. } => all_visited(*lhs, p) && all_visited(*rhs, p),
        Expr::LessThanOrEqualTo { lhs, rhs, .. } => all_visited(*lhs, p) && all_visited(*rhs, p),
        Expr::Plus { lhs, rhs, .. } => all_visited(*lhs, p) && all_visited(*rhs, p),
        Expr::Minus { lhs, rhs, .. } => all_visited(*lhs, p) && all_visited(*rhs, p),
        Expr::Multiply { lhs, rhs, .. } => all_visited(*lhs, p) && all_visited(*rhs, p),
        Expr::Divide { lhs, rhs, .. } => all_visited(*lhs, p) && all_visited(*rhs, p),
        Expr::EqualTo { lhs, rhs, .. } => all_visited(*lhs, p) && all_visited(*rhs, p),
        Expr::LessThan { lhs, rhs, .. } => all_visited(*lhs, p) && all_visited(*rhs, p),
        Expr::And { lhs, rhs, .. } => all_visited(*lhs, p) && all_visited(*rhs, p),
        Expr::Or { lhs, rhs, .. } => all_visited(*lhs, p) && all_visited(*rhs, p),
        Expr::Sequence { exprs, .. } => forall|i: int| 0 <= i < exprs@.len() ==> all_visited(#[trigger] exprs@[i], p),
        Expr::Tuple { exprs, .. } => forall|i: int| 0 <= i < exprs@.len() ==> all_visited(#[trigger] exprs@[i], p),
        Expr::Concat { exprs, .. } => forall|i: int| 0 <= i < exprs@.len() ==> all_visited(#[trigger] exprs@[i], p),
        Expr::ExprBlock { exprs, .. } => forall|i: int| 0 <= i < exprs@.len() ==> all_visited(#[trigger] exprs@[i], p),
        Expr::Record { exprs, .. } => forall|i: int|
            0 <= i < exprs@.len() ==> all_visited(*(#[trigger] exprs@[i]).1, p),
        Expr::Cond { cond, lhs, rhs, .. } => all_visited(*cond, p) && all_visited(*lhs, p)
            && all_visited(*rhs, p),
        Expr::PatternMatch { predicate, match_arms, .. } => all_visited(*predicate, p) && forall|
            i: int,
        |
            0 <= i < match_arms@.len() ==> all_visited_in_pattern(
                (#[trigger] match_arms@[i]).arm_pattern,
                p,
            ) && all_visited(*match_arms@[i].arm_resolution_expr, p),
        Expr::Option { expr: Some(inner), .. } => all_visited(*inner, p),
        Expr::Result { expr: Ok(inner), .. } => all_visited(*inner, p),
        Expr::Result { expr: Err(inner), .. } => all_visited(*inner, p),
        Expr::Call { call_type, args, .. } => (forall|i: int|
            0 <= i < args@.len() ==> all_visited(#[trigger] args@[i], p)) && match call_type {
            CallType::Function { worker: Some(w), .. } => all_visited(*w, p),
            _ => true,
        },
        Expr::ListComprehension { iterable_expr, yield_expr, .. } => all_visited(
            *iterable_expr,
            p,
        ) && all_visited(*yield_expr, p),
        Expr::ListReduce { iterable_expr, init_value_expr, yield_expr, .. } => all_visited(
            *iterable_expr,
            p,
        ) && all_visited(*init_value_expr, p) && all_visited(*yield_expr, p),
        _ => true,
    }
}

/// `p` holds of every node that the pass visits in the literal expressions
/// of the pattern `pat`.
pub open spec fn all_visited_in_pattern<T>(pat: ArmPattern<T>, p: spec_fn(Expr<T>) -> bool) -> bool
    decreases pat,
{
    match pat {
        ArmPattern::WildCard => true,
        ArmPattern::As(_, inner) => all_visited_in_pattern(*inner, p),
        ArmPattern::Constructor(_, patterns) => forall|i: int|
            0 <= i < patterns@.len() ==> all_visited_in_pattern(#[trigger] patterns@[i], p),
        ArmPattern::TupleConstructor(patterns) => forall|i: int|
            0 <= i < patterns@.len() ==> all_visited_in_pattern(#[trigger] patterns@[i], p),
        ArmPattern::RecordConstructor(fields) => forall|i: int|
            0 <= i < fields@.len() ==> all_visited_in_pattern((#[trigger] fields@[i]).1, p),
        ArmPattern::ListConstructor(patterns) => forall|i: int|
            0 <= i < patterns@.len() ==> all_visited_in_pattern(#[trigger] patterns@[i], p),
        ArmPattern::Literal(e) => all_visited(*e, p),
    }
}

} // verus!
